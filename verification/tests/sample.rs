use asp_sample1::console::{cancel_result_prio, priority_to_print, wakeups_to_print, Console, ConsoleAction, KernelObjects, ALARM_DELAY, CTRL_C};
use asp_sample1::ercd::{mercd, sercd, serial_open_failed, svc_error_output, E_OBJ, E_OK};
use asp_sample1::handlers::{cpu_exception_response, tex_routine_exits, CpuExcContext, CpuExcOutcome, TEX_EXIT_PATTERN};
use asp_sample1::kernel::{ready_queue_rotation, HIGH_PRIORITY, LOW_PRIORITY, MID_PRIORITY};
use asp_sample1::mailbox::{Mailbox, NO_MESSAGE};
use asp_sample1::syslog::{log_upto, LOG_EMERG, LOG_INFO, LOG_NOTICE, LOG_ERROR, LOG_DEBUG};
use asp_sample1::task::{command_is_notice, task_command, task_graph, TaskCommand, TaskState, TASK_TIMEOUT};
use asp_sample1::timing::{empty_loop, loop_counts};

fn objects() -> KernelObjects {
    KernelObjects { task1: 1, task2: 2, task3: 3, cyclic_handler: 1, alarm_handler: 1 }
}

fn odd_objects() -> KernelObjects {
    KernelObjects { task1: 11, task2: 12, task3: 13, cyclic_handler: 21, alarm_handler: 31 }
}

#[test]
fn error_code_parts_of_plain_codes() {
    assert_eq!(mercd(E_OBJ), -41);
    assert_eq!(sercd(E_OBJ), -1);
    assert_eq!(mercd(E_OK), 0);
    assert_eq!(sercd(E_OK), 0);
    assert_eq!(mercd(-18), -18);
}

#[test]
fn error_code_parts_with_sub_code() {
    // main code E_OBJ, sub code -2
    let ercd = (-2i32 << 8) | (E_OBJ & 0xff);
    assert_eq!(ercd, -297);
    assert_eq!(mercd(ercd), E_OBJ);
    assert_eq!(sercd(ercd), -2);
    // main code E_OBJ, sub code 5 (a positive code)
    let ercd2 = (5i32 << 8) | (E_OBJ & 0xff);
    assert_eq!(mercd(ercd2), E_OBJ);
    assert_eq!(sercd(ercd2), 5);
    assert_eq!(mercd(127), 127);
    assert_eq!(mercd(128), -128);
    assert_eq!(sercd(i32::MIN), -(1 << 23));
}

#[test]
fn error_reported_only_when_negative() {
    let r = svc_error_output(LOG_ERROR, "main.rs", 42, "Asp::act_tsk(TASK1)", -18).unwrap();
    assert_eq!(r.prio, LOG_ERROR);
    assert_eq!(r.ercd, -18);
    assert_eq!(r.sub, -1);
    assert_eq!(r.line, 42);
    assert_eq!(r.file, "main.rs");
    assert_eq!(r.expr, "Asp::act_tsk(TASK1)");
    assert!(svc_error_output(LOG_ERROR, "main.rs", 1, "x", E_OK).is_none());
    assert!(svc_error_output(LOG_ERROR, "main.rs", 1, "x", 3).is_none());
    let r2 = svc_error_output(LOG_ERROR, "f", 7, "e", -297).unwrap();
    assert_eq!(r2.sub, -2);
}

#[test]
fn serial_open_already_open_is_no_failure() {
    assert!(!serial_open_failed(E_OBJ));
    assert!(!serial_open_failed(-297));
    assert!(serial_open_failed(-18));
    assert!(!serial_open_failed(E_OK));
    assert!(!serial_open_failed(5));
}

#[test]
fn log_masks() {
    assert_eq!(log_upto(LOG_INFO), 0x7f);
    assert_eq!(log_upto(LOG_EMERG), 0x1);
    assert_eq!(log_upto(LOG_DEBUG), 0xff);
    assert_eq!(log_upto(31), u32::MAX);
    assert_eq!(log_upto(30), 0x7fff_ffff);
    assert!(log_upto(LOG_INFO) & (1 << LOG_NOTICE) != 0);
    assert!(log_upto(LOG_INFO) & (1 << LOG_DEBUG) == 0);
}

#[test]
fn mailbox_post_and_take() {
    let mut mb = Mailbox::new();
    for n in 1..=3 {
        assert_eq!(mb.peek(n), NO_MESSAGE);
    }
    mb.post(2, 'z');
    assert_eq!(mb.peek(1), NO_MESSAGE);
    assert_eq!(mb.peek(2), 'z');
    assert_eq!(mb.peek(3), NO_MESSAGE);
    mb.post(2, 's');
    assert_eq!(mb.take(2), 's');
    assert_eq!(mb.take(2), NO_MESSAGE);
    mb.post(3, 'e');
    mb.post(1, 'd');
    assert_eq!(mb.take(3), 'e');
    assert_eq!(mb.peek(1), 'd');
}

#[test]
fn task_commands_from_characters() {
    assert_eq!(task_command('e'), Some(TaskCommand::Exit));
    assert_eq!(task_command('s'), Some(TaskCommand::Sleep));
    assert_eq!(task_command('S'), Some(TaskCommand::SleepTimeout(10000)));
    assert_eq!(task_command('d'), Some(TaskCommand::Delay(10000)));
    assert_eq!(task_command('y'), Some(TaskCommand::DisableTex));
    assert_eq!(task_command('Y'), Some(TaskCommand::EnableTex));
    assert_eq!(task_command('z'), Some(TaskCommand::RaiseCpuException));
    assert_eq!(task_command('Z'), Some(TaskCommand::RaiseCpuExceptionLocked));
    assert_eq!(task_command(NO_MESSAGE), None);
    assert_eq!(task_command('x'), None);
    assert_eq!(task_command('E'), None);
    assert_eq!(TASK_TIMEOUT, 10000);
}

#[test]
fn notice_level_commands() {
    assert!(command_is_notice(TaskCommand::RaiseCpuException));
    assert!(command_is_notice(TaskCommand::RaiseCpuExceptionLocked));
    assert!(!command_is_notice(TaskCommand::Exit));
    assert!(!command_is_notice(TaskCommand::Delay(10000)));
}

#[test]
fn task_graphs() {
    assert_eq!(task_graph(1), "|\0");
    assert_eq!(task_graph(2), "  +\0");
    assert_eq!(task_graph(3), "    *\0");
}

#[test]
fn task_rounds_count_up() {
    let mut t = TaskState::new(3);
    assert_eq!(t.tskno(), 3);
    assert_eq!(t.rounds(), 0);
    assert_eq!(t.begin_round(), 1);
    assert_eq!(t.begin_round(), 2);
    assert_eq!(t.begin_round(), 3);
    assert_eq!(t.rounds(), 3);
    assert_eq!(t.tskno(), 3);
}

#[test]
fn task_takes_its_own_message() {
    let mut mb = Mailbox::new();
    mb.post(1, 'y');
    mb.post(3, 'S');
    let t3 = TaskState::new(3);
    assert_eq!(t3.take_command(&mut mb), Some(TaskCommand::SleepTimeout(10000)));
    assert_eq!(t3.take_command(&mut mb), None);
    assert_eq!(mb.peek(1), 'y');
    let t1 = TaskState::new(1);
    assert_eq!(t1.take_command(&mut mb), Some(TaskCommand::DisableTex));
    assert_eq!(mb.peek(1), NO_MESSAGE);
}

#[test]
fn console_starts_on_task_one() {
    let c = Console::new(odd_objects());
    assert_eq!(c.tskno(), 1);
    assert_eq!(c.tskid(), 11);
}

#[test]
fn console_selects_tasks() {
    let mut c = Console::new(odd_objects());
    let mut mb = Mailbox::new();
    assert_eq!(c.handle_input(&mut mb, b'2'), ConsoleAction::Idle);
    assert_eq!(c.tskno(), 2);
    assert_eq!(c.tskid(), 12);
    assert_eq!(c.handle_input(&mut mb, b'3'), ConsoleAction::Idle);
    assert_eq!(c.tskno(), 3);
    assert_eq!(c.tskid(), 13);
    assert_eq!(c.handle_input(&mut mb, b'1'), ConsoleAction::Idle);
    assert_eq!(c.tskno(), 1);
    assert_eq!(c.tskid(), 11);
    assert_eq!(c.handle_input(&mut mb, b'4'), ConsoleAction::Idle);
    assert_eq!(c.tskno(), 1);
    for n in 1..=3 {
        assert_eq!(mb.peek(n), NO_MESSAGE);
    }
}

#[test]
fn console_leaves_messages_for_selected_task() {
    let mut c = Console::new(objects());
    let mut mb = Mailbox::new();
    for (b, ch) in [(b'e', 'e'), (b's', 's'), (b'S', 'S'), (b'd', 'd'), (b'y', 'y'), (b'Y', 'Y'), (b'z', 'z'), (b'Z', 'Z')] {
        assert_eq!(c.handle_input(&mut mb, b), ConsoleAction::Idle);
        assert_eq!(mb.peek(1), ch);
        assert_eq!(mb.peek(2), NO_MESSAGE);
        assert_eq!(mb.peek(3), NO_MESSAGE);
    }
    c.handle_input(&mut mb, b'2');
    c.handle_input(&mut mb, b'z');
    assert_eq!(mb.peek(1), 'Z');
    assert_eq!(mb.peek(2), 'z');
    assert_eq!(c.tskno(), 2);
}

#[test]
fn console_kernel_actions() {
    let mut c = Console::new(odd_objects());
    let mut mb = Mailbox::new();
    c.handle_input(&mut mb, b'2');
    let cases = [
        (b'a', ConsoleAction::ActivateTask(12)),
        (b'A', ConsoleAction::CancelActivations(12)),
        (b't', ConsoleAction::TerminateTask(12)),
        (b'>', ConsoleAction::ChangePriority(12, HIGH_PRIORITY)),
        (b'=', ConsoleAction::ChangePriority(12, MID_PRIORITY)),
        (b'<', ConsoleAction::ChangePriority(12, LOW_PRIORITY)),
        (b'G', ConsoleAction::GetPriority(12)),
        (b'W', ConsoleAction::CancelWakeups(12)),
        (b'w', ConsoleAction::WakeUpTask(12)),
        (b'l', ConsoleAction::ReleaseWait(12)),
        (b'u', ConsoleAction::SuspendTask(12)),
        (b'm', ConsoleAction::ResumeTask(12)),
        (b'x', ConsoleAction::RaiseTaskException(12, 0x0001)),
        (b'X', ConsoleAction::RaiseTaskException(12, 0x0002)),
        (b'r', ConsoleAction::RotateReadyQueues),
        (b'c', ConsoleAction::StartCyclic(21)),
        (b'C', ConsoleAction::StopCyclic(21)),
        (b'b', ConsoleAction::StartAlarm(31, 5000)),
        (b'B', ConsoleAction::StopAlarm(31)),
        (b'V', ConsoleAction::ReadUtm),
        (b'Q', ConsoleAction::Quit),
        (CTRL_C, ConsoleAction::Quit),
        (b'v', ConsoleAction::SetLogMask(LOG_INFO, LOG_EMERG)),
        (b'q', ConsoleAction::SetLogMask(LOG_NOTICE, LOG_EMERG)),
        (b'k', ConsoleAction::Idle),
        (0u8, ConsoleAction::Idle),
        (0xffu8, ConsoleAction::Idle),
    ];
    for (b, want) in cases {
        assert_eq!(c.handle_input(&mut mb, b), want);
        assert_eq!(c.tskno(), 2);
    }
    for n in 1..=3 {
        assert_eq!(mb.peek(n), NO_MESSAGE);
    }
    assert_eq!(ALARM_DELAY, 5000);
}

#[test]
fn console_message_reaches_task_then_slot_is_empty() {
    let mut c = Console::new(objects());
    let mut mb = Mailbox::new();
    c.handle_input(&mut mb, b'3');
    c.handle_input(&mut mb, b'e');
    let t3 = TaskState::new(3);
    let t2 = TaskState::new(2);
    assert_eq!(t2.take_command(&mut mb), None);
    assert_eq!(t3.take_command(&mut mb), Some(TaskCommand::Exit));
    assert_eq!(t3.take_command(&mut mb), None);
}

#[test]
fn cancel_and_priority_reports() {
    assert_eq!(cancel_result_prio(0), LOG_NOTICE);
    assert_eq!(cancel_result_prio(2), LOG_NOTICE);
    assert_eq!(cancel_result_prio(-18), LOG_ERROR);
    assert_eq!(priority_to_print(0, 10), Some(10));
    assert_eq!(priority_to_print(-18, 10), None);
    assert_eq!(wakeups_to_print(0), Some(0));
    assert_eq!(wakeups_to_print(3), Some(3));
    assert_eq!(wakeups_to_print(-18), None);
}

#[test]
fn task_exception_exit_bit() {
    assert!(tex_routine_exits(TEX_EXIT_PATTERN));
    assert!(tex_routine_exits(0x8001));
    assert!(tex_routine_exits(0x1_8000));
    assert!(!tex_routine_exits(0x0001));
    assert!(!tex_routine_exits(0x0002));
    assert!(!tex_routine_exits(0x7fff));
    assert!(!tex_routine_exits(0x1_0000));
}

#[test]
fn cpu_exception_answers() {
    let r = cpu_exception_response(CpuExcContext { in_handler_context: true, dispatch_pending: true, exception_pending: false });
    assert!(!r.warn_context);
    assert!(!r.warn_dispatch);
    assert_eq!(r.outcome, CpuExcOutcome::RaiseTaskException(0x8000));
    let r = cpu_exception_response(CpuExcContext { in_handler_context: false, dispatch_pending: true, exception_pending: true });
    assert!(r.warn_context);
    assert!(!r.warn_dispatch);
    assert_eq!(r.outcome, CpuExcOutcome::EndProgram);
    let r = cpu_exception_response(CpuExcContext { in_handler_context: true, dispatch_pending: false, exception_pending: false });
    assert!(!r.warn_context);
    assert!(r.warn_dispatch);
    match r.outcome {
        CpuExcOutcome::RaiseTaskException(p) => assert!(tex_routine_exits(p)),
        CpuExcOutcome::EndProgram => panic!("expected a task exception"),
    }
}

#[test]
fn busy_loop_counts() {
    assert_eq!(empty_loop(0), 1);
    assert_eq!(empty_loop(1000), 1001);
}

#[test]
fn loop_lengths_from_measured_time() {
    let lc = loop_counts(100, 500);
    assert_eq!(lc.task_loop, 1_000_000);
    assert_eq!(lc.tex_loop, 250_000);
    let lc = loop_counts(0, 1);
    assert_eq!(lc.task_loop, 400_000_000);
    assert_eq!(lc.tex_loop, 100_000_000);
    let lc = loop_counts(10, 13);
    assert_eq!(lc.task_loop, 133_333_333);
    assert_eq!(lc.tex_loop, 33_333_333);
}

#[test]
fn rotation_order() {
    assert_eq!(ready_queue_rotation(), [9, 10, 11]);
}

#[test]
fn log_mask_commands() {
    let mut c = Console::new(objects());
    let mut mb = Mailbox::new();
    match c.handle_input(&mut mb, b'v') {
        ConsoleAction::SetLogMask(log, low) => {
            assert_eq!(log_upto(log), 0x7f);
            assert_eq!(log_upto(low), 0x1);
        }
        other => panic!("unexpected {:?}", other),
    }
    match c.handle_input(&mut mb, b'q') {
        ConsoleAction::SetLogMask(log, low) => {
            assert_eq!(log_upto(log), 0x3f);
            assert_eq!(log_upto(low), 0x1);
        }
        other => panic!("unexpected {:?}", other),
    }
    assert_eq!(c.tskno(), 1);
    assert_eq!(mb.peek(1), NO_MESSAGE);
}
