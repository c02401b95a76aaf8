# asp_sample1

The TOPPERS/ASP `sample1` program, with its decisions verified by Verus.

- `src/` is the verified library: error codes (`ercd`), log masks (`syslog`),
  kernel types and the ready-queue rotation (`kernel`), the message slots the
  console shares with the tasks (`mailbox`), the tasks' commands (`task`),
  the console's command interpreter (`console`), the exception handlers'
  decisions (`handlers`), busy-loop timing (`timing`), and the laws that
  relate them (`laws`).
- `app/` holds the kernel entry points (`task`, `tex_routine`,
  `cpuexc_handler`, `cyclic_handler`, `alarm_handler`, `main_task`): they make
  the kernel, serial and log calls of the `toppers_asp` crate and ask the
  library what to do.
- `tests/` runs the library on concrete inputs.
