use vstd::prelude::*;

verus! {

/// A kernel error code (`ER`): zero or positive for success, negative for errors.
pub type Er = i32;

/// Normal completion.
pub const E_OK: Er = 0;

/// Object state error (`E_OBJ`).
pub const E_OBJ: Er = -41;

/// The main error code of `ercd`: its low byte, read as a signed number.
pub open spec fn main_code(ercd: int) -> int {
    if ercd % 256 < 128 {
        ercd % 256
    } else {
        ercd % 256 - 256
    }
}

/// The sub error code of `ercd`: what lies above its low byte.
pub open spec fn sub_code(ercd: int) -> int {
    ercd / 256
}

/// The main error code (`MERCD`) of an error code.
pub fn mercd(ercd: Er) -> (m: Er)
    ensures
        m == main_code(ercd as int),
        -128 <= m < 128,
{
    let low: i32 = ercd & 0xff;
    assert(ercd & 0xff == ercd % 256) by (bit_vector);
    if low >= 128 {
        low - 256
    } else {
        low
    }
}

/// The sub error code (`SERCD`) of an error code.
pub fn sercd(ercd: Er) -> (s: Er)
    ensures
        s == sub_code(ercd as int),
{
    assert(ercd >> 8u32 == ercd / 256) by (bit_vector);
    ercd >> 8u32
}

/// What the sample prints when a service call reports an error: the
/// priority to log it at, the error code (printed by its name), its sub error
/// code, and where the call stands in the source.
pub struct ErrorReport<'a> {
    pub prio: u32,
    pub ercd: Er,
    pub sub: Er,
    pub expr: &'a str,
    pub line: u32,
    pub file: &'a str,
}

/// Decides whether the result `ercd` of the service call `expr`, made at
/// `line` of `file`, is to be reported, and with what: a report comes back
/// exactly when `ercd` is negative.
pub fn svc_error_output<'a>(prio: u32, file: &'a str, line: u32, expr: &'a str, ercd: Er) -> (r: Option<ErrorReport<'a>>)
    ensures
        r is Some <==> ercd < 0,
        r matches Some(rep) ==> {
            &&& rep.prio == prio
            &&& rep.ercd == ercd
            &&& rep.sub == sub_code(ercd as int)
            &&& rep.expr == expr
            &&& rep.line == line
            &&& rep.file == file
        },
{
    if ercd < 0 {
        Some(ErrorReport { prio, ercd, sub: sercd(ercd), expr, line, file })
    } else {
        None
    }
}

/// Whether the result of opening the serial port is reported as an error:
/// it is when the call failed for any reason but the port being open already.
pub fn serial_open_failed(ercd: Er) -> (failed: bool)
    ensures
        failed <==> (ercd < 0 && main_code(ercd as int) != E_OBJ),
{
    ercd < 0 && mercd(ercd) != E_OBJ
}

/// An error code is put back together from its main and sub codes: the sub
/// code above the low byte, the main code in it.
pub proof fn lemma_error_code_parts(ercd: int)
    ensures
        ercd == sub_code(ercd) * 256 + (main_code(ercd) % 256),
        -128 <= main_code(ercd) < 128,
{
}

} // verus!
