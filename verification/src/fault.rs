//! The abnormal-termination bridge, as plain data: on an unrecoverable
//! internal fault the runtime writes one best-effort diagnostic line and then
//! raises a fixed-shape exception record through a non-returning kernel
//! primitive. This module computes the line and the record; the raise itself
//! is the unverified shell's last act.

use vstd::prelude::*;

verus! {

/// The fixed 128-bit class identifier of the "internal runtime fault"
/// exception, opaque to this subsystem.
pub const RUNTIME_FAULT_CLASS: u128 = 0x4c0c6658_59ae_5675_90c3_ffcc0a7219ad;

/// The fixed-shape record raised to the kernel supervisor on an
/// unrecoverable internal fault.
pub struct ExceptionRecord {
    pub class_id: u128,
    pub info: u64,
    pub reason: u64,
}

/// Builds the record an internal runtime fault raises: the fixed class
/// identifier, with the auxiliary fields unused and zero.
pub fn fault_record() -> (r: ExceptionRecord)
    ensures
        r.class_id == RUNTIME_FAULT_CLASS,
        r.info == 0,
        r.reason == 0,
{
    ExceptionRecord { class_id: RUNTIME_FAULT_CLASS, info: 0, reason: 0 }
}

/// The one-line diagnostic written before the record is raised.
pub open spec fn fault_line_spec(msg: Seq<char>) -> Seq<char> {
    "Panicked at "@ + msg
}

/// Formats the fault diagnostic; exactly `fault_line_spec`.
pub fn fault_message(msg: &str) -> (r: String)
    ensures
        r@ == fault_line_spec(msg@),
{
    let r = "Panicked at ".to_owned().concat(msg);
    r
}

} // verus!
