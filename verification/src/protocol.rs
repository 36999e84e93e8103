//! The request/reply vocabulary spoken over the channel pair between the
//! adapter and the VM execution thread.
//!
//! Each request is created by the adapter and consumed exactly once by the
//! VM thread; each reply is created by the VM thread and consumed exactly
//! once by the adapter. Every request has exactly one well-formed reply
//! shape (see `crate::session::reply_step`).

use vstd::prelude::*;
use crate::regs::BpfRegs;

verus! {

/// A debugging intent delivered synchronously to the VM execution thread.
pub enum VmRequest {
    Continue,
    Step,
    ReadReg(u8),
    ReadRegs,
    WriteReg(u8, u64),
    WriteRegs(BpfRegs),
    /// Address and length to read.
    ReadMem(u64, u64),
    /// Address, byte count and the bytes to write.
    WriteMem(u64, u64, Vec<u8>),
    SetBrkpt(u64),
    RemoveBrkpt(u64),
}

/// The VM execution thread's answer to a request, or an asynchronous stop
/// event while the VM is running freely.
pub enum VmReply {
    DoneStep,
    Interrupt,
    Halted(u8),
    Terminated,
    Breakpoint,
    VmErr(&'static str),
    ReadRegs(BpfRegs),
    ReadReg(u64),
    WriteRegs,
    WriteReg,
    ReadMem(Vec<u8>),
    WriteMem,
    SetBrkpt,
    RemoveBrkpt,
}

} // verus!
