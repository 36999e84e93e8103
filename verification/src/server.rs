//! The debug adapter: the capability surface the protocol layer drives.
//!
//! Each operation forwards one request over the rendezvous channel to the VM
//! execution thread and resolves the reply through the verified session
//! state machine. Nothing is assumed about what the channel hands back:
//! whatever reply arrives, the result and the session state afterwards are
//! exactly what `crate::session::reply_step` states for it; a channel
//! failure disconnects the session and is fatal.

use vstd::prelude::*;
use std::sync::mpsc::{Receiver, SyncSender};
use crate::channel::{channel_recv, channel_send, channel_try_recv, sync_channel_pair};
use crate::errors::AdapterError;
use crate::protocol::{VmReply, VmRequest};
use crate::regs::{BpfBreakpointKind, BpfRegId, BpfRegs};
use crate::session::{pending_of, reply_step, Outcome, Pending, Session, SessionState, StopReason};

verus! {

/// A resume intent from the protocol layer.
#[derive(Debug, Clone, Copy, PartialEq, Eq)]
pub enum ResumeAction {
    Step,
    Continue,
    StepWithSignal(u8),
    ContinueWithSignal(u8),
}

/// What `resume` reports: a stop already observed (single step), or that
/// the VM now runs freely and `poll_continue` must be called until it
/// stops.
#[derive(Debug, Clone, Copy, PartialEq, Eq)]
pub enum ResumeStatus {
    Stopped(StopReason),
    Polling,
}

/// The fixed section-offset answer: the VM has no relocatable section
/// layout to report.
#[derive(Debug, Clone, Copy, PartialEq, Eq)]
pub struct SectionOffsets {
    pub text: u64,
    pub data: u64,
    pub bss: Option<u64>,
}

/// A full-register-file outcome narrowed to its payload.
pub open spec fn regs_of(res: Result<Outcome, AdapterError>) -> Result<BpfRegs, AdapterError> {
    match res {
        Ok(Outcome::Regs(rf)) => Ok(rf),
        Ok(_) => Err(AdapterError::UnexpectedReply),
        Err(e) => Err(e),
    }
}

/// A single-register outcome narrowed to its payload.
pub open spec fn value_of(res: Result<Outcome, AdapterError>) -> Result<u64, AdapterError> {
    match res {
        Ok(Outcome::RegValue(v)) => Ok(v),
        Ok(_) => Err(AdapterError::UnexpectedReply),
        Err(e) => Err(e),
    }
}

/// A memory-read outcome narrowed to its payload.
pub open spec fn bytes_of(res: Result<Outcome, AdapterError>) -> Result<Vec<u8>, AdapterError> {
    match res {
        Ok(Outcome::Bytes(b)) => Ok(b),
        Ok(_) => Err(AdapterError::UnexpectedReply),
        Err(e) => Err(e),
    }
}

/// An acknowledgement outcome narrowed to unit.
pub open spec fn ack_of(res: Result<Outcome, AdapterError>) -> Result<(), AdapterError> {
    match res {
        Ok(Outcome::Ack) => Ok(()),
        Ok(_) => Err(AdapterError::UnexpectedReply),
        Err(e) => Err(e),
    }
}

/// A stop outcome narrowed to its reason.
pub open spec fn stop_of(res: Result<Outcome, AdapterError>) -> Result<
    ResumeStatus,
    AdapterError,
> {
    match res {
        Ok(Outcome::Stop(sr)) => Ok(ResumeStatus::Stopped(sr)),
        Ok(_) => Err(AdapterError::UnexpectedReply),
        Err(e) => Err(e),
    }
}

/// A stop outcome as `poll_continue` reports it.
pub open spec fn poll_of(res: Result<Outcome, AdapterError>) -> Result<
    Option<StopReason>,
    AdapterError,
> {
    match res {
        Ok(Outcome::Stop(sr)) => Ok(Some(sr)),
        Ok(_) => Err(AdapterError::UnexpectedReply),
        Err(e) => Err(e),
    }
}

/// One debugging session's adapter: the requesting half of the request
/// channel, the receiving half of the reply channel, and the session state
/// machine that validates their alternation and reply shapes.
pub struct DebugServer {
    req: SyncSender<VmRequest>,
    reply: Receiver<VmReply>,
    session: Session,
}

impl DebugServer {
    /// The session state machine's current state.
    pub closed spec fn session_state(&self) -> SessionState {
        self.session@
    }

    /// A fresh adapter and the VM thread's ends of both channels. Both
    /// channels are rendezvous (capacity zero), which enforces at most one
    /// in-flight message per leg.
    pub fn new() -> (r: (DebugServer, SyncSender<VmReply>, Receiver<VmRequest>))
        ensures
            r.0.session_state() == SessionState::Idle,
    {
        let (req_tx, req_rx) = sync_channel_pair::<VmRequest>(0);
        let (reply_tx, reply_rx) = sync_channel_pair::<VmReply>(0);
        (DebugServer { req: req_tx, reply: reply_rx, session: Session::new() }, reply_tx, req_rx)
    }

    /// One synchronous round trip: begin the request, send it, block for
    /// the reply and resolve it. Whatever reply the channel hands back, the
    /// result and resulting state are exactly `reply_step` for it; a
    /// channel failure on either leg disconnects the session.
    fn transact(&mut self, req: VmRequest) -> (r: Result<Outcome, AdapterError>)
        ensures
            old(self).session_state() == SessionState::Idle ==> ((r == Err::<
                Outcome,
                AdapterError,
            >(AdapterError::ChannelClosed) && final(self).session_state()
                == SessionState::Disconnected) || (exists|reply: VmReply|
                final(self).session_state() == #[trigger] reply_step(pending_of(req), reply).0 && r
                    == reply_step(pending_of(req), reply).1)),
            (old(self).session_state() matches SessionState::Awaiting(_)) ==> r == Err::<
                Outcome,
                AdapterError,
            >(AdapterError::RequestOutstanding) && final(self).session_state() == old(self).session_state(),
            old(self).session_state() == SessionState::Disconnected ==> r == Err::<
                Outcome,
                AdapterError,
            >(AdapterError::ChannelClosed) && final(self).session_state() == old(self).session_state(),
    {
        match self.session.begin_request(&req) {
            Ok(()) => (),
            Err(e) => {
                return Err(e);
            },
        }
        match channel_send(&self.req, req) {
            Ok(()) => (),
            Err(()) => {
                self.session.disconnect();
                return Err(AdapterError::ChannelClosed);
            },
        }
        match channel_recv(&self.reply) {
            Ok(reply) => self.session.process_reply(reply),
            Err(()) => {
                self.session.disconnect();
                Err(AdapterError::ChannelClosed)
            },
        }
    }

    /// Resume execution. A single step blocks for exactly one stop reply; a
    /// continue sends the request and returns `Polling` — the VM runs until
    /// `poll_continue` observes a stop. Resuming with a signal is not
    /// supported and is rejected without any channel traffic.
    pub fn resume(&mut self, action: ResumeAction) -> (r: Result<ResumeStatus, AdapterError>)
        ensures
            (action matches ResumeAction::StepWithSignal(_) || action
                matches ResumeAction::ContinueWithSignal(_)) ==> r == Err::<
                ResumeStatus,
                AdapterError,
            >(AdapterError::UnsupportedResumeAction) && final(self).session_state() == old(self).session_state(),
            action == ResumeAction::Step && old(self).session_state() == SessionState::Idle ==> ((r
                == Err::<ResumeStatus, AdapterError>(AdapterError::ChannelClosed) && final(self).session_state() == SessionState::Disconnected) || (exists|reply: VmReply|
                final(self).session_state() == #[trigger] reply_step(Pending::Step, reply).0 && r
                    == stop_of(reply_step(Pending::Step, reply).1))),
            action == ResumeAction::Continue && old(self).session_state() == SessionState::Idle
                ==> ((r == Err::<ResumeStatus, AdapterError>(AdapterError::ChannelClosed) && final(self).session_state() == SessionState::Disconnected) || (r == Ok::<
                ResumeStatus,
                AdapterError,
            >(ResumeStatus::Polling) && final(self).session_state() == SessionState::Awaiting(
                Pending::Continue,
            ))),
            (action == ResumeAction::Step || action == ResumeAction::Continue) && (old(self).session_state() matches SessionState::Awaiting(_)) ==> r == Err::<
                ResumeStatus,
                AdapterError,
            >(AdapterError::RequestOutstanding) && final(self).session_state() == old(self).session_state(),
            (action == ResumeAction::Step || action == ResumeAction::Continue) && old(self).session_state() == SessionState::Disconnected ==> r == Err::<
                ResumeStatus,
                AdapterError,
            >(AdapterError::ChannelClosed) && final(self).session_state() == old(self).session_state(),
    {
        match action {
            ResumeAction::Step => {
                match self.transact(VmRequest::Step) {
                    Ok(Outcome::Stop(sr)) => Ok(ResumeStatus::Stopped(sr)),
                    Ok(_) => Err(AdapterError::UnexpectedReply),
                    Err(e) => Err(e),
                }
            },
            ResumeAction::Continue => {
                match self.session.begin_request(&VmRequest::Continue) {
                    Ok(()) => (),
                    Err(e) => {
                        return Err(e);
                    },
                }
                match channel_send(&self.req, VmRequest::Continue) {
                    Ok(()) => Ok(ResumeStatus::Polling),
                    Err(()) => {
                        self.session.disconnect();
                        Err(AdapterError::ChannelClosed)
                    },
                }
            },
            ResumeAction::StepWithSignal(_) | ResumeAction::ContinueWithSignal(_) => {
                Err(AdapterError::UnsupportedResumeAction)
            },
        }
    }

    /// One non-blocking poll for the stop that ends a continue. `Ok(None)`
    /// means no reply yet — the caller yields and polls again. Polling with
    /// no continue outstanding is refused.
    pub fn poll_continue(&mut self) -> (r: Result<Option<StopReason>, AdapterError>)
        ensures
            old(self).session_state() == SessionState::Awaiting(Pending::Continue) ==> ((r == Ok::<
                Option<StopReason>,
                AdapterError,
            >(None) && final(self).session_state() == old(self).session_state()) || (r == Err::<
                Option<StopReason>,
                AdapterError,
            >(AdapterError::ChannelClosed) && final(self).session_state()
                == SessionState::Disconnected) || (exists|reply: VmReply|
                final(self).session_state() == #[trigger] reply_step(Pending::Continue, reply).0
                    && r == poll_of(reply_step(Pending::Continue, reply).1))),
            old(self).session_state() != SessionState::Awaiting(Pending::Continue) ==> r == Err::<
                Option<StopReason>,
                AdapterError,
            >(AdapterError::NoPendingReply) && final(self).session_state() == old(self).session_state(),
    {
        match self.session.current() {
            SessionState::Awaiting(Pending::Continue) => {
                match channel_try_recv(&self.reply) {
                    Ok(None) => Ok(None),
                    Ok(Some(reply)) => {
                        match self.session.process_reply(reply) {
                            Ok(Outcome::Stop(sr)) => Ok(Some(sr)),
                            Ok(_) => Err(AdapterError::UnexpectedReply),
                            Err(e) => Err(e),
                        }
                    },
                    Err(()) => {
                        self.session.disconnect();
                        Err(AdapterError::ChannelClosed)
                    },
                }
            },
            _ => Err(AdapterError::NoPendingReply),
        }
    }

    /// Read the full register file from the VM; its answer is authoritative
    /// over any local copy.
    pub fn read_registers(&mut self) -> (r: Result<BpfRegs, AdapterError>)
        ensures
            old(self).session_state() == SessionState::Idle ==> ((r == Err::<
                BpfRegs,
                AdapterError,
            >(AdapterError::ChannelClosed) && final(self).session_state()
                == SessionState::Disconnected) || (exists|reply: VmReply|
                final(self).session_state() == #[trigger] reply_step(Pending::ReadRegs, reply).0
                    && r == regs_of(reply_step(Pending::ReadRegs, reply).1))),
            (old(self).session_state() matches SessionState::Awaiting(_)) ==> r == Err::<
                BpfRegs,
                AdapterError,
            >(AdapterError::RequestOutstanding) && final(self).session_state() == old(self).session_state(),
            old(self).session_state() == SessionState::Disconnected ==> r == Err::<
                BpfRegs,
                AdapterError,
            >(AdapterError::ChannelClosed) && final(self).session_state() == old(self).session_state(),
    {
        match self.transact(VmRequest::ReadRegs) {
            Ok(Outcome::Regs(rf)) => Ok(rf),
            Ok(_) => Err(AdapterError::UnexpectedReply),
            Err(e) => Err(e),
        }
    }

    /// Write the full register file to the VM.
    pub fn write_registers(&mut self, regs: &BpfRegs) -> (r: Result<(), AdapterError>)
        ensures
            old(self).session_state() == SessionState::Idle ==> ((r == Err::<(), AdapterError>(
                AdapterError::ChannelClosed,
            ) && final(self).session_state() == SessionState::Disconnected) || (exists|
                reply: VmReply,
            |
                final(self).session_state() == #[trigger] reply_step(Pending::WriteRegs, reply).0
                    && r == ack_of(reply_step(Pending::WriteRegs, reply).1))),
            (old(self).session_state() matches SessionState::Awaiting(_)) ==> r == Err::<
                (),
                AdapterError,
            >(AdapterError::RequestOutstanding) && final(self).session_state() == old(self).session_state(),
            old(self).session_state() == SessionState::Disconnected ==> r == Err::<(), AdapterError>(
                AdapterError::ChannelClosed,
            ) && final(self).session_state() == old(self).session_state(),
    {
        match self.transact(VmRequest::WriteRegs(*regs)) {
            Ok(Outcome::Ack) => Ok(()),
            Ok(_) => Err(AdapterError::UnexpectedReply),
            Err(e) => Err(e),
        }
    }

    /// Read `len` bytes of VM memory starting at `start_addr`. On success
    /// the payload holds exactly `len` bytes: a reply of any other length
    /// is a fatal protocol-invariant violation, never truncated or padded.
    pub fn read_addrs(&mut self, start_addr: u64, len: u64) -> (r: Result<Vec<u8>, AdapterError>)
        ensures
            old(self).session_state() == SessionState::Idle ==> ((r == Err::<
                Vec<u8>,
                AdapterError,
            >(AdapterError::ChannelClosed) && final(self).session_state()
                == SessionState::Disconnected) || (exists|reply: VmReply|
                final(self).session_state() == #[trigger] reply_step(Pending::ReadMem(len), reply).0
                    && r == bytes_of(reply_step(Pending::ReadMem(len), reply).1))),
            r matches Ok(bytes) ==> bytes@.len() == len as nat,
            (old(self).session_state() matches SessionState::Awaiting(_)) ==> r == Err::<
                Vec<u8>,
                AdapterError,
            >(AdapterError::RequestOutstanding) && final(self).session_state() == old(self).session_state(),
            old(self).session_state() == SessionState::Disconnected ==> r == Err::<
                Vec<u8>,
                AdapterError,
            >(AdapterError::ChannelClosed) && final(self).session_state() == old(self).session_state(),
    {
        match self.transact(VmRequest::ReadMem(start_addr, len)) {
            Ok(Outcome::Bytes(b)) => Ok(b),
            Ok(_) => Err(AdapterError::UnexpectedReply),
            Err(e) => Err(e),
        }
    }

    /// Write bytes into VM memory starting at `start_addr`.
    pub fn write_addrs(&mut self, start_addr: u64, data: Vec<u8>) -> (r: Result<(), AdapterError>)
        ensures
            old(self).session_state() == SessionState::Idle ==> ((r == Err::<(), AdapterError>(
                AdapterError::ChannelClosed,
            ) && final(self).session_state() == SessionState::Disconnected) || (exists|
                reply: VmReply,
            |
                final(self).session_state() == #[trigger] reply_step(Pending::WriteMem, reply).0
                    && r == ack_of(reply_step(Pending::WriteMem, reply).1))),
            (old(self).session_state() matches SessionState::Awaiting(_)) ==> r == Err::<
                (),
                AdapterError,
            >(AdapterError::RequestOutstanding) && final(self).session_state() == old(self).session_state(),
            old(self).session_state() == SessionState::Disconnected ==> r == Err::<(), AdapterError>(
                AdapterError::ChannelClosed,
            ) && final(self).session_state() == old(self).session_state(),
    {
        let len = data.len() as u64;
        match self.transact(VmRequest::WriteMem(start_addr, len, data)) {
            Ok(Outcome::Ack) => Ok(()),
            Ok(_) => Err(AdapterError::UnexpectedReply),
            Err(e) => Err(e),
        }
    }

    /// Read one register by its validated id.
    pub fn read_register(&mut self, reg_id: BpfRegId) -> (r: Result<u64, AdapterError>)
        ensures
            old(self).session_state() == SessionState::Idle ==> ((r == Err::<u64, AdapterError>(
                AdapterError::ChannelClosed,
            ) && final(self).session_state() == SessionState::Disconnected) || (exists|
                reply: VmReply,
            |
                final(self).session_state() == #[trigger] reply_step(Pending::ReadReg, reply).0 && r
                    == value_of(reply_step(Pending::ReadReg, reply).1))),
            (old(self).session_state() matches SessionState::Awaiting(_)) ==> r == Err::<
                u64,
                AdapterError,
            >(AdapterError::RequestOutstanding) && final(self).session_state() == old(self).session_state(),
            old(self).session_state() == SessionState::Disconnected ==> r == Err::<u64, AdapterError>(
                AdapterError::ChannelClosed,
            ) && final(self).session_state() == old(self).session_state(),
    {
        match self.transact(VmRequest::ReadReg(reg_id.raw())) {
            Ok(Outcome::RegValue(v)) => Ok(v),
            Ok(_) => Err(AdapterError::UnexpectedReply),
            Err(e) => Err(e),
        }
    }

    /// Write one register from its serialized little-endian value. A value
    /// of the wrong width is rejected before any channel traffic.
    pub fn write_register(&mut self, reg_id: BpfRegId, val: &[u8]) -> (r: Result<(), AdapterError>)
        ensures
            val@.len() != 8 ==> r == Err::<(), AdapterError>(AdapterError::MalformedRegisterData)
                && final(self).session_state() == old(self).session_state(),
            val@.len() == 8 && old(self).session_state() == SessionState::Idle ==> ((r == Err::<
                (),
                AdapterError,
            >(AdapterError::ChannelClosed) && final(self).session_state()
                == SessionState::Disconnected) || (exists|reply: VmReply|
                final(self).session_state() == #[trigger] reply_step(Pending::WriteReg, reply).0
                    && r == ack_of(reply_step(Pending::WriteReg, reply).1))),
            val@.len() == 8 && (old(self).session_state() matches SessionState::Awaiting(_)) ==> r
                == Err::<(), AdapterError>(AdapterError::RequestOutstanding) && final(self).session_state() == old(self).session_state(),
            val@.len() == 8 && old(self).session_state() == SessionState::Disconnected ==> r
                == Err::<(), AdapterError>(AdapterError::ChannelClosed) && final(self).session_state() == old(self).session_state(),
    {
        let value = match crate::regs::decode_one(val) {
            Ok(v) => v,
            Err(e) => {
                return Err(e);
            },
        };
        match self.transact(VmRequest::WriteReg(reg_id.raw(), value)) {
            Ok(Outcome::Ack) => Ok(()),
            Ok(_) => Err(AdapterError::UnexpectedReply),
            Err(e) => Err(e),
        }
    }

    /// Ask the VM to halt at `addr`.
    pub fn add_sw_breakpoint(&mut self, addr: u64, _kind: BpfBreakpointKind) -> (r: Result<
        bool,
        AdapterError,
    >)
        ensures
            old(self).session_state() == SessionState::Idle ==> ((r == Err::<bool, AdapterError>(
                AdapterError::ChannelClosed,
            ) && final(self).session_state() == SessionState::Disconnected) || (exists|
                reply: VmReply,
            |
                final(self).session_state() == #[trigger] reply_step(Pending::SetBrkpt, reply).0
                    && r == set_of(reply_step(Pending::SetBrkpt, reply).1))),
            (old(self).session_state() matches SessionState::Awaiting(_)) ==> r == Err::<
                bool,
                AdapterError,
            >(AdapterError::RequestOutstanding) && final(self).session_state() == old(self).session_state(),
            old(self).session_state() == SessionState::Disconnected ==> r == Err::<
                bool,
                AdapterError,
            >(AdapterError::ChannelClosed) && final(self).session_state() == old(self).session_state(),
    {
        match self.transact(VmRequest::SetBrkpt(addr)) {
            Ok(Outcome::Ack) => Ok(true),
            Ok(_) => Err(AdapterError::UnexpectedReply),
            Err(e) => Err(e),
        }
    }

    /// Ask the VM to stop halting at `addr`.
    pub fn remove_sw_breakpoint(&mut self, addr: u64, _kind: BpfBreakpointKind) -> (r: Result<
        bool,
        AdapterError,
    >)
        ensures
            old(self).session_state() == SessionState::Idle ==> ((r == Err::<bool, AdapterError>(
                AdapterError::ChannelClosed,
            ) && final(self).session_state() == SessionState::Disconnected) || (exists|
                reply: VmReply,
            |
                final(self).session_state() == #[trigger] reply_step(Pending::RemoveBrkpt, reply).0
                    && r == set_of(reply_step(Pending::RemoveBrkpt, reply).1))),
            (old(self).session_state() matches SessionState::Awaiting(_)) ==> r == Err::<
                bool,
                AdapterError,
            >(AdapterError::RequestOutstanding) && final(self).session_state() == old(self).session_state(),
            old(self).session_state() == SessionState::Disconnected ==> r == Err::<
                bool,
                AdapterError,
            >(AdapterError::ChannelClosed) && final(self).session_state() == old(self).session_state(),
    {
        match self.transact(VmRequest::RemoveBrkpt(addr)) {
            Ok(Outcome::Ack) => Ok(true),
            Ok(_) => Err(AdapterError::UnexpectedReply),
            Err(e) => Err(e),
        }
    }

    /// The fixed trivial section-offset answer: text and data at zero, no
    /// bss. Intentionally a constant, not a forwarded request — the VM has
    /// no relocatable section layout to report.
    pub fn get_section_offsets(&self) -> (r: SectionOffsets)
        ensures
            r.text == 0,
            r.data == 0,
            r.bss is None,
    {
        SectionOffsets { text: 0, data: 0, bss: None }
    }
}

/// A breakpoint-mutation outcome narrowed to the protocol layer's boolean
/// acknowledgement.
pub open spec fn set_of(res: Result<Outcome, AdapterError>) -> Result<bool, AdapterError> {
    match res {
        Ok(Outcome::Ack) => Ok(true),
        Ok(_) => Err(AdapterError::UnexpectedReply),
        Err(e) => Err(e),
    }
}

} // verus!
