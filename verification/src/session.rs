//! The session state machine governing which VM events are valid replies to
//! which requests.
//!
//! Per session the adapter is either idle, awaiting the reply to exactly one
//! outstanding request, or disconnected (terminal). A request may begin only
//! when idle — this is the strict request/reply alternation the rendezvous
//! channel enforces at run time, stated and checked here as a state machine.
//! Each pending request accepts exactly one reply shape; an unexpected shape
//! or a memory payload of the wrong length is a protocol-invariant violation
//! and disconnects the session.

use vstd::prelude::*;
use crate::errors::AdapterError;
use crate::protocol::{VmReply, VmRequest};
use crate::regs::BpfRegs;

verus! {

/// Why execution stopped, as reported to the protocol layer.
#[derive(Debug, Clone, Copy, PartialEq, Eq)]
pub enum StopReason {
    /// A single step completed.
    DoneStep,
    /// The process exited with the given code.
    Exited(u8),
    /// A software breakpoint was hit.
    SwBreak,
}

/// The well-typed result a reply resolves to.
#[derive(Debug, PartialEq)]
pub enum Outcome {
    /// Execution stopped (step complete, exit, or breakpoint hit).
    Stop(StopReason),
    /// A full register file read.
    Regs(BpfRegs),
    /// A single register value read.
    RegValue(u64),
    /// Memory bytes read, exactly as many as requested.
    Bytes(Vec<u8>),
    /// A write or breakpoint mutation acknowledged.
    Ack,
}

/// The kind of the outstanding request, with what reply validation needs:
/// a pending memory read remembers the requested length.
#[derive(Debug, Clone, Copy, PartialEq, Eq)]
pub enum Pending {
    Step,
    Continue,
    ReadReg,
    ReadRegs,
    WriteReg,
    WriteRegs,
    ReadMem(u64),
    WriteMem,
    SetBrkpt,
    RemoveBrkpt,
}

/// The per-session protocol state.
#[derive(Debug, Clone, Copy, PartialEq, Eq)]
pub enum SessionState {
    /// No outstanding request.
    Idle,
    /// A request was sent; its reply has not been consumed.
    Awaiting(Pending),
    /// Terminal: the transport or a channel leg failed, or a protocol
    /// invariant was violated.
    Disconnected,
}

/// The pending record a request leaves behind while its reply is awaited.
pub open spec fn pending_of(req: VmRequest) -> Pending {
    match req {
        VmRequest::Continue => Pending::Continue,
        VmRequest::Step => Pending::Step,
        VmRequest::ReadReg(_) => Pending::ReadReg,
        VmRequest::ReadRegs => Pending::ReadRegs,
        VmRequest::WriteReg(_, _) => Pending::WriteReg,
        VmRequest::WriteRegs(_) => Pending::WriteRegs,
        VmRequest::ReadMem(_, len) => Pending::ReadMem(len),
        VmRequest::WriteMem(_, _, _) => Pending::WriteMem,
        VmRequest::SetBrkpt(_) => Pending::SetBrkpt,
        VmRequest::RemoveBrkpt(_) => Pending::RemoveBrkpt,
    }
}

/// How one reply resolves one pending request: the session state afterwards
/// and the outcome or error handed to the protocol layer.
///
/// A step waits for `DoneStep` or `Halted`; a continue waits for `Halted` or
/// `Breakpoint`; every data request waits for its own reply shape, with a VM
/// logical error (`VmReply::VmErr`) recoverable in place of data. Anything
/// else — including a memory payload whose length differs from the request —
/// is fatal and disconnects the session.
pub open spec fn reply_step(p: Pending, reply: VmReply) -> (SessionState, Result<
    Outcome,
    AdapterError,
>) {
    match p {
        Pending::Step => match reply {
            VmReply::DoneStep => (SessionState::Idle, Ok(Outcome::Stop(StopReason::DoneStep))),
            VmReply::Halted(code) => (
                SessionState::Idle,
                Ok(Outcome::Stop(StopReason::Exited(code))),
            ),
            _ => (SessionState::Disconnected, Err(AdapterError::UnexpectedReply)),
        },
        Pending::Continue => match reply {
            VmReply::Halted(code) => (
                SessionState::Idle,
                Ok(Outcome::Stop(StopReason::Exited(code))),
            ),
            VmReply::Breakpoint => (SessionState::Idle, Ok(Outcome::Stop(StopReason::SwBreak))),
            _ => (SessionState::Disconnected, Err(AdapterError::UnexpectedReply)),
        },
        Pending::ReadReg => match reply {
            VmReply::ReadReg(val) => (SessionState::Idle, Ok(Outcome::RegValue(val))),
            VmReply::VmErr(e) => (SessionState::Idle, Err(AdapterError::Vm(e))),
            _ => (SessionState::Disconnected, Err(AdapterError::UnexpectedReply)),
        },
        Pending::ReadRegs => match reply {
            VmReply::ReadRegs(rf) => (SessionState::Idle, Ok(Outcome::Regs(rf))),
            VmReply::VmErr(e) => (SessionState::Idle, Err(AdapterError::Vm(e))),
            _ => (SessionState::Disconnected, Err(AdapterError::UnexpectedReply)),
        },
        Pending::WriteReg => match reply {
            VmReply::WriteReg => (SessionState::Idle, Ok(Outcome::Ack)),
            VmReply::VmErr(e) => (SessionState::Idle, Err(AdapterError::Vm(e))),
            _ => (SessionState::Disconnected, Err(AdapterError::UnexpectedReply)),
        },
        Pending::WriteRegs => match reply {
            VmReply::WriteRegs => (SessionState::Idle, Ok(Outcome::Ack)),
            VmReply::VmErr(e) => (SessionState::Idle, Err(AdapterError::Vm(e))),
            _ => (SessionState::Disconnected, Err(AdapterError::UnexpectedReply)),
        },
        Pending::ReadMem(len) => match reply {
            VmReply::ReadMem(bytes) => if bytes@.len() == len as nat {
                (SessionState::Idle, Ok(Outcome::Bytes(bytes)))
            } else {
                (SessionState::Disconnected, Err(AdapterError::LengthMismatch))
            },
            VmReply::VmErr(e) => (SessionState::Idle, Err(AdapterError::Vm(e))),
            _ => (SessionState::Disconnected, Err(AdapterError::UnexpectedReply)),
        },
        Pending::WriteMem => match reply {
            VmReply::WriteMem => (SessionState::Idle, Ok(Outcome::Ack)),
            VmReply::VmErr(e) => (SessionState::Idle, Err(AdapterError::Vm(e))),
            _ => (SessionState::Disconnected, Err(AdapterError::UnexpectedReply)),
        },
        Pending::SetBrkpt => match reply {
            VmReply::SetBrkpt => (SessionState::Idle, Ok(Outcome::Ack)),
            VmReply::VmErr(e) => (SessionState::Idle, Err(AdapterError::Vm(e))),
            _ => (SessionState::Disconnected, Err(AdapterError::UnexpectedReply)),
        },
        Pending::RemoveBrkpt => match reply {
            VmReply::RemoveBrkpt => (SessionState::Idle, Ok(Outcome::Ack)),
            VmReply::VmErr(e) => (SessionState::Idle, Err(AdapterError::Vm(e))),
            _ => (SessionState::Disconnected, Err(AdapterError::UnexpectedReply)),
        },
    }
}

/// The pending record a request leaves behind, computed at run time.
pub fn request_pending(req: &VmRequest) -> (p: Pending)
    ensures
        p == pending_of(*req),
{
    match req {
        VmRequest::Continue => Pending::Continue,
        VmRequest::Step => Pending::Step,
        VmRequest::ReadReg(_) => Pending::ReadReg,
        VmRequest::ReadRegs => Pending::ReadRegs,
        VmRequest::WriteReg(_, _) => Pending::WriteReg,
        VmRequest::WriteRegs(_) => Pending::WriteRegs,
        VmRequest::ReadMem(_, len) => Pending::ReadMem(*len),
        VmRequest::WriteMem(_, _, _) => Pending::WriteMem,
        VmRequest::SetBrkpt(_) => Pending::SetBrkpt,
        VmRequest::RemoveBrkpt(_) => Pending::RemoveBrkpt,
    }
}

/// One debugging session's protocol state.
pub struct Session {
    state: SessionState,
}

impl View for Session {
    type V = SessionState;

    closed spec fn view(&self) -> SessionState {
        self.state
    }
}

impl Session {
    /// A fresh session: idle, no outstanding request.
    pub fn new() -> (s: Session)
        ensures
            s@ == SessionState::Idle,
    {
        Session { state: SessionState::Idle }
    }

    /// The current protocol state.
    pub fn current(&self) -> (st: SessionState)
        ensures
            st == self@,
    {
        self.state
    }

    /// Whether a request may begin now.
    pub fn is_idle(&self) -> (r: bool)
        ensures
            r == (self@ == SessionState::Idle),
    {
        match self.state {
            SessionState::Idle => true,
            _ => false,
        }
    }

    /// Record that a request is being sent. Only an idle session may begin
    /// one: a second request before the first's reply has been consumed is
    /// refused, and a disconnected session refuses everything.
    pub fn begin_request(&mut self, req: &VmRequest) -> (r: Result<(), AdapterError>)
        ensures
            old(self)@ == SessionState::Idle ==> r == Ok::<(), AdapterError>(()) && final(self)@
                == SessionState::Awaiting(pending_of(*req)),
            (old(self)@ matches SessionState::Awaiting(_)) ==> r == Err::<(), AdapterError>(
                AdapterError::RequestOutstanding,
            ) && final(self)@ == old(self)@,
            old(self)@ == SessionState::Disconnected ==> r == Err::<(), AdapterError>(
                AdapterError::ChannelClosed,
            ) && final(self)@ == old(self)@,
    {
        match self.state {
            SessionState::Idle => {
                self.state = SessionState::Awaiting(request_pending(req));
                Ok(())
            },
            SessionState::Awaiting(_) => Err(AdapterError::RequestOutstanding),
            SessionState::Disconnected => Err(AdapterError::ChannelClosed),
        }
    }

    /// Record that the transport or a channel leg failed: the session is
    /// torn down and every further operation is refused.
    pub fn disconnect(&mut self)
        ensures
            final(self)@ == SessionState::Disconnected,
    {
        self.state = SessionState::Disconnected;
    }

    /// Consume a reply for the outstanding request, resolving it to an
    /// outcome or error exactly as `reply_step` states. A reply with no
    /// request outstanding is itself a protocol-invariant violation.
    pub fn process_reply(&mut self, reply: VmReply) -> (r: Result<Outcome, AdapterError>)
        ensures
            (old(self)@ matches SessionState::Awaiting(p) ==> final(self)@ == reply_step(p, reply).0
                && r == reply_step(p, reply).1),
            old(self)@ == SessionState::Idle ==> final(self)@ == SessionState::Disconnected && r
                == Err::<Outcome, AdapterError>(AdapterError::UnexpectedReply),
            old(self)@ == SessionState::Disconnected ==> final(self)@ == old(self)@ && r == Err::<
                Outcome,
                AdapterError,
            >(AdapterError::ChannelClosed),
    {
        let p = match self.state {
            SessionState::Idle => {
                self.state = SessionState::Disconnected;
                return Err(AdapterError::UnexpectedReply);
            },
            SessionState::Disconnected => {
                return Err(AdapterError::ChannelClosed);
            },
            SessionState::Awaiting(p) => p,
        };
        match (p, reply) {
            (Pending::Step, VmReply::DoneStep) => {
                self.state = SessionState::Idle;
                Ok(Outcome::Stop(StopReason::DoneStep))
            },
            (Pending::Step, VmReply::Halted(code)) => {
                self.state = SessionState::Idle;
                Ok(Outcome::Stop(StopReason::Exited(code)))
            },
            (Pending::Continue, VmReply::Halted(code)) => {
                self.state = SessionState::Idle;
                Ok(Outcome::Stop(StopReason::Exited(code)))
            },
            (Pending::Continue, VmReply::Breakpoint) => {
                self.state = SessionState::Idle;
                Ok(Outcome::Stop(StopReason::SwBreak))
            },
            (Pending::ReadReg, VmReply::ReadReg(val)) => {
                self.state = SessionState::Idle;
                Ok(Outcome::RegValue(val))
            },
            (Pending::ReadRegs, VmReply::ReadRegs(rf)) => {
                self.state = SessionState::Idle;
                Ok(Outcome::Regs(rf))
            },
            (Pending::WriteReg, VmReply::WriteReg) => {
                self.state = SessionState::Idle;
                Ok(Outcome::Ack)
            },
            (Pending::WriteRegs, VmReply::WriteRegs) => {
                self.state = SessionState::Idle;
                Ok(Outcome::Ack)
            },
            (Pending::ReadMem(len), VmReply::ReadMem(bytes)) => {
                if bytes.len() as u64 == len {
                    self.state = SessionState::Idle;
                    Ok(Outcome::Bytes(bytes))
                } else {
                    self.state = SessionState::Disconnected;
                    Err(AdapterError::LengthMismatch)
                }
            },
            (Pending::WriteMem, VmReply::WriteMem) => {
                self.state = SessionState::Idle;
                Ok(Outcome::Ack)
            },
            (Pending::SetBrkpt, VmReply::SetBrkpt) => {
                self.state = SessionState::Idle;
                Ok(Outcome::Ack)
            },
            (Pending::RemoveBrkpt, VmReply::RemoveBrkpt) => {
                self.state = SessionState::Idle;
                Ok(Outcome::Ack)
            },
            (Pending::Step, _) | (Pending::Continue, _) => {
                self.state = SessionState::Disconnected;
                Err(AdapterError::UnexpectedReply)
            },
            (_, VmReply::VmErr(e)) => {
                self.state = SessionState::Idle;
                Err(AdapterError::Vm(e))
            },
            _ => {
                self.state = SessionState::Disconnected;
                Err(AdapterError::UnexpectedReply)
            },
        }
    }
}

/// One observable protocol event at the adapter/VM boundary: a request
/// beginning, or a reply being consumed.
pub enum SessionEvent {
    Begin(VmRequest),
    Reply(VmReply),
}

/// Whether the state machine permits an event in a state: a request may
/// begin only when idle, and a reply is consumed only while one request is
/// outstanding.
pub open spec fn event_allowed(st: SessionState, ev: SessionEvent) -> bool {
    match ev {
        SessionEvent::Begin(_) => st == SessionState::Idle,
        SessionEvent::Reply(_) => st matches SessionState::Awaiting(_),
    }
}

/// The state after an event.
pub open spec fn event_next(st: SessionState, ev: SessionEvent) -> SessionState {
    match ev {
        SessionEvent::Begin(req) => SessionState::Awaiting(pending_of(req)),
        SessionEvent::Reply(reply) => match st {
            SessionState::Awaiting(p) => reply_step(p, reply).0,
            _ => st,
        },
    }
}

/// Whether a whole event sequence is permitted, front first.
pub open spec fn trace_accepted(st: SessionState, events: Seq<SessionEvent>) -> bool
    decreases events.len(),
{
    events.len() == 0 || (event_allowed(st, events[0]) && trace_accepted(
        event_next(st, events[0]),
        events.drop_first(),
    ))
}

/// Strict request/reply alternation: in any event sequence the state
/// machine permits, a request is never followed immediately by a second
/// request — the first's reply must be consumed in between.
pub proof fn lemma_strict_alternation(st: SessionState, events: Seq<SessionEvent>, i: int)
    requires
        trace_accepted(st, events),
        0 <= i,
        i + 1 < events.len(),
        events[i] is Begin,
    ensures
        events[i + 1] is Reply,
    decreases i,
{
    if i == 0 {
        assert(trace_accepted(event_next(st, events[0]), events.drop_first()));
        assert(event_allowed(event_next(st, events[0]), events.drop_first()[0]));
        assert(events.drop_first()[0] == events[1]);
    } else {
        lemma_strict_alternation(event_next(st, events[0]), events.drop_first(), i - 1);
        assert(events.drop_first()[i - 1] == events[i]);
        assert(events.drop_first()[i] == events[i + 1]);
    }
}

} // verus!
