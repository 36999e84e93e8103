use gdb_stub::errors::AdapterError;
use gdb_stub::protocol::{VmReply, VmRequest};
use gdb_stub::regs::BpfRegs;
use gdb_stub::session::{Outcome, Session, SessionState, StopReason};

#[test]
fn fresh_session_is_idle() {
    let s = Session::new();
    assert!(s.is_idle());
    assert_eq!(s.current(), SessionState::Idle);
}

#[test]
fn second_request_before_reply_is_refused() {
    let mut s = Session::new();
    assert!(s.begin_request(&VmRequest::Step).is_ok());
    let second = s.begin_request(&VmRequest::ReadRegs);
    assert_eq!(second, Err(AdapterError::RequestOutstanding));
    assert!(AdapterError::RequestOutstanding.is_fatal());
    // Consuming the reply re-enables requests: strict alternation.
    assert!(s.process_reply(VmReply::DoneStep).is_ok());
    assert!(s.is_idle());
    assert!(s.begin_request(&VmRequest::ReadRegs).is_ok());
}

#[test]
fn reply_with_no_request_outstanding_is_fatal() {
    let mut s = Session::new();
    let r = s.process_reply(VmReply::DoneStep);
    assert_eq!(r, Err(AdapterError::UnexpectedReply));
    assert_eq!(s.current(), SessionState::Disconnected);
}

#[test]
fn disconnected_session_refuses_everything() {
    let mut s = Session::new();
    s.disconnect();
    assert_eq!(
        s.begin_request(&VmRequest::Step),
        Err(AdapterError::ChannelClosed)
    );
    assert_eq!(
        s.process_reply(VmReply::DoneStep),
        Err(AdapterError::ChannelClosed)
    );
}

#[test]
fn step_maps_done_and_halted() {
    let mut s = Session::new();
    s.begin_request(&VmRequest::Step).unwrap();
    assert_eq!(
        s.process_reply(VmReply::DoneStep),
        Ok(Outcome::Stop(StopReason::DoneStep))
    );
    s.begin_request(&VmRequest::Step).unwrap();
    assert_eq!(
        s.process_reply(VmReply::Halted(5)),
        Ok(Outcome::Stop(StopReason::Exited(5)))
    );
}

#[test]
fn step_rejects_other_replies() {
    let mut s = Session::new();
    s.begin_request(&VmRequest::Step).unwrap();
    let r = s.process_reply(VmReply::Breakpoint);
    assert_eq!(r, Err(AdapterError::UnexpectedReply));
    assert_eq!(s.current(), SessionState::Disconnected);
}

#[test]
fn continue_maps_halt_and_breakpoint() {
    let mut s = Session::new();
    s.begin_request(&VmRequest::Continue).unwrap();
    assert_eq!(
        s.process_reply(VmReply::Breakpoint),
        Ok(Outcome::Stop(StopReason::SwBreak))
    );
    s.begin_request(&VmRequest::Continue).unwrap();
    assert_eq!(
        s.process_reply(VmReply::Halted(0)),
        Ok(Outcome::Stop(StopReason::Exited(0)))
    );
}

#[test]
fn unexpected_reply_shape_is_never_coerced() {
    let mut s = Session::new();
    s.begin_request(&VmRequest::ReadRegs).unwrap();
    let r = s.process_reply(VmReply::WriteRegs);
    assert_eq!(r, Err(AdapterError::UnexpectedReply));
    assert!(AdapterError::UnexpectedReply.is_fatal());
    assert_eq!(s.current(), SessionState::Disconnected);
}

#[test]
fn read_mem_returns_exactly_the_requested_length() {
    let mut s = Session::new();
    s.begin_request(&VmRequest::ReadMem(0x100, 4)).unwrap();
    let r = s.process_reply(VmReply::ReadMem(vec![1, 2, 3, 4]));
    assert_eq!(r, Ok(Outcome::Bytes(vec![1, 2, 3, 4])));
    assert!(s.is_idle());
}

#[test]
fn read_mem_length_mismatch_is_fatal() {
    let mut s = Session::new();
    s.begin_request(&VmRequest::ReadMem(0x100, 4)).unwrap();
    let r = s.process_reply(VmReply::ReadMem(vec![1, 2, 3]));
    assert_eq!(r, Err(AdapterError::LengthMismatch));
    assert!(AdapterError::LengthMismatch.is_fatal());
    assert_eq!(s.current(), SessionState::Disconnected);
}

#[test]
fn vm_logical_error_is_recoverable() {
    let mut s = Session::new();
    s.begin_request(&VmRequest::SetBrkpt(0x1000)).unwrap();
    let r = s.process_reply(VmReply::VmErr("invalid address"));
    assert_eq!(r, Err(AdapterError::Vm("invalid address")));
    assert!(!AdapterError::Vm("invalid address").is_fatal());
    // The session continues.
    assert!(s.is_idle());
    assert!(s.begin_request(&VmRequest::SetBrkpt(0x2000)).is_ok());
}

#[test]
fn data_replies_resolve_to_their_payloads() {
    let mut s = Session::new();
    let rf = BpfRegs {
        regs: [9; 11],
        pc: 0x1234,
    };
    s.begin_request(&VmRequest::ReadRegs).unwrap();
    assert_eq!(s.process_reply(VmReply::ReadRegs(rf)), Ok(Outcome::Regs(rf)));
    s.begin_request(&VmRequest::ReadReg(3)).unwrap();
    assert_eq!(s.process_reply(VmReply::ReadReg(42)), Ok(Outcome::RegValue(42)));
    s.begin_request(&VmRequest::WriteReg(3, 42)).unwrap();
    assert_eq!(s.process_reply(VmReply::WriteReg), Ok(Outcome::Ack));
    s.begin_request(&VmRequest::WriteRegs(rf)).unwrap();
    assert_eq!(s.process_reply(VmReply::WriteRegs), Ok(Outcome::Ack));
    s.begin_request(&VmRequest::WriteMem(0, 2, vec![1, 2])).unwrap();
    assert_eq!(s.process_reply(VmReply::WriteMem), Ok(Outcome::Ack));
    s.begin_request(&VmRequest::RemoveBrkpt(8)).unwrap();
    assert_eq!(s.process_reply(VmReply::RemoveBrkpt), Ok(Outcome::Ack));
}

#[test]
fn error_taxonomy_fatality() {
    assert!(AdapterError::ChannelClosed.is_fatal());
    assert!(AdapterError::UnexpectedReply.is_fatal());
    assert!(AdapterError::LengthMismatch.is_fatal());
    assert!(AdapterError::RequestOutstanding.is_fatal());
    assert!(AdapterError::NoPendingReply.is_fatal());
    assert!(!AdapterError::UnsupportedResumeAction.is_fatal());
    assert!(!AdapterError::MalformedRegisterData.is_fatal());
    assert!(!AdapterError::Vm("x").is_fatal());
}
