use gdb_stub::errors::AdapterError;
use gdb_stub::regs::{BpfBreakpointKind, BpfRegId};
use gdb_stub::server::{DebugServer, ResumeAction};

#[test]
fn section_offsets_are_the_fixed_trivial_answer() {
    let (server, _reply_tx, _req_rx) = DebugServer::new();
    let offsets = server.get_section_offsets();
    assert_eq!(offsets.text, 0);
    assert_eq!(offsets.data, 0);
    assert_eq!(offsets.bss, None);
}

#[test]
fn resume_with_signal_is_rejected_without_channel_traffic() {
    let (mut server, _reply_tx, req_rx) = DebugServer::new();
    let r = server.resume(ResumeAction::StepWithSignal(9));
    assert_eq!(r, Err(AdapterError::UnsupportedResumeAction));
    assert!(!AdapterError::UnsupportedResumeAction.is_fatal());
    let r = server.resume(ResumeAction::ContinueWithSignal(2));
    assert_eq!(r, Err(AdapterError::UnsupportedResumeAction));
    // Nothing was sent to the VM side.
    assert!(req_rx.try_recv().is_err());
}

#[test]
fn polling_without_an_outstanding_continue_is_refused() {
    let (mut server, _reply_tx, _req_rx) = DebugServer::new();
    assert_eq!(server.poll_continue(), Err(AdapterError::NoPendingReply));
}

#[test]
fn malformed_register_value_is_rejected_before_sending() {
    let (mut server, _reply_tx, req_rx) = DebugServer::new();
    let (rid, _) = BpfRegId::from_raw_id(3).unwrap();
    let r = server.write_register(rid, &[1, 2, 3]);
    assert_eq!(r, Err(AdapterError::MalformedRegisterData));
    assert!(req_rx.try_recv().is_err());
}

#[test]
fn closed_request_channel_is_fatal() {
    let (mut server, _reply_tx, req_rx) = DebugServer::new();
    drop(req_rx);
    let r = server.add_sw_breakpoint(0x1000, BpfBreakpointKind::BpfBpKindBrkpt);
    assert_eq!(r, Err(AdapterError::ChannelClosed));
    assert!(AdapterError::ChannelClosed.is_fatal());
    // The session is torn down: every further operation is refused.
    let r = server.remove_sw_breakpoint(0x1000, BpfBreakpointKind::BpfBpKindBrkpt);
    assert_eq!(r, Err(AdapterError::ChannelClosed));
    let r = server.read_registers();
    assert_eq!(r, Err(AdapterError::ChannelClosed));
}
