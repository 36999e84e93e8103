//! The adapter's error taxonomy.
//!
//! Channel failures and protocol-invariant violations are fatal to the
//! session; input-validation failures and VM-reported logical errors are
//! recoverable (the session continues and the error is reported to the
//! debugger client).

use vstd::prelude::*;

verus! {

#[derive(Debug, Clone, Copy, PartialEq, Eq)]
pub enum AdapterError {
    /// A channel leg is closed (peer thread terminated). Fatal.
    ChannelClosed,
    /// The reply shape does not match the outstanding request. Fatal.
    UnexpectedReply,
    /// A memory-read reply carried a payload of the wrong length. Fatal.
    LengthMismatch,
    /// A second request was attempted before the first's reply was consumed. Fatal.
    RequestOutstanding,
    /// A reply was polled for while no request was outstanding. Fatal.
    NoPendingReply,
    /// The requested resume action (resume with signal) is not supported. Recoverable.
    UnsupportedResumeAction,
    /// Serialized register data of the wrong length. Recoverable.
    MalformedRegisterData,
    /// A logical error reported by the VM (e.g. invalid address). Recoverable.
    Vm(&'static str),
}

pub open spec fn spec_is_fatal(e: AdapterError) -> bool {
    match e {
        AdapterError::ChannelClosed => true,
        AdapterError::UnexpectedReply => true,
        AdapterError::LengthMismatch => true,
        AdapterError::RequestOutstanding => true,
        AdapterError::NoPendingReply => true,
        AdapterError::UnsupportedResumeAction => false,
        AdapterError::MalformedRegisterData => false,
        AdapterError::Vm(_) => false,
    }
}

impl AdapterError {
    /// A fatal error tears the session down; a recoverable one is reported
    /// to the client and the session continues.
    pub fn is_fatal(&self) -> (r: bool)
        ensures
            r == spec_is_fatal(*self),
    {
        match self {
            AdapterError::ChannelClosed => true,
            AdapterError::UnexpectedReply => true,
            AdapterError::LengthMismatch => true,
            AdapterError::RequestOutstanding => true,
            AdapterError::NoPendingReply => true,
            AdapterError::UnsupportedResumeAction => false,
            AdapterError::MalformedRegisterData => false,
            AdapterError::Vm(_) => false,
        }
    }
}

} // verus!
