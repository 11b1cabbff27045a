//! The error taxonomy of the harness.
//!
//! Pool exhaustion and an empty enumeration are distinct conditions; a
//! failure of the radio stack or of the RPC transport is wrapped, never
//! interpreted; a malformed request is rejected as an invalid argument;
//! and an expired discovery window is a normal terminal outcome, not a
//! crash.

use vstd::prelude::*;

verus! {

/// What can go wrong in a test run.
#[derive(Clone, Debug, PartialEq)]
pub enum TestError {
    /// Every enumerated adapter is already leased.
    NoFreeAdapter,
    /// The enumeration returned zero adapters.
    NoAdaptersPresent,
    /// A wrapped failure of the radio stack: a short message and a
    /// debug-level detail.
    CapabilityError { message: String, detail: String },
    /// A wrapped failure of the RPC transport.
    RpcTransportError { message: String, detail: String },
    /// A caller-supplied value that the harness cannot serve.
    InvalidArgument { message: String },
    /// The discovery window elapsed without a match.
    Timeout,
}

/// The error carried over the RPC connection: a human-readable message
/// plus a debug-detail string.
#[derive(Clone, Debug, PartialEq)]
pub struct GenericRpcError {
    pub msg: String,
    pub debug_msg: String,
}

impl GenericRpcError {
    pub fn new(msg: String, debug_msg: String) -> (r: GenericRpcError)
        ensures
            r.msg == msg,
            r.debug_msg == debug_msg,
    {
        GenericRpcError { msg, debug_msg }
    }

    /// The human-readable message, for reporting.
    pub fn message(&self) -> (r: String)
        ensures
            r@ == self.msg@,
    {
        self.msg.clone()
    }
}

/// The short message under which each error condition is reported.
pub open spec fn spec_error_message(e: TestError) -> Seq<char> {
    match e {
        TestError::NoFreeAdapter => "no free adapters found"@,
        TestError::NoAdaptersPresent => "no adapters present"@,
        TestError::CapabilityError { message, .. } => message@,
        TestError::RpcTransportError { message, .. } => message@,
        TestError::InvalidArgument { message } => message@,
        TestError::Timeout => "timeout reached"@,
    }
}

impl TestError {
    /// The condition as text, since the harness reports errors to the
    /// operator rather than interpreting them.
    pub fn message(&self) -> (r: String)
        ensures
            r@ == spec_error_message(*self),
    {
        match self {
            TestError::NoFreeAdapter => String::from_str("no free adapters found"),
            TestError::NoAdaptersPresent => String::from_str("no adapters present"),
            TestError::CapabilityError { message, .. } => message.clone(),
            TestError::RpcTransportError { message, .. } => message.clone(),
            TestError::InvalidArgument { message } => message.clone(),
            TestError::Timeout => String::from_str("timeout reached"),
        }
    }

    /// Wraps the condition for the RPC wire, keeping the message as both
    /// the short and the debug text.
    pub fn to_rpc_error(&self) -> (r: GenericRpcError)
        ensures
            r.msg@ == spec_error_message(*self),
            r.debug_msg@ == spec_error_message(*self),
    {
        let m = self.message();
        let d = self.message();
        GenericRpcError { msg: m, debug_msg: d }
    }
}

} // verus!
