//! What can go wrong between the gateway and a credential store.

use vstd::prelude::*;

verus! {

/// What a credential store reports when it refuses a request.
#[derive(Debug, Clone, Copy, PartialEq, Eq, Structural)]
pub enum FaultKind {
    /// The store holds no record at the place that was asked for.
    NoEntry,
    /// Anything else: the store is locked, absent, or rejected the request.
    Other,
}

/// A refusal by a credential store, with the store's own description of it.
#[derive(Debug, PartialEq, Eq)]
pub struct StoreFault {
    pub kind: FaultKind,
    pub message: String,
}

/// A refusal with its description as a sequence of characters.
pub struct FaultView {
    pub kind: FaultKind,
    pub message: Seq<char>,
}

impl View for StoreFault {
    type V = FaultView;

    open spec fn view(&self) -> FaultView {
        FaultView { kind: self.kind, message: self.message@ }
    }
}

/// A failure of a gateway operation. Each variant carries the store's
/// description of the fault, unchanged.
#[derive(Debug, PartialEq, Eq)]
pub enum GatewayError {
    /// No handle could be obtained for the key.
    HandleCreationFailed(String),
    /// The store rejected the read, the write or the removal.
    OperationFailed(String),
}

/// A gateway failure with its message as a sequence of characters.
pub enum GatewayErrorView {
    HandleCreationFailed(Seq<char>),
    OperationFailed(Seq<char>),
}

impl View for GatewayError {
    type V = GatewayErrorView;

    open spec fn view(&self) -> GatewayErrorView {
        match self {
            GatewayError::HandleCreationFailed(message) => GatewayErrorView::HandleCreationFailed(
                message@,
            ),
            GatewayError::OperationFailed(message) => GatewayErrorView::OperationFailed(message@),
        }
    }
}

impl GatewayErrorView {
    /// The store's description of the fault, whichever step failed.
    pub open spec fn message(self) -> Seq<char> {
        match self {
            GatewayErrorView::HandleCreationFailed(message) => message,
            GatewayErrorView::OperationFailed(message) => message,
        }
    }
}

impl GatewayError {
    /// The store's description of the fault, as the caller is to see it.
    pub fn message(&self) -> (text: &str)
        ensures
            text@ == self@.message(),
    {
        match self {
            GatewayError::HandleCreationFailed(message) => message.as_str(),
            GatewayError::OperationFailed(message) => message.as_str(),
        }
    }

    /// Gives up the error for its message.
    pub fn into_message(self) -> (text: String)
        ensures
            text@ == self@.message(),
    {
        match self {
            GatewayError::HandleCreationFailed(message) => message,
            GatewayError::OperationFailed(message) => message,
        }
    }
}

} // verus!
