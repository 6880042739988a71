//! Response codes and the error taxonomy of the portal.
//!
//! Every method call of the portal answers with one of three numeric
//! response codes.  Errors raised inside the service are classified and
//! then mapped onto those codes; the mapping is part of the service's
//! contract and is stated here once, so that every caller of the library
//! agrees on how a failure is surfaced.

use vstd::prelude::*;

verus! {

/// Response code returned by every portal method call.
#[derive(Clone, Copy, Debug, PartialEq, Eq, Structural)]
pub enum PortalResponse {
    Success,
    Cancelled,
    Other,
}

impl PortalResponse {
    /// The numeric code sent on the wire: success 0, cancelled 1, other 2.
    pub open spec fn code_spec(self) -> u32 {
        match self {
            PortalResponse::Success => 0u32,
            PortalResponse::Cancelled => 1u32,
            PortalResponse::Other => 2u32,
        }
    }

    pub fn code(&self) -> (r: u32)
        ensures
            r == self.code_spec(),
    {
        match self {
            PortalResponse::Success => 0,
            PortalResponse::Cancelled => 1,
            PortalResponse::Other => 2,
        }
    }
}

/// Classification of every failure the mediation layer can meet.
#[derive(Clone, Copy, Debug, PartialEq, Eq, Structural)]
pub enum PortalError {
    /// The inter-process connection to the caller was lost.
    Transport,
    /// Connecting to, binding, or capturing from the compositor failed.
    Compositor,
    /// Setting up a streaming endpoint failed.
    Negotiation,
    /// An operation was invoked in the wrong session or request state.
    State,
    /// The caller cancelled, or no capturable source matched the request.
    UserCancelled,
}

impl PortalError {
    /// How each error class is surfaced to the caller: an explicit
    /// cancellation (or an empty source match) answers `Cancelled`;
    /// every internal fault, including a state error, answers `Other`.
    pub open spec fn response_spec(self) -> PortalResponse {
        match self {
            PortalError::UserCancelled => PortalResponse::Cancelled,
            PortalError::Transport => PortalResponse::Other,
            PortalError::Compositor => PortalResponse::Other,
            PortalError::Negotiation => PortalResponse::Other,
            PortalError::State => PortalResponse::Other,
        }
    }

    pub fn response(&self) -> (r: PortalResponse)
        ensures
            r == self.response_spec(),
    {
        match self {
            PortalError::UserCancelled => PortalResponse::Cancelled,
            PortalError::Transport => PortalResponse::Other,
            PortalError::Compositor => PortalResponse::Other,
            PortalError::Negotiation => PortalResponse::Other,
            PortalError::State => PortalResponse::Other,
        }
    }
}

} // verus!
