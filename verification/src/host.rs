//! The answers to the control requests that the host sends on the output
//! side of the HID interface.
//!
//! The keypad has no indicator lights and keeps no idle rate, so it acts on
//! none of these requests. It still answers each of them, so that the host's
//! driver is never left waiting: what the host sets is acknowledged and
//! dropped, what the host asks for is answered as not supported.

use vstd::prelude::*;

verus! {

/// The kind of report that a request names.
#[derive(Clone, Copy, PartialEq, Eq, Debug, Hash, Structural)]
pub enum ReportKind {
    Input,
    Output,
    Feature,
}

/// A control request of the host.
#[derive(Clone, Copy, PartialEq, Eq, Debug, Hash, Structural)]
pub enum HostRequest {
    /// GET_REPORT: the host asks for the report `id` of the given kind.
    GetReport { kind: ReportKind, id: u8 },
    /// SET_REPORT: the host sends `length` bytes as the report `id` of the
    /// given kind.
    SetReport { kind: ReportKind, id: u8, length: usize },
    /// GET_IDLE: the host asks for the idle rate of one report, or of all
    /// where `report` is `None`.
    GetIdle { report: Option<u8> },
    /// SET_IDLE: the host sets the idle rate of one report, or of all where
    /// `report` is `None`.
    SetIdle { report: Option<u8>, millis: u32 },
}

/// The answer to a control request.
#[derive(Clone, Copy, PartialEq, Eq, Debug, Hash, Structural)]
pub enum HostResponse {
    /// The request is acknowledged. Nothing is kept of what it carried.
    Accepted,
    /// The device has nothing to give for the request: the answer that the
    /// protocol has for what is not supported.
    NotSupported,
}

impl HostRequest {
    /// The answer that the request gets: what the host sets is accepted,
    /// what the host asks for is not supported, whatever the parameters.
    pub open spec fn answer(self) -> HostResponse {
        match self {
            HostRequest::SetReport { .. } | HostRequest::SetIdle { .. } => HostResponse::Accepted,
            HostRequest::GetReport { .. } | HostRequest::GetIdle { .. } => {
                HostResponse::NotSupported
            },
        }
    }
}

/// Answers a control request of the host.
///
/// Every request gets an answer, and the answer depends on the kind of
/// request alone: the keypad's state plays no part in it.
pub fn respond(request: &HostRequest) -> (response: HostResponse)
    ensures
        response == request.answer(),
{
    match request {
        HostRequest::GetReport { .. } => HostResponse::NotSupported,
        HostRequest::SetReport { .. } => HostResponse::Accepted,
        HostRequest::GetIdle { .. } => HostResponse::NotSupported,
        HostRequest::SetIdle { .. } => HostResponse::Accepted,
    }
}

} // verus!
