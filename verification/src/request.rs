//! The lifecycle status of a capture request.

use vstd::prelude::*;

use crate::strutil::spec_decimal;

verus! {

/// Status of a capture request.
#[derive(Debug, Clone, Copy, PartialEq, Eq, Structural)]
pub enum RequestStatus {
    /// The request is ready to be queued.
    Pending,
    /// The request was executed successfully.
    Complete,
    /// The request was cancelled, most likely by a stop of the camera.
    Cancelled,
}

impl RequestStatus {
    /// The status a native code denotes, in the runtime's declared order.
    pub open spec fn spec_from_code(value: u32) -> Option<RequestStatus> {
        if value == 0 {
            Some(RequestStatus::Pending)
        } else if value == 1 {
            Some(RequestStatus::Complete)
        } else if value == 2 {
            Some(RequestStatus::Cancelled)
        } else {
            None
        }
    }

    pub fn try_from(value: u32) -> (r: Result<RequestStatus, String>)
        ensures
            match Self::spec_from_code(value) {
                Some(s) => r == Ok::<RequestStatus, String>(s),
                None => (r matches Err(e) && e@ == "Unknown request status: "@ + spec_decimal(
                    value as nat,
                )),
            },
    {
        if value == 0 {
            Ok(RequestStatus::Pending)
        } else if value == 1 {
            Ok(RequestStatus::Complete)
        } else if value == 2 {
            Ok(RequestStatus::Cancelled)
        } else {
            let mut msg = String::new();
            msg.append("Unknown request status: ");
            crate::strutil::push_decimal(&mut msg, value as usize);
            Err(msg)
        }
    }
}

} // verus!
