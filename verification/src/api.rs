//! Typed records for the remote provider's long-running actions, and the
//! validation that turns raw response fields into them.
//!
//! The network and JSON layers live outside the library; they hand in plain
//! values (optional integers and strings), and the functions here decide
//! whether those values form a well-shaped action or response.

use vstd::prelude::*;

use crate::error::HbpError;
use crate::error::HetznerError;

verus! {

/// The state of a remote long-running operation. `Success` and `Error` are
/// terminal; no transition leaves them.
#[derive(Clone, Copy, Debug, PartialEq, Eq, Structural)]
pub enum ActionStatus {
    Pending,
    Running,
    Success,
    Error,
}

/// A snapshot of a remote long-running operation. Mutated only by re-fetching
/// from the remote source of truth, never computed locally.
#[derive(Clone, Debug)]
pub struct Action {
    pub id: u64,
    pub command: String,
    pub status: ActionStatus,
    pub progress: u8,
    pub error: Option<HetznerError>,
}

impl Action {
    /// Internal invariant: progress is a percentage.
    pub open spec fn wf(self) -> bool {
        self.progress <= 100
    }

    /// A status from which no further transition occurs.
    pub open spec fn spec_terminal(self) -> bool {
        self.status is Success || self.status is Error
    }

    pub fn is_terminal(&self) -> (r: bool)
        ensures
            r == self.spec_terminal(),
    {
        match self.status {
            ActionStatus::Success => true,
            ActionStatus::Error => true,
            _ => false,
        }
    }
}

/// The status the remote protocol denotes by the given characters, if any.
pub open spec fn spec_status_of(s: Seq<char>) -> Option<ActionStatus> {
    if s == "pending"@ {
        Some(ActionStatus::Pending)
    } else if s == "running"@ {
        Some(ActionStatus::Running)
    } else if s == "success"@ {
        Some(ActionStatus::Success)
    } else if s == "error"@ {
        Some(ActionStatus::Error)
    } else {
        None
    }
}

/// Parses the protocol's status strings into the enumerated state.
pub fn parse_status(s: &String) -> (r: Option<ActionStatus>)
    ensures
        r == spec_status_of(s@),
{
    if *s == "pending".to_owned() {
        Some(ActionStatus::Pending)
    } else if *s == "running".to_owned() {
        Some(ActionStatus::Running)
    } else if *s == "success".to_owned() {
        Some(ActionStatus::Success)
    } else if *s == "error".to_owned() {
        Some(ActionStatus::Error)
    } else {
        None
    }
}

/// Whether raw response fields form a well-shaped action record.
pub open spec fn parts_ok(
    id: Option<u64>,
    command: Option<String>,
    status: Option<String>,
    progress: Option<u64>,
) -> bool {
    &&& id is Some
    &&& command is Some
    &&& status is Some
    &&& spec_status_of(status->0@) is Some
    &&& progress is Some
    &&& progress->0 <= 100
}

/// Builds a typed `Action` from the raw fields of a provider response.
/// Every field is required; the status must be one of the protocol's four
/// states and the progress a percentage — anything else is a shape error.
pub fn action_from_parts(
    id: Option<u64>,
    command: Option<String>,
    status: Option<String>,
    progress: Option<u64>,
    error: Option<HetznerError>,
) -> (r: Result<Action, HbpError>)
    ensures
        r is Ok <==> parts_ok(id, command, status, progress),
        r is Ok ==> {
            let a = r->Ok_0;
            &&& a.wf()
            &&& a.id == id->0
            &&& a.command == command->0
            &&& Some(a.status) == spec_status_of(status->0@)
            &&& a.progress == progress->0
            &&& a.error == error
        },
        r is Err ==> r->Err_0 is ResponseShapeError,
{
    let id = match id {
        Some(v) => v,
        None => {
            return Err(HbpError::ResponseShapeError("action.id missing".to_owned()));
        },
    };
    let command = match command {
        Some(v) => v,
        None => {
            return Err(HbpError::ResponseShapeError("action.command missing".to_owned()));
        },
    };
    let status = match status {
        Some(v) => v,
        None => {
            return Err(HbpError::ResponseShapeError("action.status missing".to_owned()));
        },
    };
    let status = match parse_status(&status) {
        Some(v) => v,
        None => {
            return Err(HbpError::ResponseShapeError("action.status unknown".to_owned()));
        },
    };
    let progress = match progress {
        Some(v) => v,
        None => {
            return Err(HbpError::ResponseShapeError("action.progress missing".to_owned()));
        },
    };
    if progress > 100 {
        return Err(HbpError::ResponseShapeError("action.progress out of range".to_owned()));
    }
    Ok(Action { id, command, status, progress: progress as u8, error })
}

/// Outcome of a snapshot-creation response: the created image's identity and
/// the action to poll. Both are required; a missing one is a shape error.
pub fn snapshot_response(image_id: Option<u64>, action: Option<Action>) -> (r: Result<
    (u64, Action),
    HbpError,
>)
    ensures
        r is Ok <==> image_id is Some && action is Some,
        r is Ok ==> r->Ok_0.0 == image_id->0 && r->Ok_0.1 == action->0,
        r is Err ==> r->Err_0 is ResponseShapeError,
{
    match (image_id, action) {
        (Some(id), Some(a)) => Ok((id, a)),
        (None, _) => Err(HbpError::ResponseShapeError("image.id missing".to_owned())),
        (_, None) => Err(HbpError::ResponseShapeError("action missing".to_owned())),
    }
}

/// Outcome of an image-export response: the download location and the action
/// to poll. Both are required; a missing one is a shape error.
pub fn export_response(url: Option<String>, action: Option<Action>) -> (r: Result<
    (String, Action),
    HbpError,
>)
    ensures
        r is Ok <==> url is Some && action is Some,
        r is Ok ==> r->Ok_0.0 == url->0 && r->Ok_0.1 == action->0,
        r is Err ==> r->Err_0 is ResponseShapeError,
{
    match (url, action) {
        (Some(u), Some(a)) => Ok((u, a)),
        (None, _) => Err(HbpError::ResponseShapeError("image.url missing".to_owned())),
        (_, None) => Err(HbpError::ResponseShapeError("action missing".to_owned())),
    }
}

} // verus!
