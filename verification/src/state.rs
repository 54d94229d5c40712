//! The finite set of lifecycle states and the mapping from the runtime's
//! state strings onto it.

use vstd::prelude::*;
use crate::errors::ArunError;

verus! {

/// The lifecycle states a managed workload can be in.
///
/// `Restarting` and `Dead` are observed only: the controller never chooses
/// to transition a workload into them, it only reacts to seeing them.
#[derive(Clone, Copy, Debug, PartialEq, Eq, Structural)]
pub enum RunnerState {
    NonExist,
    Created,
    Running,
    Restarting,
    Exited,
    Paused,
    Dead,
}

/// The state named by a runtime status string, or `None` for a string the
/// controller does not recognize.
pub open spec fn status_to_state(s: Seq<char>) -> Option<RunnerState> {
    if s == "created"@ {
        Some(RunnerState::Created)
    } else if s == "running"@ {
        Some(RunnerState::Running)
    } else if s == "restarting"@ {
        Some(RunnerState::Restarting)
    } else if s == "exited"@ {
        Some(RunnerState::Exited)
    } else if s == "paused"@ {
        Some(RunnerState::Paused)
    } else if s == "dead"@ {
        Some(RunnerState::Dead)
    } else if s == "nonExist"@ {
        Some(RunnerState::NonExist)
    } else {
        None
    }
}

impl RunnerState {
    /// Maps a runtime status string onto a state; any unrecognized string is
    /// rejected loudly with `Unknown`.
    pub fn from_status(s: &str) -> (r: Result<RunnerState, ArunError>)
        ensures
            r == match status_to_state(s@) {
                Some(st) => Result::<RunnerState, ArunError>::Ok(st),
                None => Result::<RunnerState, ArunError>::Err(ArunError::Unknown),
            },
    {
        let owned = s.to_owned();
        if owned == String::from_str("created") {
            Ok(RunnerState::Created)
        } else if owned == String::from_str("running") {
            Ok(RunnerState::Running)
        } else if owned == String::from_str("restarting") {
            Ok(RunnerState::Restarting)
        } else if owned == String::from_str("exited") {
            Ok(RunnerState::Exited)
        } else if owned == String::from_str("paused") {
            Ok(RunnerState::Paused)
        } else if owned == String::from_str("dead") {
            Ok(RunnerState::Dead)
        } else if owned == String::from_str("nonExist") {
            Ok(RunnerState::NonExist)
        } else {
            Err(ArunError::Unknown)
        }
    }

    /// The display name of the state.
    pub fn name(&self) -> (r: String)
        ensures
            *self is NonExist ==> r@ == "NonExist"@,
            *self is Created ==> r@ == "Created"@,
            *self is Running ==> r@ == "Running"@,
            *self is Restarting ==> r@ == "Restarting"@,
            *self is Exited ==> r@ == "Exited"@,
            *self is Paused ==> r@ == "Paused"@,
            *self is Dead ==> r@ == "Dead"@,
    {
        match self {
            RunnerState::NonExist => String::from_str("NonExist"),
            RunnerState::Created => String::from_str("Created"),
            RunnerState::Running => String::from_str("Running"),
            RunnerState::Restarting => String::from_str("Restarting"),
            RunnerState::Exited => String::from_str("Exited"),
            RunnerState::Paused => String::from_str("Paused"),
            RunnerState::Dead => String::from_str("Dead"),
        }
    }
}

} // verus!
