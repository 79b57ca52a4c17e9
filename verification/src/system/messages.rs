//! Messages exchanged with the user interface about start-up at login.

use vstd::prelude::*;

verus! {

/// Request: report whether the application starts at login.
pub struct GetAutoStartStatus;

/// Request: switch start-up at login on or off.
pub struct SetAutoStartStatus {
    pub enabled: bool,
}

/// Answer to both requests.
pub struct AutoStartStatusResult {
    pub enabled: bool,
    pub error_message: Option<String>,
}

/// The answer that an attempt on the operating system's start-up entry
/// deserves: the state it reported, or `false` together with its error.
pub open spec fn auto_start_answer(outcome: Result<bool, String>) -> AutoStartStatusResult {
    match outcome {
        Ok(state) => AutoStartStatusResult { enabled: state, error_message: None },
        Err(message) => AutoStartStatusResult { enabled: false, error_message: Some(message) },
    }
}

impl GetAutoStartStatus {
    /// Turns the outcome of reading the start-up entry into the answer for
    /// the user interface.
    pub fn handle(&self, outcome: Result<bool, String>) -> (response: AutoStartStatusResult)
        ensures
            response == auto_start_answer(outcome),
    {
        match outcome {
            Ok(state) => AutoStartStatusResult { enabled: state, error_message: None },
            Err(message) => AutoStartStatusResult { enabled: false, error_message: Some(message) },
        }
    }
}

impl SetAutoStartStatus {
    /// Turns the outcome of writing the start-up entry into the answer for
    /// the user interface.
    pub fn handle(&self, outcome: Result<bool, String>) -> (response: AutoStartStatusResult)
        ensures
            response == auto_start_answer(outcome),
    {
        match outcome {
            Ok(state) => AutoStartStatusResult { enabled: state, error_message: None },
            Err(message) => AutoStartStatusResult { enabled: false, error_message: Some(message) },
        }
    }
}

} // verus!
