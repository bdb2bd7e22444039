//! The two commands the client can ask of the API, and their wire names.

use vstd::prelude::*;

verus! {

/// Which view a request asks for.
#[derive(Clone, Copy, Debug, PartialEq, Eq, Structural)]
pub enum RequestCmd {
    GetActivity,
    GetHistory,
}

impl RequestCmd {
    /// The command's name in the request's query string.
    pub fn as_str(&self) -> (r: &'static str)
        ensures
            *self is GetActivity ==> r@ == "get_activity"@,
            *self is GetHistory ==> r@ == "get_history"@,
    {
        match self {
            RequestCmd::GetActivity => "get_activity",
            RequestCmd::GetHistory => "get_history",
        }
    }
}

} // verus!
