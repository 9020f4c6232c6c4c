//! What the application is doing with the current request.

use vstd::prelude::*;

verus! {

#[derive(Clone, Copy, Debug, PartialEq, Eq, Structural)]
pub enum AppStatus {
    /// No request has been made yet.
    STARTUP,
    PROCESSING,
    DONE,
    ERROR,
}

impl Default for AppStatus {
    fn default() -> (s: Self)
        ensures
            s == AppStatus::STARTUP,
    {
        AppStatus::STARTUP
    }
}

impl AppStatus {
    /// The word shown in the status bar.
    pub open spec fn label(self) -> Seq<char> {
        match self {
            AppStatus::STARTUP => ""@,
            AppStatus::PROCESSING => "Processing"@,
            AppStatus::DONE => "Done"@,
            AppStatus::ERROR => "Error"@,
        }
    }

    pub fn to_str(&self) -> (s: &'static str)
        ensures
            s@ == self.label(),
    {
        match self {
            AppStatus::STARTUP => "",
            AppStatus::PROCESSING => "Processing",
            AppStatus::DONE => "Done",
            AppStatus::ERROR => "Error",
        }
    }
}

} // verus!
