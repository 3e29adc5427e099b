//! The closed set of failure kinds a run can report.

use vstd::prelude::*;

verus! {

/// What went wrong, by the component that failed.
#[derive(Clone, Copy, Debug, PartialEq, Eq, Structural)]
pub enum ErrorKind {
    /// A required setting is missing, empty or unusable.
    Configuration,
    /// The quote request failed, timed out or was answered without success.
    Network,
    /// The quote response was not the expected document.
    Parse,
    /// The store refused the schema or a write.
    Persistence,
    /// The alert could not be delivered.
    Notification,
}

impl ErrorKind {
    /// Whether a failure of this kind ends the run that met it.
    ///
    /// Only a failed alert delivery is tolerated: the quote is already stored
    /// by then.
    pub open spec fn ends_run(self) -> bool {
        self != ErrorKind::Notification
    }

    /// Executable form of [`ErrorKind::ends_run`].
    pub fn is_fatal(self) -> (fatal: bool)
        ensures
            fatal == self.ends_run(),
    {
        match self {
            ErrorKind::Notification => false,
            _ => true,
        }
    }
}

} // verus!
