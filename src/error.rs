use vstd::prelude::*;

verus! {

/// The errors that installing a mocked clock reports.
#[derive(Debug, Clone, Copy, PartialEq, Eq, Structural)]
#[non_exhaustive]
pub enum ChronobreakError {
    /// The clock was installed on a thread that already has one.
    AlreadyInitialized,
}

impl ChronobreakError {
    /// A sentence that describes the error.
    pub fn message(&self) -> (r: &'static str)
        ensures
            *self == ChronobreakError::AlreadyInitialized ==> r@ == "the clock is already mocked"@,
    {
        match self {
            ChronobreakError::AlreadyInitialized => "the clock is already mocked",
        }
    }
}

} // verus!
