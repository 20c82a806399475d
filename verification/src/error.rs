use vstd::prelude::*;

verus! {

/// The single failure kind of the store: exclusive access to the settings
/// record could not be obtained, because the synchronization primitive
/// guarding it was left broken by a prior holder that terminated abnormally
/// while holding it. There is no other failure mode: the record always
/// exists once the store is constructed, and no field content is ever
/// rejected.
#[derive(Clone, Copy, Debug, PartialEq, Eq, Structural)]
pub enum StoreError {
    AccessFailure,
}

impl StoreError {
    /// The descriptive text handed to the caller in place of a process
    /// failure: the host surfaces it as an operation-level error and keeps
    /// running.
    pub fn message(&self) -> (m: &'static str)
        ensures
            m@ == "cannot access the user settings: the lock guarding them is broken"@,
    {
        match self {
            StoreError::AccessFailure => {
                "cannot access the user settings: the lock guarding them is broken"
            },
        }
    }
}

} // verus!
