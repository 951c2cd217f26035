//! The persistent CPU alert status and the store that holds it.
use vstd::prelude::*;

verus! {

/// Where the CPU hysteresis stands between two cycles.
#[derive(Clone, Copy, Debug, PartialEq, Eq, Structural)]
pub enum Status {
    Clean,
    CpuWarn,
    CpuError,
}

/// Why the status store could not be read or written.
#[derive(Clone, Copy, Debug, PartialEq, Eq, Structural)]
pub enum StatusError {
    /// The store was never set up.
    Uninitialized,
    /// An earlier writer failed mid-update; the status cannot be trusted.
    Poisoned,
}

/// The one place a monitor keeps its status.
///
/// The driver owns it and lends it to each cycle; `&mut` access makes every
/// write exclusive, so no lock is needed inside the library. A driver that
/// shares it behind a lock of its own records a failed writer as `Poisoned`.
#[derive(Clone, Copy, Debug, PartialEq, Eq, Structural)]
pub enum StatusStore {
    Uninitialized,
    Ready(Status),
    Poisoned,
}

/// What reading the store gives.
pub open spec fn read_spec(store: StatusStore) -> Result<Status, StatusError> {
    match store {
        StatusStore::Uninitialized => Err(StatusError::Uninitialized),
        StatusStore::Poisoned => Err(StatusError::Poisoned),
        StatusStore::Ready(s) => Ok(s),
    }
}

impl Status {
    /// Sets up the store with `Clean`; a store that is already set up (or
    /// poisoned) is left as it is.
    pub fn init(store: &mut StatusStore)
        ensures
            *final(store) == (match *old(store) {
                StatusStore::Uninitialized => StatusStore::Ready(Status::Clean),
                other => other,
            }),
    {
        if let StatusStore::Uninitialized = *store {
            *store = StatusStore::Ready(Status::Clean);
        }
    }

    /// Replaces the stored status. Fails, changing nothing, on a store that
    /// is not set up or is poisoned.
    pub fn set(store: &mut StatusStore, new_status: Status) -> (r: Result<(), StatusError>)
        ensures
            r == (match read_spec(*old(store)) {
                Ok(_) => Ok(()),
                Err(e) => Err::<(), StatusError>(e),
            }),
            r is Ok ==> *final(store) == StatusStore::Ready(new_status),
            r is Err ==> *final(store) == *old(store),
    {
        match *store {
            StatusStore::Uninitialized => Err(StatusError::Uninitialized),
            StatusStore::Poisoned => Err(StatusError::Poisoned),
            StatusStore::Ready(_) => {
                *store = StatusStore::Ready(new_status);
                Ok(())
            },
        }
    }

    /// Reads the stored status.
    pub fn get(store: &StatusStore) -> (r: Result<Status, StatusError>)
        ensures
            r == read_spec(*store),
    {
        match *store {
            StatusStore::Uninitialized => Err(StatusError::Uninitialized),
            StatusStore::Poisoned => Err(StatusError::Poisoned),
            StatusStore::Ready(s) => Ok(s),
        }
    }
}

} // verus!
