//! The one open Application Database a sealed deployment serves from, and
//! the process-wide owner shutdown closes it through.
//!
//! `B` is the open backend. The handle serializes operations on it, and
//! shutdown takes it out to close it, so the close happens once and every
//! later operation finds the database unavailable.
use vstd::prelude::*;
use crate::startup::LifecycleError;

verus! {

/// Database failures the operational runtime distinguishes.
#[derive(Clone, Copy, Debug, PartialEq, Eq, Structural)]
pub enum DatabaseError {
    DeploymentMismatch,
    /// The database is closed, or its lane was left untrusted by a panic.
    Unavailable,
    IntegrityFailure,
    ConfigurationInvalid,
    InvalidState,
    AlreadyInitialized,
    NotInitialized,
    /// Any category the runtime does not distinguish.
    Other,
}

pub open spec fn lifecycle_error_for(error: DatabaseError) -> LifecycleError {
    match error {
        DatabaseError::DeploymentMismatch => LifecycleError::DeploymentMismatch,
        DatabaseError::Unavailable => LifecycleError::DependencyUnavailable,
        DatabaseError::IntegrityFailure => LifecycleError::IntegrityFailure,
        DatabaseError::ConfigurationInvalid => LifecycleError::ConfigurationInvalid,
        _ => LifecycleError::InvalidState,
    }
}

/// Maps a database failure met while inspecting a retained database onto the
/// lifecycle's categories.
pub fn map_database_error(error: DatabaseError) -> (mapped: LifecycleError)
    ensures
        mapped == lifecycle_error_for(error),
{
    match error {
        DatabaseError::DeploymentMismatch => LifecycleError::DeploymentMismatch,
        DatabaseError::Unavailable => LifecycleError::DependencyUnavailable,
        DatabaseError::IntegrityFailure => LifecycleError::IntegrityFailure,
        DatabaseError::ConfigurationInvalid => LifecycleError::ConfigurationInvalid,
        DatabaseError::InvalidState => LifecycleError::InvalidState,
        DatabaseError::AlreadyInitialized => LifecycleError::InvalidState,
        DatabaseError::NotInitialized => LifecycleError::InvalidState,
        DatabaseError::Other => LifecycleError::InvalidState,
    }
}

/// The open database, until shutdown takes it.
pub struct DatabaseHandle<B> {
    database: Option<B>,
    /// An operation panicked inside the lane; its outcome is untrusted.
    poisoned: bool,
}

/// What a handle holds, and whether its lane is untrusted.
pub struct HandleView<B> {
    pub database: Option<B>,
    pub poisoned: bool,
}

impl<B> View for DatabaseHandle<B> {
    type V = HandleView<B>;

    closed spec fn view(&self) -> HandleView<B> {
        HandleView { database: self.database, poisoned: self.poisoned }
    }
}

/// What a close reports: the backend's own result when it was closed here,
/// and unavailability after an untrusted lane however cleanly it closed.
pub open spec fn close_report(closed: Result<(), DatabaseError>, poisoned: bool) -> Result<(), DatabaseError> {
    match closed {
        Err(e) => Err(e),
        Ok(()) => if poisoned { Err(DatabaseError::Unavailable) } else { Ok(()) },
    }
}

impl<B> DatabaseHandle<B> {
    /// Takes ownership of an open database.
    pub fn new(database: B) -> (handle: Self)
        ensures
            handle@.database == Some(database),
            !handle@.poisoned,
    {
        DatabaseHandle { database: Some(database), poisoned: false }
    }

    /// Records that an operation panicked inside the lane.
    pub fn poison(&mut self)
        ensures
            final(self)@.database == old(self)@.database,
            final(self)@.poisoned,
    {
        self.poisoned = true;
    }

    /// Whether an operation may run: only on an open database whose lane is trusted.
    pub fn is_available(&self) -> (r: Result<(), DatabaseError>)
        ensures
            r == if self@.database is Some && !self@.poisoned {
                Ok::<(), DatabaseError>(())
            } else {
                Err(DatabaseError::Unavailable)
            },
    {
        if self.poisoned || self.database.is_none() {
            Err(DatabaseError::Unavailable)
        } else {
            Ok(())
        }
    }

    /// Takes the database out and closes it with `close`; a database already
    /// taken is not closed again.
    pub fn close<C: FnOnce(B) -> Result<(), DatabaseError>>(&mut self, close: C) -> (r: Result<(), DatabaseError>)
        requires
            old(self)@.database matches Some(b) ==> call_requires(close, (b,)),
        ensures
            final(self)@.database is None,
            final(self)@.poisoned == old(self)@.poisoned,
            match old(self)@.database {
                None => r == close_report(Ok(()), old(self)@.poisoned),
                Some(b) => exists|closed: Result<(), DatabaseError>|
                    call_ensures(close, (b,), closed) && r == close_report(closed, old(self)@.poisoned),
            },
    {
        let taken = self.database.take();
        match taken {
            Some(database) => {
                let ghost backend = database;
                let closed = close(database);
                let r = report(closed, self.poisoned);
                assert(call_ensures(close, (backend,), closed) && r == close_report(closed, self.poisoned));
                r
            },
            None => report(Ok(()), self.poisoned),
        }
    }
}

fn report(closed: Result<(), DatabaseError>, poisoned: bool) -> (r: Result<(), DatabaseError>)
    ensures
        r == close_report(closed, poisoned),
{
    match closed {
        Err(e) => Err(e),
        Ok(()) => if poisoned {
            Err(DatabaseError::Unavailable)
        } else {
            Ok(())
        },
    }
}

/// The process-wide owner of whichever Application Database is serving.
pub struct ActiveDatabase<B> {
    active: Option<DatabaseHandle<B>>,
}

impl<B> View for ActiveDatabase<B> {
    type V = Option<HandleView<B>>;

    closed spec fn view(&self) -> Option<HandleView<B>> {
        match self.active {
            Some(h) => Some(h@),
            None => None,
        }
    }
}

impl<B> ActiveDatabase<B> {
    /// No database has been activated.
    pub fn new() -> (owner: Self)
        ensures
            owner@ is None,
    {
        ActiveDatabase { active: None }
    }

    /// Records the database an operational composition serves from.
    pub fn activate(&mut self, database: DatabaseHandle<B>)
        ensures
            final(self)@ == Some(database@),
    {
        self.active = Some(database);
    }

    /// Whether an operation may run on the activated database.
    pub fn database_available(&self) -> (r: Result<(), DatabaseError>)
        ensures
            r == match self@ {
                Some(h) => if h.database is Some && !h.poisoned {
                    Ok::<(), DatabaseError>(())
                } else {
                    Err(DatabaseError::Unavailable)
                },
                None => Err(DatabaseError::Unavailable),
            },
    {
        match &self.active {
            Some(handle) => handle.is_available(),
            None => Err(DatabaseError::Unavailable),
        }
    }

    /// Closes the operational database, if one was ever activated. Closing
    /// twice is no error: the backend is closed once, by the first call.
    pub fn close<C: FnOnce(B) -> Result<(), DatabaseError>>(&mut self, close: C) -> (r: Result<(), DatabaseError>)
        requires
            old(self)@ matches Some(h) ==> (h.database matches Some(b) ==> call_requires(close, (b,))),
        ensures
            match old(self)@ {
                None => r == Ok::<(), DatabaseError>(()) && final(self)@ is None,
                Some(h) => {
                    &&& final(self)@ matches Some(after) && after.database is None && after.poisoned == h.poisoned
                    &&& match h.database {
                        None => r == close_report(Ok(()), h.poisoned),
                        Some(b) => exists|closed: Result<(), DatabaseError>|
                            call_ensures(close, (b,), closed) && r == close_report(closed, h.poisoned),
                    }
                },
            },
    {
        match &mut self.active {
            None => Ok(()),
            Some(handle) => handle.close(close),
        }
    }
}

impl<B> Default for ActiveDatabase<B> {
    fn default() -> (owner: Self)
        ensures
            owner@ is None,
    {
        ActiveDatabase::new()
    }
}

} // verus!
