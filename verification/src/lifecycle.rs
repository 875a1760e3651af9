//! Process lifecycle: the immutable startup configuration, the write-once
//! slots for state resolved during startup (the effective port, the reload
//! script), and the coordinator's verdict when the watcher and the server
//! tasks end.

use crate::ports::AcquireError;
use vstd::prelude::*;

verus! {

/// The startup parameters. Set once at process start, read everywhere.
pub struct ServerConfig {
    pub host: String,
    pub requested_port: u16,
    pub root: String,
    pub allow_port_fallback: bool,
}

/// A slot written exactly once and read thereafter, used for values fixed
/// during startup: the effective port and the reload script. A second write
/// is refused and hands the value back, so no reader ever observes a change.
pub struct WriteOnce<T> {
    value: Option<T>,
}

impl<T> View for WriteOnce<T> {
    type V = Option<T>;

    closed spec fn view(&self) -> Option<T> {
        self.value
    }
}

impl<T> WriteOnce<T> {
    /// An empty slot.
    pub fn new() -> (r: WriteOnce<T>)
        ensures
            r@ is None,
    {
        WriteOnce { value: None }
    }

    /// Fill the slot. The first write fills it; any later write leaves it
    /// untouched and returns the refused value.
    pub fn set(&mut self, v: T) -> (r: Result<(), T>)
        ensures
            old(self)@ is None ==> final(self)@ == Some(v) && r is Ok,
            old(self)@ is Some ==> final(self)@ == old(self)@ && r == Err::<(), T>(v),
    {
        match self.value {
            Option::None => {
                self.value = Some(v);
                Ok(())
            },
            Option::Some(_) => Err(v),
        }
    }

    /// Read the slot.
    pub fn get(&self) -> (r: Option<&T>)
        ensures
            match r {
                Some(v) => self@ == Some(*v),
                None => self@ is None,
            },
    {
        self.value.as_ref()
    }

    /// Whether the slot has been written.
    pub fn is_set(&self) -> (r: bool)
        ensures
            r == (self@ is Some),
    {
        self.value.is_some()
    }
}

/// Why the whole process must stop.
#[derive(Clone, Copy, Debug, PartialEq, Eq, Structural)]
pub enum FatalError {
    /// The filesystem watch could not be established or collapsed.
    Watch,
    /// The listener could not be acquired, for the given reason.
    Acquire(AcquireError),
}

/// The coordinator's verdict once the watcher task and the server task have
/// ended: the process goes on only while both ran fine; a failed watcher
/// ends it with the watcher's error, a failed server with the server's.
/// There is no partial-degradation mode.
pub fn coordinator_verdict(watcher_ok: bool, server: Result<(), AcquireError>) -> (r: Result<
    (),
    FatalError,
>)
    ensures
        watcher_ok && server is Ok ==> r is Ok,
        !watcher_ok ==> r == Err::<(), FatalError>(FatalError::Watch),
        watcher_ok && (server matches Err(e)) ==> r == Err::<(), FatalError>(
            FatalError::Acquire(server->Err_0),
        ),
{
    if !watcher_ok {
        Err(FatalError::Watch)
    } else {
        match server {
            Ok(_) => Ok(()),
            Err(e) => Err(FatalError::Acquire(e)),
        }
    }
}

} // verus!
