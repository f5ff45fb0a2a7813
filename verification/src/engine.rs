//! The transport runtime of a process, as the core sees it: started at most
//! once, needed by every session.

use vstd::prelude::*;
use crate::error::InitStage;
use crate::error::NdiError;

verus! {

/// Milliseconds that a scan or a capture waits when the caller names no time.
pub const DEFAULT_TIMEOUT_MS: u32 = 1000;

/// Milliseconds that the scan before a connection waits.
pub const CONNECT_SCAN_TIMEOUT_MS: u32 = 3000;

/// The time to wait: the caller's, or the default where none is given.
pub open spec fn spec_timeout(timeout_ms: Option<u32>) -> u32 {
    match timeout_ms {
        Some(t) => t,
        None => DEFAULT_TIMEOUT_MS,
    }
}

/// Whether the transport runtime has been started. A process keeps one such
/// value and consults it before it creates a session.
#[derive(Debug)]
pub struct Runtime {
    started: bool,
}

impl Runtime {
    pub closed spec fn spec_is_started(&self) -> bool {
        self.started
    }

    /// A runtime that has not been started.
    pub fn new() -> (runtime: Runtime)
        ensures
            !runtime.spec_is_started(),
    {
        Runtime { started: false }
    }

    pub fn is_started(&self) -> (started: bool)
        ensures
            started == self.spec_is_started(),
    {
        self.started
    }

    /// Whether the host has to start the transport before it goes on. Once the
    /// runtime runs, it is not started again.
    pub fn needs_start(&self) -> (needed: bool)
        ensures
            needed == !self.spec_is_started(),
    {
        !self.started
    }

    /// Takes note of how an attempt to start the transport ended. A runtime
    /// that runs stays running whatever is recorded; one that does not run and
    /// could not be started reports so, and nothing is tried again on its own.
    pub fn record_start(&mut self, ok: bool) -> (result: Result<(), NdiError>)
        ensures
            final(self).spec_is_started() == (old(self).spec_is_started() || ok),
            result == if old(self).spec_is_started() || ok {
                Ok::<(), NdiError>(())
            } else {
                Err::<(), NdiError>(NdiError::InitError(InitStage::Runtime))
            },
    {
        if self.started || ok {
            self.started = true;
            Ok(())
        } else {
            Err(NdiError::InitError(InitStage::Runtime))
        }
    }
}

} // verus!
