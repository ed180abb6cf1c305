//! Platform hook adapters.
//!
//! The portable adapter below tracks the interceptor lifecycle without
//! registering an OS hook; it is the development stand-in that keeps the
//! lifecycle contract testable on any host. The production adapter wraps an
//! OS hook-installation primitive and lives with the rest of the
//! OS-specific plumbing, outside the verified library.

use vstd::prelude::*;

use crate::error::GhostKeysError;
use crate::interceptor::KeyboardInterceptor;
use crate::state::SharedState;

verus! {

/// Portable interceptor adapter: carries the lifecycle state machine of the
/// interceptor contract, with no OS hook behind it.
pub struct LinuxInterceptor {
    running: bool,
}

impl LinuxInterceptor {
    /// Create an adapter that is not running.
    pub fn new() -> (r: Self)
        ensures
            !r.running_spec(),
    {
        LinuxInterceptor { running: false }
    }
}

impl Default for LinuxInterceptor {
    /// Same as `LinuxInterceptor::new`.
    fn default() -> (r: Self)
        ensures
            !r.running_spec(),
    {
        Self::new()
    }
}

impl KeyboardInterceptor for LinuxInterceptor {
    closed spec fn running_spec(&self) -> bool {
        self.running
    }

    fn start(&mut self, _state: SharedState) -> (r: Result<(), GhostKeysError>)
        ensures
            !old(self).running_spec() ==> r is Ok,
    {
        if self.running {
            return Err(GhostKeysError::HookInstallError(
                "Interceptor already running".to_string(),
            ));
        }

        self.running = true;
        Ok(())
    }

    fn stop(&mut self) -> (r: Result<(), GhostKeysError>)
        ensures
            r is Ok,
    {
        if !self.running {
            return Ok(());
        }

        self.running = false;
        Ok(())
    }

    fn is_running(&self) -> (r: bool) {
        self.running
    }
}

} // verus!
