//! Error types for the remapping engine.

use vstd::prelude::*;

verus! {

/// Everything that can go wrong across the engine's lifecycle operations.
///
/// The hot-path callback has no error channel: these errors surface only from
/// lifecycle calls (`start`, `stop`) and from the mode gate.
#[derive(Debug)]
pub enum GhostKeysError {
    /// The OS refused the keyboard hook, or `start` was called while running.
    HookInstallError(String),
    /// The OS refused to release the keyboard hook.
    HookReleaseError(String),
    /// The system tray could not be set up or updated.
    TrayError(String),
    /// The mode gate's synchronization was left inconsistent by a panic.
    StateLockPoisoned,
    /// The character injection primitive failed.
    KeyInjectionError(String),
}

} // verus!
