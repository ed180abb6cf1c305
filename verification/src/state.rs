//! The shared mode gate and exit signal.
//!
//! One gate instance is shared by reference between the control thread and
//! the hook thread. Because the cell is shared, a method's contract states
//! only what holds of every outcome; the mode logic itself is the pure
//! `spec_toggle` function and the laws proved about it.

use vstd::prelude::*;
use vstd::rwlock::RwLock;
use std::sync::Arc;

use crate::error::GhostKeysError;

verus! {

/// Whether the engine remaps keystrokes or lets everything through.
#[derive(Debug, Clone, Copy, PartialEq, Eq, Default)]
pub enum OperationMode {
    /// Intercept and remap keyboard input.
    #[default]
    Active,
    /// Let every keystroke through unmodified.
    Passthrough,
}

/// The mode held after one toggle from mode `m`.
pub open spec fn spec_toggle(m: OperationMode) -> OperationMode {
    match m {
        OperationMode::Active => OperationMode::Passthrough,
        OperationMode::Passthrough => OperationMode::Active,
    }
}

/// Law: every mode value is `Active` or `Passthrough`, and a toggle keeps
/// it so — no interleaving of toggles can produce a third value.
pub proof fn lemma_mode_valid(m: OperationMode)
    ensures
        m == OperationMode::Active || m == OperationMode::Passthrough,
        spec_toggle(m) == OperationMode::Active || spec_toggle(m) == OperationMode::Passthrough,
{
}

/// Law: toggling twice returns to the starting mode, and from `Active` the
/// intermediate mode is `Passthrough`.
pub proof fn lemma_toggle_round_trip(m: OperationMode)
    ensures
        spec_toggle(spec_toggle(m)) == m,
        spec_toggle(OperationMode::Active) == OperationMode::Passthrough,
        spec_toggle(OperationMode::Passthrough) == OperationMode::Active,
{
}

/// Executable toggle; the only mode computation performed on the cell.
fn toggled_mode(m: OperationMode) -> (r: OperationMode)
    ensures
        r == spec_toggle(m),
{
    match m {
        OperationMode::Active => OperationMode::Passthrough,
        OperationMode::Passthrough => OperationMode::Active,
    }
}

/// Lock predicate that accepts every storable value, whatever the lock
/// instance: safety rests on only mode and flag values ever being stored.
struct AnyContent;

impl vstd::rwlock::RwLockPredicate<AppState> for AnyContent {
    open spec fn inv(self, v: AppState) -> bool {
        true
    }
}

impl vstd::rwlock::RwLockPredicate<bool> for AnyContent {
    open spec fn inv(self, v: bool) -> bool {
        true
    }
}

/// Application state behind the mode lock.
#[derive(Debug)]
pub struct AppState {
    /// Current operation mode.
    pub mode: OperationMode,
}

impl Default for AppState {
    /// Start in `Active` mode.
    fn default() -> (r: Self)
        ensures
            r.mode == OperationMode::Active,
    {
        AppState { mode: OperationMode::Active }
    }
}

/// Thread-safe handle to the shared gate: the operation mode plus an
/// independent exit flag. Cloning yields another handle to the same cells.
#[derive(Clone)]
pub struct SharedState {
    inner: Arc<RwLock<AppState, AnyContent>>,
    exit_flag: Arc<RwLock<bool, AnyContent>>,
}

impl SharedState {
    /// Create a gate holding the default mode (`Active`) and a clear exit flag.
    pub fn new() -> (r: Self) {
        let mode_lock = RwLock::new(AppState::default(), Ghost(AnyContent));
        let exit_lock = RwLock::new(false, Ghost(AnyContent));
        SharedState { inner: Arc::new(mode_lock), exit_flag: Arc::new(exit_lock) }
    }

    /// Read the current operation mode.
    ///
    /// The lock cannot be poisoned, so this never returns
    /// `StateLockPoisoned`.
    pub fn get_mode(&self) -> (r: Result<OperationMode, GhostKeysError>)
        ensures
            r is Ok,
    {
        let handle = self.inner.acquire_read();
        let mode = handle.borrow().mode;
        handle.release_read();
        Ok(mode)
    }

    /// Store `mode` as the current operation mode.
    pub fn set_mode(&self, mode: OperationMode) -> (r: Result<(), GhostKeysError>)
        ensures
            r is Ok,
    {
        let (_old_state, handle) = self.inner.acquire_write();
        handle.release_write(AppState { mode });
        Ok(())
    }

    /// Atomically flip `Active` and `Passthrough`; the result is the toggle
    /// of the mode that was read, so it is always one of the two modes.
    pub fn toggle_mode(&self) -> (r: Result<OperationMode, GhostKeysError>)
        ensures
            r is Ok,
            r matches Ok(m) ==> m == OperationMode::Active || m == OperationMode::Passthrough,
    {
        let (current, handle) = self.inner.acquire_write();
        let next = toggled_mode(current.mode);
        handle.release_write(AppState { mode: next });
        Ok(next)
    }

    /// Raise the exit flag. The flag is never lowered again.
    pub fn signal_exit(&self) {
        let (_old_flag, handle) = self.exit_flag.acquire_write();
        handle.release_write(true);
    }

    /// Read the exit flag.
    pub fn should_exit(&self) -> bool {
        let handle = self.exit_flag.acquire_read();
        let v = *handle.borrow();
        handle.release_read();
        v
    }
}

impl Default for SharedState {
    /// Same as `SharedState::new`.
    fn default() -> Self {
        Self::new()
    }
}

} // verus!
