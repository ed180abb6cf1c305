//! The platform-independent interception surface.
//!
//! Defines the action a platform adapter must apply after a keystroke is
//! processed, and the hot-path decision function that classifies a raw OS
//! key event and drives the mapper.

use vstd::prelude::*;

use crate::error::GhostKeysError;
use crate::mapper::{spec_action_ok, spec_next_state, Mapper, VirtualKey};
use crate::state::SharedState;

verus! {

/// Action to take after processing a keystroke.
#[derive(Debug, Clone, PartialEq, Eq)]
pub enum KeyAction {
    /// Allow the keystroke through unmodified.
    Pass,
    /// Block the keystroke with no output (a dead key is pending).
    Suppress,
    /// Block the original keystroke and inject one replacement character.
    Replace(char),
    /// Block the original keystroke and inject the characters in order.
    ReplaceMultiple(Vec<char>),
}

/// The lifecycle contract every platform hook adapter must satisfy.
///
/// An adapter owns the OS-level hook registration. `start` installs the hook
/// and fails rather than installing twice; `stop` releases it and always
/// leaves the adapter logically stopped, even when the OS refuses the
/// release.
pub trait KeyboardInterceptor: Send {
    /// Whether this adapter currently holds an installed hook.
    spec fn running_spec(&self) -> bool;

    /// Install the global keyboard hook and begin intercepting.
    ///
    /// Calling `start` while already running is an error, not a silent
    /// no-op.
    fn start(&mut self, state: SharedState) -> (r: Result<(), GhostKeysError>)
        ensures
            old(self).running_spec() ==> (r matches Err(e) && e is HookInstallError),
            r is Ok ==> final(self).running_spec() && !old(self).running_spec(),
            r is Err ==> final(self).running_spec() == old(self).running_spec(),
    ;

    /// Release the hook. Idempotent: stopping an adapter that is not
    /// running succeeds trivially, and the adapter is logically stopped
    /// afterwards in every case.
    fn stop(&mut self) -> (r: Result<(), GhostKeysError>)
        ensures
            !final(self).running_spec(),
            !old(self).running_spec() ==> r is Ok,
            r matches Err(e) ==> old(self).running_spec() && e is HookReleaseError,
    ;

    /// Non-blocking status query.
    fn is_running(&self) -> (r: bool)
        ensures
            r == self.running_spec(),
    ;
}

/// Create the keyboard interceptor adapter for this build.
pub fn create_interceptor() -> (r: crate::platform::LinuxInterceptor)
    ensures
        !r.running_spec(),
{
    crate::platform::LinuxInterceptor::new()
}

/// The remapped letter-range key codes: `0x41` through `0x5A` are the OS
/// codes of the letter keys `A` through `Z`.
pub open spec fn spec_vk_to_virtual_key(vk: u32) -> VirtualKey {
    if vk == 0xBA {
        VirtualKey::Semicolon
    } else if vk == 0xDE {
        VirtualKey::Apostrophe
    } else if vk == 0xDB {
        VirtualKey::LeftBracket
    } else if vk == 0xDD {
        VirtualKey::RightBracket
    } else if vk == 0xDC {
        VirtualKey::Backslash
    } else if vk == 0xBF {
        VirtualKey::Slash
    } else if vk == 0x20 {
        VirtualKey::Space
    } else if 0x41 <= vk && vk <= 0x5A {
        VirtualKey::Char(vk as char)
    } else {
        VirtualKey::Other
    }
}

/// Translate an OS virtual-key code into the engine's key identity.
pub fn vk_to_virtual_key(vk: u32) -> (r: VirtualKey)
    ensures
        r == spec_vk_to_virtual_key(vk),
{
    if vk == 0xBA {
        VirtualKey::Semicolon
    } else if vk == 0xDE {
        VirtualKey::Apostrophe
    } else if vk == 0xDB {
        VirtualKey::LeftBracket
    } else if vk == 0xDD {
        VirtualKey::RightBracket
    } else if vk == 0xDC {
        VirtualKey::Backslash
    } else if vk == 0xBF {
        VirtualKey::Slash
    } else if vk == 0x20 {
        VirtualKey::Space
    } else if 0x41 <= vk && vk <= 0x5A {
        VirtualKey::Char((vk as u8) as char)
    } else {
        VirtualKey::Other
    }
}

/// The hot-path decision: classify one raw OS key event and drive the
/// mapper. A platform adapter's callback calls this with the flags it read
/// from the OS and applies the returned action.
///
/// In priority order: while the pause flag is up the event is forwarded
/// with the mapper untouched — the short-circuit is read-only, and the
/// adapter discharges the pause-transition `reset` separately; an event
/// injected by the engine's own synthesis primitive is forwarded untouched,
/// never fed back into the mapper; key-up transitions and unhandled keys
/// are forwarded untouched; everything else is the mapper's transition.
pub fn process_hook_event(
    mapper: &mut Mapper,
    paused: bool,
    injected: bool,
    key_down: bool,
    vk: u32,
    shift: bool,
) -> (r: KeyAction)
    requires
        old(mapper).wf(),
    ensures
        final(mapper).wf(),
        paused ==> r == KeyAction::Pass && *final(mapper) == *old(mapper),
        !paused && injected ==> r == KeyAction::Pass && *final(mapper) == *old(mapper),
        !paused && !injected && !key_down ==> r == KeyAction::Pass && *final(mapper) == *old(mapper),
        !paused && !injected && key_down && spec_vk_to_virtual_key(vk) == VirtualKey::Other
            ==> r == KeyAction::Pass && *final(mapper) == *old(mapper),
        !paused && !injected && key_down && spec_vk_to_virtual_key(vk) != VirtualKey::Other ==> {
            &&& spec_action_ok(r, old(mapper).state_spec(), spec_vk_to_virtual_key(vk), shift)
            &&& final(mapper).state_spec()
                == spec_next_state(old(mapper).state_spec(), spec_vk_to_virtual_key(vk), shift)
        },
{
    if paused {
        return KeyAction::Pass;
    }
    if injected {
        return KeyAction::Pass;
    }
    if !key_down {
        return KeyAction::Pass;
    }
    let key = vk_to_virtual_key(vk);
    if let VirtualKey::Other = key {
        return KeyAction::Pass;
    }
    mapper.process_key(key, shift)
}

} // verus!
