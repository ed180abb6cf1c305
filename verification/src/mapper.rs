//! ABNT2 position mapping and the dead-key state machine.
//!
//! Pure, platform-independent logic: a direct position table, a dead-key
//! trigger table, an accent combination table, and the two-state machine that
//! ties them together. The only outside input is a clock reading, and every
//! state transition is verified against the spec functions below.

use vstd::prelude::*;

pub use crate::interceptor::KeyAction;

verus! {

/// Milliseconds a pending accent may wait before `check_timeout` resolves it.
pub const ACCENT_TIMEOUT_MS: u64 = 500;

/// Platform-independent identity of a pressed key.
///
/// A platform adapter translates each raw OS key code into one of these once
/// per physical key event.
#[derive(Debug, Clone, Copy, PartialEq, Eq, Hash)]
pub enum VirtualKey {
    /// The US `;` key: the cedilla position on ABNT2.
    Semicolon,
    /// The US `'` key: tilde (unshifted) / circumflex (shifted) dead key.
    Apostrophe,
    /// The US `[` key: acute (unshifted) / grave (shifted) dead key.
    LeftBracket,
    /// The US `]` key: the `[` / `{` position on ABNT2.
    RightBracket,
    /// The US `\` key: the `]` / `}` position on ABNT2.
    Backslash,
    /// The US `/` key: the `;` / `:` position on ABNT2.
    Slash,
    /// A letter key.
    Char(char),
    /// The space bar.
    Space,
    /// Any key the engine does not handle.
    Other,
}

/// The four dead-key accents of the ABNT2 layout.
#[derive(Debug, Clone, Copy, PartialEq, Eq, Hash)]
pub enum AccentType {
    /// Tilde (`~`), triggered by the unshifted `'` key.
    Tilde,
    /// Acute, triggered by the unshifted `[` key.
    Acute,
    /// Grave, triggered by the shifted `[` key.
    Grave,
    /// Circumflex (`^`), triggered by the shifted `'` key.
    Circumflex,
}

/// The standalone glyph of each accent.
pub open spec fn spec_accent_char(a: AccentType) -> char {
    match a {
        AccentType::Tilde => '~',
        AccentType::Acute => '´',
        AccentType::Grave => '`',
        AccentType::Circumflex => '^',
    }
}

impl AccentType {
    /// The character this accent produces when it stands alone.
    pub fn to_char(self) -> (r: char)
        ensures
            r == spec_accent_char(self),
    {
        match self {
            AccentType::Tilde => '~',
            AccentType::Acute => '´',
            AccentType::Grave => '`',
            AccentType::Circumflex => '^',
        }
    }
}

/// State of the dead-key machine: either nothing is pending, or one accent
/// waits for the next keystroke.
#[derive(Debug, Clone, PartialEq, Eq)]
pub enum MapperState {
    /// Waiting for input; no accent is pending.
    Idle,
    /// A dead key was pressed; its accent waits for the next character.
    PendingAccent(AccentType),
}

/// The dead-key trigger table: which accent, if any, a key press arms.
pub open spec fn spec_dead_key_accent(key: VirtualKey, shift: bool) -> Option<AccentType> {
    match (key, shift) {
        (VirtualKey::Apostrophe, false) => Some(AccentType::Tilde),
        (VirtualKey::Apostrophe, true) => Some(AccentType::Circumflex),
        (VirtualKey::LeftBracket, false) => Some(AccentType::Acute),
        (VirtualKey::LeftBracket, true) => Some(AccentType::Grave),
        _ => None,
    }
}

/// The direct position table: the ABNT2 character at each remapped US
/// position, if the position is remapped at all.
pub open spec fn spec_position_char(key: VirtualKey, shift: bool) -> Option<char> {
    match (key, shift) {
        (VirtualKey::Semicolon, false) => Some('ç'),
        (VirtualKey::Semicolon, true) => Some('Ç'),
        (VirtualKey::RightBracket, false) => Some('['),
        (VirtualKey::RightBracket, true) => Some('{'),
        (VirtualKey::Backslash, false) => Some(']'),
        (VirtualKey::Backslash, true) => Some('}'),
        (VirtualKey::Slash, false) => Some(';'),
        (VirtualKey::Slash, true) => Some(':'),
        _ => None,
    }
}

/// The combination table: the single character an accent and a base character
/// compose into. Absence of an entry means the pair is non-combinable.
pub open spec fn spec_combination(a: AccentType, c: char) -> Option<char> {
    match (a, c) {
        (AccentType::Tilde, 'a') => Some('ã'),
        (AccentType::Tilde, 'A') => Some('Ã'),
        (AccentType::Tilde, 'o') => Some('õ'),
        (AccentType::Tilde, 'O') => Some('Õ'),
        (AccentType::Tilde, 'n') => Some('ñ'),
        (AccentType::Tilde, 'N') => Some('Ñ'),
        (AccentType::Acute, 'a') => Some('á'),
        (AccentType::Acute, 'A') => Some('Á'),
        (AccentType::Acute, 'e') => Some('é'),
        (AccentType::Acute, 'E') => Some('É'),
        (AccentType::Acute, 'i') => Some('í'),
        (AccentType::Acute, 'I') => Some('Í'),
        (AccentType::Acute, 'o') => Some('ó'),
        (AccentType::Acute, 'O') => Some('Ó'),
        (AccentType::Acute, 'u') => Some('ú'),
        (AccentType::Acute, 'U') => Some('Ú'),
        (AccentType::Grave, 'a') => Some('à'),
        (AccentType::Grave, 'A') => Some('À'),
        (AccentType::Circumflex, 'a') => Some('â'),
        (AccentType::Circumflex, 'A') => Some('Â'),
        (AccentType::Circumflex, 'e') => Some('ê'),
        (AccentType::Circumflex, 'E') => Some('Ê'),
        (AccentType::Circumflex, 'o') => Some('ô'),
        (AccentType::Circumflex, 'O') => Some('Ô'),
        _ => None,
    }
}

/// ASCII uppercasing of the letters the engine handles; any other character
/// is left as it is.
pub open spec fn spec_to_upper(c: char) -> char {
    match c {
        'a' => 'A', 'b' => 'B', 'c' => 'C', 'd' => 'D', 'e' => 'E', 'f' => 'F',
        'g' => 'G', 'h' => 'H', 'i' => 'I', 'j' => 'J', 'k' => 'K', 'l' => 'L',
        'm' => 'M', 'n' => 'N', 'o' => 'O', 'p' => 'P', 'q' => 'Q', 'r' => 'R',
        's' => 'S', 't' => 'T', 'u' => 'U', 'v' => 'V', 'w' => 'W', 'x' => 'X',
        'y' => 'Y', 'z' => 'Z',
        _ => c,
    }
}

/// ASCII lowercasing, the inverse table of `spec_to_upper` on the letters.
pub open spec fn spec_to_lower(c: char) -> char {
    match c {
        'A' => 'a', 'B' => 'b', 'C' => 'c', 'D' => 'd', 'E' => 'e', 'F' => 'f',
        'G' => 'g', 'H' => 'h', 'I' => 'i', 'J' => 'j', 'K' => 'k', 'L' => 'l',
        'M' => 'm', 'N' => 'n', 'O' => 'o', 'P' => 'p', 'Q' => 'q', 'R' => 'r',
        'S' => 's', 'T' => 't', 'U' => 'u', 'V' => 'v', 'W' => 'w', 'X' => 'x',
        'Y' => 'y', 'Z' => 'z',
        _ => c,
    }
}

/// Case normalization of the character that follows a dead key: shift forces
/// upper case, no shift forces lower case.
pub open spec fn spec_normalize_char(c: char, shift: bool) -> char {
    if shift {
        spec_to_upper(c)
    } else {
        spec_to_lower(c)
    }
}

/// The action the machine takes on a key press in the `Idle` state.
pub open spec fn spec_idle_action(key: VirtualKey, shift: bool) -> KeyAction {
    if spec_dead_key_accent(key, shift) is Some {
        KeyAction::Suppress
    } else if spec_position_char(key, shift) is Some {
        KeyAction::Replace(spec_position_char(key, shift)->0)
    } else {
        KeyAction::Pass
    }
}

/// Whether `r` is the action the machine takes on a key press while accent
/// `a` is pending. Pins `r` down to a single value (up to the view of the
/// injected character list).
pub open spec fn spec_pending_action_ok(r: KeyAction, a: AccentType, key: VirtualKey, shift: bool) -> bool {
    match key {
        VirtualKey::Space => r == KeyAction::Replace(spec_accent_char(a)),
        VirtualKey::Char(c) => {
            let n = spec_normalize_char(c, shift);
            match spec_combination(a, n) {
                Some(k) => r == KeyAction::Replace(k),
                None => r matches KeyAction::ReplaceMultiple(cs)
                    && cs@ == seq![spec_accent_char(a), n],
            }
        },
        _ => r == KeyAction::Replace(spec_accent_char(a)),
    }
}

/// Whether `r` is the action the machine takes on `(key, shift)` from state `s`.
pub open spec fn spec_action_ok(r: KeyAction, s: MapperState, key: VirtualKey, shift: bool) -> bool {
    match s {
        MapperState::Idle => r == spec_idle_action(key, shift),
        MapperState::PendingAccent(a) => spec_pending_action_ok(r, a, key, shift),
    }
}

/// The state the machine is in after processing `(key, shift)` from state `s`.
///
/// Any key press while an accent is pending resolves it: two dead keys can
/// never stack.
pub open spec fn spec_next_state(s: MapperState, key: VirtualKey, shift: bool) -> MapperState {
    match s {
        MapperState::Idle => {
            match spec_dead_key_accent(key, shift) {
                Some(a) => MapperState::PendingAccent(a),
                None => MapperState::Idle,
            }
        },
        MapperState::PendingAccent(_) => MapperState::Idle,
    }
}

/// Whether a pending accent recorded at `entered` has timed out at `now`.
pub open spec fn spec_timeout_fires(s: MapperState, entered: Option<u64>, now: u64) -> bool {
    &&& s is PendingAccent
    &&& entered matches Some(t) && now >= t + ACCENT_TIMEOUT_MS
}

/// The dead-key state machine.
///
/// Owns the current state and, while an accent is pending, the clock reading
/// at which it was armed. The position, trigger and combination tables are
/// fixed; they are the spec functions above and the matching executable
/// lookups below.
pub struct Mapper {
    state: MapperState,
    last_accent_time: Option<u64>,
}

impl Mapper {
    /// The current machine state.
    pub closed spec fn state_spec(&self) -> MapperState {
        self.state
    }

    /// The clock reading recorded when the pending accent was armed.
    pub closed spec fn pending_since(&self) -> Option<u64> {
        self.last_accent_time
    }

    /// An accent is pending exactly when an entry time is recorded.
    pub open spec fn wf(&self) -> bool {
        self.state_spec() is PendingAccent <==> self.pending_since() is Some
    }

    /// Create a mapper in the `Idle` state.
    pub fn new() -> (r: Self)
        ensures
            r.state_spec() == MapperState::Idle,
            r.pending_since() is None,
            r.wf(),
    {
        Self { state: MapperState::Idle, last_accent_time: None }
    }

    /// Process a key press, taking the clock reading `now` as the entry time
    /// to record if this press arms a dead key.
    pub fn process_key_at(&mut self, key: VirtualKey, shift: bool, now: u64) -> (r: KeyAction)
        requires
            old(self).wf(),
        ensures
            final(self).wf(),
            spec_action_ok(r, old(self).state_spec(), key, shift),
            final(self).state_spec() == spec_next_state(old(self).state_spec(), key, shift),
            final(self).pending_since() == (if spec_next_state(old(self).state_spec(), key, shift) is PendingAccent {
                Some(now)
            } else {
                None::<u64>
            }),
    {
        match self.state {
            MapperState::Idle => self.process_idle(key, shift, now),
            MapperState::PendingAccent(accent) => self.process_pending_accent(accent, key, shift),
        }
    }

    /// Process a key press, recording the current clock as the entry time.
    ///
    /// The action and the next state are fully determined by the tables; only
    /// the recorded entry time depends on the clock.
    pub fn process_key(&mut self, key: VirtualKey, shift: bool) -> (r: KeyAction)
        requires
            old(self).wf(),
        ensures
            final(self).wf(),
            spec_action_ok(r, old(self).state_spec(), key, shift),
            final(self).state_spec() == spec_next_state(old(self).state_spec(), key, shift),
    {
        let now = now_millis();
        self.process_key_at(key, shift, now)
    }

    /// The `Idle` half of the transition table.
    fn process_idle(&mut self, key: VirtualKey, shift: bool, now: u64) -> (r: KeyAction)
        requires
            old(self).state_spec() == MapperState::Idle,
            old(self).wf(),
        ensures
            final(self).wf(),
            r == spec_idle_action(key, shift),
            final(self).state_spec() == spec_next_state(MapperState::Idle, key, shift),
            final(self).pending_since() == (if spec_next_state(MapperState::Idle, key, shift) is PendingAccent {
                Some(now)
            } else {
                None::<u64>
            }),
    {
        if let Some(accent) = get_dead_key_accent(key, shift) {
            self.state = MapperState::PendingAccent(accent);
            self.last_accent_time = Some(now);
            return KeyAction::Suppress;
        }

        if let Some(output) = position_char(key, shift) {
            return KeyAction::Replace(output);
        }

        KeyAction::Pass
    }

    /// The `PendingAccent` half of the transition table: every key resolves
    /// the accent and returns the machine to `Idle`.
    fn process_pending_accent(&mut self, accent: AccentType, key: VirtualKey, shift: bool) -> (r: KeyAction)
        requires
            old(self).state_spec() == MapperState::PendingAccent(accent),
        ensures
            final(self).wf(),
            spec_pending_action_ok(r, accent, key, shift),
            final(self).state_spec() == MapperState::Idle,
            final(self).pending_since() is None,
    {
        self.state = MapperState::Idle;
        self.last_accent_time = None;

        let char_key = match key {
            VirtualKey::Space => {
                return KeyAction::Replace(accent.to_char());
            },
            VirtualKey::Char(c) => normalize_char(c, shift),
            _ => {
                // A non-character key releases the accent glyph alone; the
                // key's own effect is dropped, mirroring physical dead-key
                // release behavior.
                return KeyAction::Replace(accent.to_char());
            },
        };

        if let Some(combined) = accent_combination(accent, char_key) {
            return KeyAction::Replace(combined);
        }

        let mut out: Vec<char> = Vec::new();
        out.push(accent.to_char());
        out.push(char_key);
        proof {
            assert(out@ =~= seq![spec_accent_char(accent), char_key]);
        }
        KeyAction::ReplaceMultiple(out)
    }

    /// Resolve a pending accent that has waited at least
    /// `ACCENT_TIMEOUT_MS` milliseconds at clock reading `now`.
    pub fn check_timeout_at(&mut self, now: u64) -> (r: Option<KeyAction>)
        requires
            old(self).wf(),
        ensures
            final(self).wf(),
            spec_timeout_fires(old(self).state_spec(), old(self).pending_since(), now) ==> {
                &&& old(self).state_spec() matches MapperState::PendingAccent(a)
                    && r == Some(KeyAction::Replace(spec_accent_char(a)))
                &&& final(self).state_spec() == MapperState::Idle
                &&& final(self).pending_since() is None
            },
            !spec_timeout_fires(old(self).state_spec(), old(self).pending_since(), now) ==> {
                &&& r is None
                &&& *final(self) == *old(self)
            },
    {
        if let MapperState::PendingAccent(accent) = self.state {
            if let Some(entered) = self.last_accent_time {
                if now >= entered && now - entered >= ACCENT_TIMEOUT_MS {
                    let accent_char = accent.to_char();
                    self.state = MapperState::Idle;
                    self.last_accent_time = None;
                    return Some(KeyAction::Replace(accent_char));
                }
            }
        }
        None
    }

    /// Resolve a pending accent against the current clock.
    ///
    /// A polling operation: some outside driver must call it periodically.
    /// Whatever the clock returns, a timeout can only release the pending
    /// accent's glyph and return the machine to `Idle`; with nothing pending
    /// it does nothing.
    pub fn check_timeout(&mut self) -> (r: Option<KeyAction>)
        requires
            old(self).wf(),
        ensures
            final(self).wf(),
            old(self).state_spec() is Idle ==> r is None,
            r is None ==> *final(self) == *old(self),
            r matches Some(act) ==> {
                &&& old(self).state_spec() matches MapperState::PendingAccent(a)
                    && act == KeyAction::Replace(spec_accent_char(a))
                &&& final(self).state_spec() == MapperState::Idle
                &&& final(self).pending_since() is None
            },
    {
        let now = now_millis();
        self.check_timeout_at(now)
    }

    /// Return unconditionally to `Idle`, dropping any pending accent and its
    /// entry time. Callable from any state, any number of times.
    pub fn reset(&mut self)
        ensures
            final(self).state_spec() == MapperState::Idle,
            final(self).pending_since() is None,
            final(self).wf(),
    {
        self.state = MapperState::Idle;
        self.last_accent_time = None;
    }

    /// The current state, for callers and tests.
    pub fn state(&self) -> (r: &MapperState)
        ensures
            *r == self.state_spec(),
    {
        &self.state
    }
}

impl Default for Mapper {
    /// Same as `Mapper::new`.
    fn default() -> (r: Self)
        ensures
            r.state_spec() == MapperState::Idle,
            r.pending_since() is None,
            r.wf(),
    {
        Self::new()
    }
}

/// Law: each remapped position key replaces the keystroke with the ABNT2
/// character of that position, and the machine stays `Idle`.
pub proof fn lemma_position_mapping(key: VirtualKey, shift: bool)
    requires
        spec_position_char(key, shift) is Some,
    ensures
        spec_idle_action(key, shift) == KeyAction::Replace(spec_position_char(key, shift)->0),
        spec_next_state(MapperState::Idle, key, shift) == MapperState::Idle,
{
}

/// Law: each dead-key trigger suppresses its keystroke and arms exactly the
/// accent of the trigger table.
pub proof fn lemma_dead_key_trigger(key: VirtualKey, shift: bool)
    requires
        spec_dead_key_accent(key, shift) is Some,
    ensures
        spec_idle_action(key, shift) == KeyAction::Suppress,
        spec_next_state(MapperState::Idle, key, shift)
            == MapperState::PendingAccent(spec_dead_key_accent(key, shift)->0),
{
}

/// Law: a base character that combines with the pending accent yields
/// exactly the composed character of the combination table, and the machine
/// returns to `Idle`.
pub proof fn lemma_combination(r: KeyAction, a: AccentType, c: char, shift: bool)
    requires
        spec_combination(a, spec_normalize_char(c, shift)) is Some,
        spec_pending_action_ok(r, a, VirtualKey::Char(c), shift),
    ensures
        r == KeyAction::Replace(spec_combination(a, spec_normalize_char(c, shift))->0),
        spec_next_state(MapperState::PendingAccent(a), VirtualKey::Char(c), shift)
            == MapperState::Idle,
{
}

/// Law: a base character absent from the combination table yields the
/// accent's glyph followed by the normalized character, in that order, and
/// the machine returns to `Idle`.
pub proof fn lemma_non_combinable_fallback(r: KeyAction, a: AccentType, c: char, shift: bool)
    requires
        spec_combination(a, spec_normalize_char(c, shift)) is None,
        spec_pending_action_ok(r, a, VirtualKey::Char(c), shift),
    ensures
        (r matches KeyAction::ReplaceMultiple(cs)
            && cs@ == seq![spec_accent_char(a), spec_normalize_char(c, shift)]),
        spec_next_state(MapperState::PendingAccent(a), VirtualKey::Char(c), shift)
            == MapperState::Idle,
{
}

/// Law: space after a dead key releases the accent's standalone glyph, and
/// the machine returns to `Idle`.
pub proof fn lemma_space_after_dead_key(r: KeyAction, a: AccentType, shift: bool)
    requires
        spec_pending_action_ok(r, a, VirtualKey::Space, shift),
    ensures
        r == KeyAction::Replace(spec_accent_char(a)),
        spec_next_state(MapperState::PendingAccent(a), VirtualKey::Space, shift)
            == MapperState::Idle,
{
}

/// Law: any key event while an accent is pending resolves it — dead keys
/// never stack, and the machine is `Idle` afterwards.
pub proof fn lemma_pending_always_resolves(a: AccentType, key: VirtualKey, shift: bool)
    ensures
        spec_next_state(MapperState::PendingAccent(a), key, shift) == MapperState::Idle,
{
}

/// Law: a pending accent times out exactly once the threshold has elapsed.
/// The timeout leaves `Idle` with no entry time, from which a later check
/// can never fire again; before the threshold nothing fires.
pub proof fn lemma_timeout_once(a: AccentType, entered: u64, now: u64, later: u64)
    ensures
        now >= entered + ACCENT_TIMEOUT_MS
            ==> spec_timeout_fires(MapperState::PendingAccent(a), Some(entered), now),
        now < entered + ACCENT_TIMEOUT_MS
            ==> !spec_timeout_fires(MapperState::PendingAccent(a), Some(entered), now),
        !spec_timeout_fires(MapperState::Idle, None, later),
{
}

/// Executable lookup of the dead-key trigger table.
fn get_dead_key_accent(key: VirtualKey, shift: bool) -> (r: Option<AccentType>)
    ensures
        r == spec_dead_key_accent(key, shift),
{
    match (key, shift) {
        (VirtualKey::Apostrophe, false) => Some(AccentType::Tilde),
        (VirtualKey::Apostrophe, true) => Some(AccentType::Circumflex),
        (VirtualKey::LeftBracket, false) => Some(AccentType::Acute),
        (VirtualKey::LeftBracket, true) => Some(AccentType::Grave),
        _ => None,
    }
}

/// Executable lookup of the direct position table.
fn position_char(key: VirtualKey, shift: bool) -> (r: Option<char>)
    ensures
        r == spec_position_char(key, shift),
{
    match (key, shift) {
        (VirtualKey::Semicolon, false) => Some('ç'),
        (VirtualKey::Semicolon, true) => Some('Ç'),
        (VirtualKey::RightBracket, false) => Some('['),
        (VirtualKey::RightBracket, true) => Some('{'),
        (VirtualKey::Backslash, false) => Some(']'),
        (VirtualKey::Backslash, true) => Some('}'),
        (VirtualKey::Slash, false) => Some(';'),
        (VirtualKey::Slash, true) => Some(':'),
        _ => None,
    }
}

/// Executable lookup of the combination table.
fn accent_combination(a: AccentType, c: char) -> (r: Option<char>)
    ensures
        r == spec_combination(a, c),
{
    match (a, c) {
        (AccentType::Tilde, 'a') => Some('ã'),
        (AccentType::Tilde, 'A') => Some('Ã'),
        (AccentType::Tilde, 'o') => Some('õ'),
        (AccentType::Tilde, 'O') => Some('Õ'),
        (AccentType::Tilde, 'n') => Some('ñ'),
        (AccentType::Tilde, 'N') => Some('Ñ'),
        (AccentType::Acute, 'a') => Some('á'),
        (AccentType::Acute, 'A') => Some('Á'),
        (AccentType::Acute, 'e') => Some('é'),
        (AccentType::Acute, 'E') => Some('É'),
        (AccentType::Acute, 'i') => Some('í'),
        (AccentType::Acute, 'I') => Some('Í'),
        (AccentType::Acute, 'o') => Some('ó'),
        (AccentType::Acute, 'O') => Some('Ó'),
        (AccentType::Acute, 'u') => Some('ú'),
        (AccentType::Acute, 'U') => Some('Ú'),
        (AccentType::Grave, 'a') => Some('à'),
        (AccentType::Grave, 'A') => Some('À'),
        (AccentType::Circumflex, 'a') => Some('â'),
        (AccentType::Circumflex, 'A') => Some('Â'),
        (AccentType::Circumflex, 'e') => Some('ê'),
        (AccentType::Circumflex, 'E') => Some('Ê'),
        (AccentType::Circumflex, 'o') => Some('ô'),
        (AccentType::Circumflex, 'O') => Some('Ô'),
        _ => None,
    }
}

/// Executable case normalization.
fn normalize_char(c: char, shift: bool) -> (r: char)
    ensures
        r == spec_normalize_char(c, shift),
{
    if shift {
        match c {
            'a' => 'A', 'b' => 'B', 'c' => 'C', 'd' => 'D', 'e' => 'E', 'f' => 'F',
            'g' => 'G', 'h' => 'H', 'i' => 'I', 'j' => 'J', 'k' => 'K', 'l' => 'L',
            'm' => 'M', 'n' => 'N', 'o' => 'O', 'p' => 'P', 'q' => 'Q', 'r' => 'R',
            's' => 'S', 't' => 'T', 'u' => 'U', 'v' => 'V', 'w' => 'W', 'x' => 'X',
            'y' => 'Y', 'z' => 'Z',
            _ => c,
        }
    } else {
        match c {
            'A' => 'a', 'B' => 'b', 'C' => 'c', 'D' => 'd', 'E' => 'e', 'F' => 'f',
            'G' => 'g', 'H' => 'h', 'I' => 'i', 'J' => 'j', 'K' => 'k', 'L' => 'l',
            'M' => 'm', 'N' => 'n', 'O' => 'o', 'P' => 'p', 'Q' => 'q', 'R' => 'r',
            'S' => 's', 'T' => 't', 'U' => 'u', 'V' => 'v', 'W' => 'w', 'X' => 'x',
            'Y' => 'y', 'Z' => 'z',
            _ => c,
        }
    }
}

/// Relies on std::time::SystemTime for a millisecond clock reading. Nothing
/// is promised of the value: callers state what holds of every reading.
#[verifier::external_body]
fn now_millis() -> (r: u64) {
    std::time::SystemTime::now()
        .duration_since(std::time::SystemTime::UNIX_EPOCH)
        .unwrap_or_default()
        .as_millis() as u64
}

} // verus!
