//! Tests of the position tables and the dead-key state machine.

use ghostkeys::mapper::{AccentType, KeyAction, Mapper, MapperState, VirtualKey};

// === Direct Position Mapping Tests ===

#[test]
fn test_semicolon_to_cedilla() {
    let mut mapper = Mapper::new();
    // ; -> ç (ABNT2 cedilla position)
    assert_eq!(
        mapper.process_key(VirtualKey::Semicolon, false),
        KeyAction::Replace('ç')
    );
    // Shift+; -> Ç
    assert_eq!(
        mapper.process_key(VirtualKey::Semicolon, true),
        KeyAction::Replace('Ç')
    );
}

#[test]
fn test_right_bracket_to_left_bracket() {
    let mut mapper = Mapper::new();
    // ] -> [ (ABNT2 bracket key position)
    assert_eq!(
        mapper.process_key(VirtualKey::RightBracket, false),
        KeyAction::Replace('[')
    );
    // Shift+] -> {
    assert_eq!(
        mapper.process_key(VirtualKey::RightBracket, true),
        KeyAction::Replace('{')
    );
}

#[test]
fn test_backslash_to_right_bracket() {
    let mut mapper = Mapper::new();
    // \ -> ] (ABNT2 close bracket position)
    assert_eq!(
        mapper.process_key(VirtualKey::Backslash, false),
        KeyAction::Replace(']')
    );
    // Shift+\ -> }
    assert_eq!(
        mapper.process_key(VirtualKey::Backslash, true),
        KeyAction::Replace('}')
    );
}

#[test]
fn test_slash_to_semicolon() {
    let mut mapper = Mapper::new();
    // / -> ; (ABNT2 semicolon position)
    assert_eq!(
        mapper.process_key(VirtualKey::Slash, false),
        KeyAction::Replace(';')
    );
    // Shift+/ -> :
    assert_eq!(
        mapper.process_key(VirtualKey::Slash, true),
        KeyAction::Replace(':')
    );
}

// === Dead Key Trigger Tests ===

#[test]
fn test_dead_key_tilde() {
    let mut mapper = Mapper::new();

    // ' (unshifted) -> tilde dead key
    assert_eq!(
        mapper.process_key(VirtualKey::Apostrophe, false),
        KeyAction::Suppress
    );
    assert_eq!(mapper.state(), &MapperState::PendingAccent(AccentType::Tilde));

    // Press 'a' -> should produce ã
    assert_eq!(
        mapper.process_key(VirtualKey::Char('a'), false),
        KeyAction::Replace('ã')
    );
    assert_eq!(mapper.state(), &MapperState::Idle);
}

#[test]
fn test_dead_key_circumflex() {
    let mut mapper = Mapper::new();

    // Shift+' -> circumflex dead key
    assert_eq!(
        mapper.process_key(VirtualKey::Apostrophe, true),
        KeyAction::Suppress
    );
    assert_eq!(
        mapper.state(),
        &MapperState::PendingAccent(AccentType::Circumflex)
    );

    // Press 'a' -> should produce â
    assert_eq!(
        mapper.process_key(VirtualKey::Char('a'), false),
        KeyAction::Replace('â')
    );
    assert_eq!(mapper.state(), &MapperState::Idle);
}

#[test]
fn test_dead_key_acute() {
    let mut mapper = Mapper::new();

    // [ (unshifted) -> acute dead key
    assert_eq!(
        mapper.process_key(VirtualKey::LeftBracket, false),
        KeyAction::Suppress
    );
    assert_eq!(mapper.state(), &MapperState::PendingAccent(AccentType::Acute));

    // Press 'e' -> should produce é
    assert_eq!(
        mapper.process_key(VirtualKey::Char('e'), false),
        KeyAction::Replace('é')
    );
}

#[test]
fn test_dead_key_grave() {
    let mut mapper = Mapper::new();

    // Shift+[ -> grave dead key
    assert_eq!(
        mapper.process_key(VirtualKey::LeftBracket, true),
        KeyAction::Suppress
    );
    assert_eq!(mapper.state(), &MapperState::PendingAccent(AccentType::Grave));

    // Press 'a' -> should produce à
    assert_eq!(
        mapper.process_key(VirtualKey::Char('a'), false),
        KeyAction::Replace('à')
    );
}

// === Dead Key Combination Tests ===

#[test]
fn test_dead_key_non_combinable() {
    let mut mapper = Mapper::new();

    // Press apostrophe (tilde dead key)
    mapper.process_key(VirtualKey::Apostrophe, false);

    // Press 'x' (non-combinable) -> should produce ~ followed by x
    assert_eq!(
        mapper.process_key(VirtualKey::Char('x'), false),
        KeyAction::ReplaceMultiple(vec!['~', 'x'])
    );
}

#[test]
fn test_dead_key_space() {
    let mut mapper = Mapper::new();

    // Press apostrophe (tilde dead key)
    mapper.process_key(VirtualKey::Apostrophe, false);

    // Press space -> should produce just ~
    assert_eq!(
        mapper.process_key(VirtualKey::Space, false),
        KeyAction::Replace('~')
    );
}

#[test]
fn test_passthrough_unhandled_keys() {
    let mut mapper = Mapper::new();
    assert_eq!(mapper.process_key(VirtualKey::Other, false), KeyAction::Pass);
}
