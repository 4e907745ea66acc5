use pixel_engine::inputs::{classify_wheel, Input, Mouse, MouseBtn, MouseWheel};
use pixel_engine::keycodes::Keycodes;
use pixel_engine::keys::{key_eq, Key, KeySet};

fn plain(key: Keycodes) -> Key {
    Key { modifier: [false, false, false, false], key }
}

fn with_shift(key: Keycodes) -> Key {
    Key { modifier: [true, false, false, false], key }
}

#[test]
fn input_new_keeps_flags() {
    let i = Input::new(true, false, true);
    assert!(i.pressed);
    assert!(!i.held);
    assert!(i.released);
}

#[test]
fn input_default_is_all_clear() {
    let i = Input::default();
    assert!(!i.pressed && !i.held && !i.released);
}

#[test]
fn input_any_is_disjunction() {
    assert!(!Input::new(false, false, false).any());
    assert!(Input::new(true, false, false).any());
    assert!(Input::new(false, true, false).any());
    assert!(Input::new(false, false, true).any());
}

#[test]
fn mouse_new_is_idle() {
    let m = Mouse::new();
    for b in m.buttons.iter() {
        assert!(!b.any());
    }
    assert_eq!(m.pos, (0, 0));
    assert!(matches!(m.wheel, MouseWheel::NoScroll));
}

#[test]
fn wheel_horizontal_dominance_picks_right() {
    assert!(matches!(classify_wheel(3, -1), MouseWheel::Right));
}

#[test]
fn wheel_vertical_dominance_picks_up() {
    assert!(matches!(classify_wheel(1, -3), MouseWheel::Up));
}

#[test]
fn wheel_zero_delta_is_no_scroll() {
    assert!(matches!(classify_wheel(0, 0), MouseWheel::NoScroll));
}

#[test]
fn wheel_tie_goes_to_vertical() {
    assert!(matches!(classify_wheel(2, 2), MouseWheel::Down));
    assert!(matches!(classify_wheel(2, -2), MouseWheel::Up));
}

#[test]
fn wheel_signs_pick_directions() {
    assert!(matches!(classify_wheel(-3, 0), MouseWheel::Left));
    assert!(matches!(classify_wheel(5, 0), MouseWheel::Right));
    assert!(matches!(classify_wheel(0, 4), MouseWheel::Down));
    assert!(matches!(classify_wheel(0, -4), MouseWheel::Up));
}

#[test]
fn get_str_maps_letters_digits_space() {
    assert_eq!(plain(Keycodes::A).get_str(), "a");
    assert_eq!(plain(Keycodes::Z).get_str(), "z");
    assert_eq!(plain(Keycodes::Key7).get_str(), "7");
    assert_eq!(plain(Keycodes::Numpad7).get_str(), "7");
    assert_eq!(plain(Keycodes::Space).get_str(), " ");
    assert_eq!(plain(Keycodes::Escape).get_str(), "");
    assert_eq!(with_shift(Keycodes::B).get_str(), "b");
}

#[test]
fn get_str_option_is_none_for_textless_keys() {
    assert_eq!(plain(Keycodes::A).get_str_option(), Some("a".to_owned()));
    assert_eq!(plain(Keycodes::F5).get_str_option(), None);
    assert_eq!(plain(Keycodes::LShift).get_str_option(), None);
}

#[test]
fn plain_key_has_no_modifiers() {
    let k = Key::plain(Keycodes::Q);
    assert_eq!(k, plain(Keycodes::Q));
    assert_eq!(k.modifier, [false; 4]);
}

#[test]
fn key_eq_compares_code_and_modifiers() {
    assert!(key_eq(&plain(Keycodes::A), &plain(Keycodes::A)));
    assert!(!key_eq(&plain(Keycodes::A), &with_shift(Keycodes::A)));
    assert!(!key_eq(&plain(Keycodes::A), &plain(Keycodes::B)));
}

#[test]
fn keyset_deduplicates_by_full_equality() {
    let mut s = KeySet::new();
    s.insert(plain(Keycodes::A));
    s.insert(plain(Keycodes::A));
    assert_eq!(s.len(), 1);
    s.insert(with_shift(Keycodes::A));
    assert_eq!(s.len(), 2);
}

#[test]
fn keyset_has_tests_by_code_alone() {
    let mut s = KeySet::new();
    s.insert(with_shift(Keycodes::Q));
    assert!(s.has(Keycodes::Q));
    assert!(!s.has(Keycodes::W));
    assert!(s.contains(&with_shift(Keycodes::Q)));
    assert!(!s.contains(&plain(Keycodes::Q)));
}

#[test]
fn keyset_remove_is_by_full_equality() {
    let mut s = KeySet::new();
    s.insert(plain(Keycodes::K));
    s.insert(with_shift(Keycodes::K));
    s.remove(&plain(Keycodes::K));
    assert_eq!(s.len(), 1);
    assert!(s.has(Keycodes::K));
    assert!(!s.contains(&plain(Keycodes::K)));
    s.remove(&with_shift(Keycodes::K));
    assert_eq!(s.len(), 0);
    assert!(!s.has(Keycodes::K));
}

#[test]
fn keyset_codes_are_distinct() {
    let mut s = KeySet::new();
    s.insert(plain(Keycodes::A));
    s.insert(with_shift(Keycodes::A));
    s.insert(plain(Keycodes::B));
    let codes = s.codes();
    assert_eq!(codes.len(), 2);
    assert!(codes.contains(&Keycodes::A));
    assert!(codes.contains(&Keycodes::B));
}
