//! The keysym tables on concrete keysyms.

use winit_gtk4::keysym::{keysym_location, keysym_to_key, Key, KeyLocation, NamedKey, NativeKey};
use winit_gtk4::keysyms;

#[test]
fn tty_keys_are_named() {
    assert_eq!(keysym_to_key(keysyms::BackSpace), Key::Named(NamedKey::Backspace));
    assert_eq!(keysym_to_key(keysyms::Return), Key::Named(NamedKey::Enter));
    assert_eq!(keysym_to_key(keysyms::Sys_Req), Key::Named(NamedKey::PrintScreen));
    assert_eq!(keysym_to_key(keysyms::Print), Key::Named(NamedKey::PrintScreen));
    assert_eq!(keysym_to_key(keysyms::Break), Key::Named(NamedKey::Pause));
}

#[test]
fn space_is_a_character() {
    assert_eq!(keysym_to_key(keysyms::space), Key::Character(" ".to_string()));
    assert_eq!(keysym_to_key(0x20), Key::Character(" ".to_string()));
}

#[test]
fn no_symbol_is_unidentified_without_code() {
    assert_eq!(keysym_to_key(0), Key::Unidentified(NativeKey::Unidentified));
}

#[test]
fn unknown_keysyms_keep_their_code() {
    assert_eq!(keysym_to_key(0x61), Key::Unidentified(NativeKey::Xkb(0x61)));
    assert_eq!(keysym_to_key(0xffff_ffff), Key::Unidentified(NativeKey::Xkb(0xffff_ffff)));
    assert_eq!(keysym_to_key(keysyms::KP_5), Key::Unidentified(NativeKey::Xkb(keysyms::KP_5)));
    assert_eq!(keysym_to_key(keysyms::Meta_L), Key::Unidentified(NativeKey::Xkb(keysyms::Meta_L)));
}

#[test]
fn modifiers_of_both_sides_name_one_key() {
    assert_eq!(keysym_to_key(keysyms::Shift_L), Key::Named(NamedKey::Shift));
    assert_eq!(keysym_to_key(keysyms::Shift_R), Key::Named(NamedKey::Shift));
    assert_eq!(keysym_to_key(keysyms::Super_L), Key::Named(NamedKey::Meta));
    assert_eq!(keysym_to_key(keysyms::Super_R), Key::Named(NamedKey::Meta));
    assert_eq!(keysym_to_key(keysyms::Hyper_R), Key::Named(NamedKey::Hyper));
    assert_eq!(keysym_location(keysyms::Shift_L), KeyLocation::Left);
    assert_eq!(keysym_location(keysyms::Shift_R), KeyLocation::Right);
    assert_eq!(keysyms::Shift_L + 1, keysyms::Shift_R);
    assert_eq!(keysyms::Hyper_L + 1, keysyms::Hyper_R);
}

#[test]
fn every_sided_keysym_has_its_partner_next_to_it() {
    for keysym in 0..=0xffffu32 {
        if keysym_location(keysym) == KeyLocation::Left {
            assert_eq!(keysym_location(keysym + 1), KeyLocation::Right);
            assert_eq!(keysym_to_key(keysym + 1) == keysym_to_key(keysym), keysym != keysyms::Meta_L);
        }
    }
}

#[test]
fn keypad_keys_name_main_block_keys() {
    assert_eq!(keysym_to_key(keysyms::KP_Enter), keysym_to_key(keysyms::Return));
    assert_eq!(keysym_to_key(keysyms::KP_Home), keysym_to_key(keysyms::Home));
    assert_eq!(keysym_to_key(keysyms::KP_F4), Key::Named(NamedKey::F4));
    assert_eq!(keysym_location(keysyms::KP_Enter), KeyLocation::Numpad);
    assert_eq!(keysym_location(keysyms::Return), KeyLocation::Standard);
    assert_eq!(keysym_location(keysyms::KP_Divide), KeyLocation::Numpad);
    assert_eq!(keysym_location(keysyms::KP_0), KeyLocation::Numpad);
}

#[test]
fn other_keys_are_standard() {
    assert_eq!(keysym_location(0x61), KeyLocation::Standard);
    assert_eq!(keysym_location(keysyms::space), KeyLocation::Standard);
    assert_eq!(keysym_location(0), KeyLocation::Standard);
    assert_eq!(keysym_location(keysyms::Meta_R), KeyLocation::Right);
}

#[test]
fn xfree86_and_sun_keys() {
    assert_eq!(keysym_to_key(keysyms::XF86_Calculater), Key::Named(NamedKey::LaunchApplication2));
    assert_eq!(keysym_to_key(keysyms::XF86_Calculator), Key::Named(NamedKey::LaunchApplication2));
    assert_eq!(keysym_to_key(keysyms::SUN_Copy), Key::Named(NamedKey::Copy));
    assert_eq!(keysym_to_key(keysyms::XF86_AudioMute), Key::Named(NamedKey::AudioVolumeMute));
    assert_eq!(keysym_to_key(keysyms::_3270_EraseEOF), Key::Named(NamedKey::EraseEof));
    assert_eq!(keysym_to_key(keysyms::F35), Key::Named(NamedKey::F35));
}
