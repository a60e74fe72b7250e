use mod_ardain::input::{Buttons, PadButton, PadData};

#[test]
fn emergency_escape_is_the_six_button_chord() {
    let chord = PadButton::emergency_escape();
    assert_eq!(chord.raw(), 0x40f8);
    assert!(chord.contains(PadButton::X));
    assert!(chord.contains(PadButton::DpadDown));
    assert!(chord.contains(PadButton::ZL));
    assert!(chord.contains(PadButton::ZR));
    assert!(chord.contains(PadButton::L));
    assert!(chord.contains(PadButton::R));
    assert!(!chord.contains(PadButton::A));
}

#[test]
fn contains_is_a_subset_test() {
    let held = PadData::from_bits(0x30);
    assert!(held.contains(PadButton::L));
    assert!(held.contains(PadButton::L + PadButton::R));
    assert!(!held.contains(PadButton::L + PadButton::A));
    assert!(held.contains(PadData::default()));
    assert!(!PadData::default().contains(PadButton::L));
}

#[test]
fn every_set_contains_itself() {
    for bits in [0u64, 1, 0x410, 0x40f8, 0x7fff_ffff] {
        let held = PadData::from_bits(bits);
        assert!(held.contains(held));
    }
}

#[test]
fn is_empty_means_no_button() {
    assert!(PadData::default().is_empty());
    assert!(PadData::from_bits(0).is_empty());
    assert!(!PadData::from(PadButton::Y).is_empty());
}

#[test]
fn buttons_have_their_bits() {
    assert_eq!(PadButton::A.bits(), 4);
    assert_eq!(PadButton::B.bits(), 2);
    assert_eq!(PadButton::X.bits(), 8);
    assert_eq!(PadButton::Y.bits(), 1);
    assert_eq!(PadButton::L.bits(), 0x10);
    assert_eq!(PadButton::R.bits(), 0x20);
    assert_eq!(PadButton::ZL.bits(), 0x40);
    assert_eq!(PadButton::ZR.bits(), 0x80);
    assert_eq!(PadButton::Minus.bits(), 0x100);
    assert_eq!(PadButton::Plus.bits(), 0x200);
    assert_eq!(PadButton::LeftStickClick.bits(), 0x400);
    assert_eq!(PadButton::RightStickClick.bits(), 0x800);
    assert_eq!(PadButton::DpadUp.bits(), 0x1000);
    assert_eq!(PadButton::DpadRight.bits(), 0x2000);
    assert_eq!(PadButton::DpadDown.bits(), 0x4000);
    assert_eq!(PadButton::DpadLeft.bits(), 0x8000);
    assert_eq!(PadButton::LeftSL.bits(), 0x80000);
    assert_eq!(PadButton::LeftSR.bits(), 0x100000);
    assert_eq!(PadButton::RightSL.bits(), 0x200000);
    assert_eq!(PadButton::RightSR.bits(), 0x400000);
    assert_eq!(PadButton::LeftStickUp.bits(), 0x800000);
    assert_eq!(PadButton::LeftStickRight.bits(), 0x1000000);
    assert_eq!(PadButton::LeftStickDown.bits(), 0x2000000);
    assert_eq!(PadButton::LeftStickLeft.bits(), 0x4000000);
    assert_eq!(PadButton::RightStickUp.bits(), 0x8000000);
    assert_eq!(PadButton::RightStickRight.bits(), 0x10000000);
    assert_eq!(PadButton::RightStickDown.bits(), 0x20000000);
    assert_eq!(PadButton::RightStickLeft.bits(), 0x40000000);
}

#[test]
fn composition_is_union() {
    assert_eq!((PadButton::L + PadButton::R).raw(), 0x30);
    assert_eq!((PadButton::L | PadButton::R).raw(), 0x30);
    assert_eq!((PadButton::L + PadButton::R + PadButton::A + PadButton::Plus).raw(), 0x234);
    assert_eq!((PadData::from_bits(0x30) + PadButton::L).raw(), 0x30);
    assert_eq!((PadData::from_bits(0x30) | PadButton::A).raw(), 0x34);
    assert_eq!((PadButton::L + PadButton::L).raw(), 0x10);
}

#[test]
fn conversions_keep_the_bits() {
    assert_eq!(PadData::from(0x1234u64).raw(), 0x1234);
    assert_eq!(PadData::from(PadButton::Plus).raw(), 0x200);
    assert_eq!(PadButton::Plus.to_pad().raw(), 0x200);
    assert_eq!(PadData::from_bits(9).to_pad().raw(), 9);
}

#[test]
fn pressed_and_click() {
    let held = PadButton::A + PadButton::DpadUp;
    assert!(held.pressed(PadButton::A));
    assert!(held.pressed(PadButton::DpadUp));
    assert!(!held.pressed(PadButton::B));
    assert!(held.is_click());
    assert!(!PadData::from(PadButton::B).is_click());
}
