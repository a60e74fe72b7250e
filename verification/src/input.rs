//! Controller input snapshots.

use vstd::prelude::*;

verus! {

/// The buttons held during one frame, one bit per button.
#[derive(Clone, Copy, Debug, PartialEq, Eq)]
pub struct PadData {
    pub buttons: u64,
}

/// Controller-agnostic button identifiers.
#[derive(Clone, Copy, Debug, PartialEq, Eq)]
pub enum PadButton {
    A,
    B,
    X,
    Y,
    L,
    R,
    ZL,
    ZR,
    DpadRight,
    DpadLeft,
    DpadUp,
    DpadDown,
    LeftStickClick,
    RightStickClick,
    Plus,
    Minus,
    LeftSL,
    LeftSR,
    RightSL,
    RightSR,
    LeftStickRight,
    LeftStickUp,
    LeftStickLeft,
    LeftStickDown,
    RightStickRight,
    RightStickUp,
    RightStickLeft,
    RightStickDown,
}

/// Anything that names a set of buttons: a single button, or a whole snapshot.
pub trait Buttons: Sized {
    /// The set of buttons that `self` names.
    spec fn pad(self) -> PadData;

    /// The set of buttons that `self` names.
    fn to_pad(self) -> (r: PadData)
        ensures
            r == self.pad(),
    ;
}

impl Buttons for PadData {
    open spec fn pad(self) -> PadData {
        self
    }

    fn to_pad(self) -> (r: PadData) {
        self
    }
}

impl Buttons for PadButton {
    open spec fn pad(self) -> PadData {
        PadData::of(self.mask())
    }

    fn to_pad(self) -> (r: PadData) {
        PadData { buttons: self.bits() }
    }
}

impl PadButton {
    /// The bit that stands for this button in a [`PadData`].
    pub open spec fn mask(self) -> u64 {
        match self {
            PadButton::A => 0x4,
            PadButton::B => 0x2,
            PadButton::X => 0x8,
            PadButton::Y => 0x1,
            PadButton::L => 0x10,
            PadButton::R => 0x20,
            PadButton::ZL => 0x40,
            PadButton::ZR => 0x80,
            PadButton::DpadRight => 0x2000,
            PadButton::DpadLeft => 0x8000,
            PadButton::DpadUp => 0x1000,
            PadButton::DpadDown => 0x4000,
            PadButton::LeftStickClick => 0x400,
            PadButton::RightStickClick => 0x800,
            PadButton::Plus => 0x200,
            PadButton::Minus => 0x100,
            PadButton::LeftSL => 0x80000,
            PadButton::LeftSR => 0x100000,
            PadButton::RightSL => 0x200000,
            PadButton::RightSR => 0x400000,
            PadButton::LeftStickRight => 0x1_000_000,
            PadButton::LeftStickUp => 0x800_000,
            PadButton::LeftStickLeft => 0x4_000_000,
            PadButton::LeftStickDown => 0x2_000_000,
            PadButton::RightStickRight => 0x10_000_000,
            PadButton::RightStickUp => 0x8_000_000,
            PadButton::RightStickLeft => 0x40_000_000,
            PadButton::RightStickDown => 0x20_000_000,
        }
    }

    /// The bit that stands for this button.
    pub fn bits(self) -> (r: u64)
        ensures
            r == self.mask(),
    {
        match self {
            PadButton::A => 0x4,
            PadButton::B => 0x2,
            PadButton::X => 0x8,
            PadButton::Y => 0x1,
            PadButton::L => 0x10,
            PadButton::R => 0x20,
            PadButton::ZL => 0x40,
            PadButton::ZR => 0x80,
            PadButton::DpadRight => 0x2000,
            PadButton::DpadLeft => 0x8000,
            PadButton::DpadUp => 0x1000,
            PadButton::DpadDown => 0x4000,
            PadButton::LeftStickClick => 0x400,
            PadButton::RightStickClick => 0x800,
            PadButton::Plus => 0x200,
            PadButton::Minus => 0x100,
            PadButton::LeftSL => 0x80000,
            PadButton::LeftSR => 0x100000,
            PadButton::RightSL => 0x200000,
            PadButton::RightSR => 0x400000,
            PadButton::LeftStickRight => 0x1_000_000,
            PadButton::LeftStickUp => 0x800_000,
            PadButton::LeftStickLeft => 0x4_000_000,
            PadButton::LeftStickDown => 0x2_000_000,
            PadButton::RightStickRight => 0x10_000_000,
            PadButton::RightStickUp => 0x8_000_000,
            PadButton::RightStickLeft => 0x40_000_000,
            PadButton::RightStickDown => 0x20_000_000,
        }
    }

    /// The combination that triggers an "emergency escape":
    /// X, D-pad down, ZL, ZR, L and R held together.
    pub fn emergency_escape() -> (r: PadData)
        ensures
            r.bits() == 0x40f8,
            r.bits() == PadButton::X.mask() | PadButton::DpadDown.mask() | PadButton::ZL.mask()
                | PadButton::ZR.mask() | PadButton::L.mask() | PadButton::R.mask(),
    {
        proof {
            assert(0x40f8u64 == 0x8u64 | 0x4000u64 | 0x40u64 | 0x80u64 | 0x10u64 | 0x20u64)
                by (bit_vector);
        }
        PadButton::X + PadButton::DpadDown + PadButton::ZL + PadButton::ZR + PadButton::L
            + PadButton::R
    }
}

impl PadData {
    /// The raw bitmask.
    pub open spec fn bits(self) -> u64 {
        self.buttons
    }

    /// Whether every button of `other` is also held in `self`.
    pub open spec fn includes(self, other: PadData) -> bool {
        self.bits() & other.bits() == other.bits()
    }

    /// Whether `button` is held.
    pub open spec fn has(self, button: PadButton) -> bool {
        self.bits() & button.mask() == button.mask()
    }

    /// Whether the snapshot asks to move down: stick or D-pad.
    pub open spec fn is_down(self) -> bool {
        self.has(PadButton::LeftStickDown) || self.has(PadButton::DpadDown)
    }

    /// Whether the snapshot asks to move up: stick or D-pad.
    pub open spec fn is_up(self) -> bool {
        self.has(PadButton::LeftStickUp) || self.has(PadButton::DpadUp)
    }

    /// Whether the snapshot confirms: the A button.
    pub open spec fn clicks(self) -> bool {
        self.has(PadButton::A)
    }

    /// A snapshot with exactly the buttons of `bits` held.
    pub fn from_bits(bits: u64) -> (r: PadData)
        ensures
            r.bits() == bits,
    {
        PadData { buttons: bits }
    }

    /// The raw bitmask.
    pub fn raw(&self) -> (r: u64)
        ensures
            r == self.bits(),
    {
        self.buttons
    }

    /// Subset test: `true` exactly when every button of `other` is held.
    pub fn contains<P: Buttons>(&self, other: P) -> (r: bool)
        ensures
            r == self.includes(other.pad()),
    {
        let other: PadData = other.to_pad();
        self.buttons & other.buttons == other.buttons
    }

    /// Whether `button` is held.
    pub fn pressed(&self, button: PadButton) -> (r: bool)
        ensures
            r == self.has(button),
    {
        let mask = button.bits();
        self.buttons & mask == mask
    }

    /// `true` exactly when the A button is held.
    pub fn is_click(&self) -> (r: bool)
        ensures
            r == self.clicks(),
    {
        self.pressed(PadButton::A)
    }

    /// `true` exactly when no button is held.
    pub fn is_empty(&self) -> (r: bool)
        ensures
            r == (self.bits() == 0),
    {
        self.buttons == 0
    }
}

impl From<u64> for PadData {
    fn from(buttons: u64) -> (r: PadData) {
        PadData { buttons }
    }
}

impl vstd::std_specs::convert::FromSpecImpl<u64> for PadData {
    open spec fn obeys_from_spec() -> bool {
        true
    }

    open spec fn from_spec(buttons: u64) -> PadData {
        PadData::of(buttons)
    }
}

impl From<PadButton> for PadData {
    fn from(button: PadButton) -> (r: PadData) {
        PadData { buttons: button.bits() }
    }
}

impl vstd::std_specs::convert::FromSpecImpl<PadButton> for PadData {
    open spec fn obeys_from_spec() -> bool {
        true
    }

    open spec fn from_spec(button: PadButton) -> PadData {
        PadData::of(button.mask())
    }
}

impl PadData {
    /// The snapshot whose bitmask is `bits`.
    pub open spec fn of(bits: u64) -> PadData {
        PadData { buttons: bits }
    }
}

impl std::ops::Add<PadButton> for PadData {
    type Output = PadData;

    fn add(self, rhs: PadButton) -> (r: PadData) {
        PadData { buttons: self.buttons | rhs.bits() }
    }
}

impl vstd::std_specs::ops::AddSpecImpl<PadButton> for PadData {
    open spec fn obeys_add_spec() -> bool {
        true
    }

    open spec fn add_req(self, rhs: PadButton) -> bool {
        true
    }

    open spec fn add_spec(self, rhs: PadButton) -> PadData {
        PadData::of(self.bits() | rhs.mask())
    }
}

impl std::ops::Add<PadButton> for PadButton {
    type Output = PadData;

    fn add(self, rhs: PadButton) -> (r: PadData) {
        PadData { buttons: self.bits() | rhs.bits() }
    }
}

impl vstd::std_specs::ops::AddSpecImpl<PadButton> for PadButton {
    open spec fn obeys_add_spec() -> bool {
        true
    }

    open spec fn add_req(self, rhs: PadButton) -> bool {
        true
    }

    open spec fn add_spec(self, rhs: PadButton) -> PadData {
        PadData::of(self.mask() | rhs.mask())
    }
}

impl std::ops::BitOr<PadButton> for PadData {
    type Output = PadData;

    fn bitor(self, rhs: PadButton) -> (r: PadData) {
        PadData { buttons: self.buttons | rhs.bits() }
    }
}

impl vstd::std_specs::ops::BitOrSpecImpl<PadButton> for PadData {
    open spec fn obeys_bitor_spec() -> bool {
        true
    }

    open spec fn bitor_req(self, rhs: PadButton) -> bool {
        true
    }

    open spec fn bitor_spec(self, rhs: PadButton) -> PadData {
        PadData::of(self.bits() | rhs.mask())
    }
}

impl std::ops::BitOr<PadButton> for PadButton {
    type Output = PadData;

    fn bitor(self, rhs: PadButton) -> (r: PadData) {
        PadData { buttons: self.bits() | rhs.bits() }
    }
}

impl vstd::std_specs::ops::BitOrSpecImpl<PadButton> for PadButton {
    open spec fn obeys_bitor_spec() -> bool {
        true
    }

    open spec fn bitor_req(self, rhs: PadButton) -> bool {
        true
    }

    open spec fn bitor_spec(self, rhs: PadButton) -> PadData {
        PadData::of(self.mask() | rhs.mask())
    }
}

impl Default for PadData {
    fn default() -> (r: PadData)
        ensures
            r.bits() == 0,
    {
        PadData { buttons: 0 }
    }
}

} // verus!
