//! The modifier keys that are held down, decoded from the bits in which the
//! display server reports them.

use vstd::prelude::*;

verus! {

/// Which of the four modifiers that the windowing layer knows are held down.
#[derive(Clone, Copy, Debug, PartialEq, Eq, Structural)]
pub struct ModifiersState {
    pub shift: bool,
    pub ctrl: bool,
    pub alt: bool,
    pub logo: bool,
}

/// The bit of the shift key.
pub open spec fn spec_shift_mask() -> u32 {
    0x01
}

/// The bit of the control key.
pub open spec fn spec_control_mask() -> u32 {
    0x04
}

/// The bit of the first modifier, which the alt key holds.
pub open spec fn spec_mod1_mask() -> u32 {
    0x08
}

/// The bit of the fourth modifier, which the logo key holds.
pub open spec fn spec_mod4_mask() -> u32 {
    0x40
}

/// `x11_dl::xlib::ShiftMask`: 0x01.
#[verifier::external_body]
fn xlib_shift_mask() -> (mask: u32)
    ensures
        mask == spec_shift_mask(),
{
    x11_dl::xlib::ShiftMask
}

/// `x11_dl::xlib::ControlMask`: 0x04.
#[verifier::external_body]
fn xlib_control_mask() -> (mask: u32)
    ensures
        mask == spec_control_mask(),
{
    x11_dl::xlib::ControlMask
}

/// `x11_dl::xlib::Mod1Mask`: 0x08.
#[verifier::external_body]
fn xlib_mod1_mask() -> (mask: u32)
    ensures
        mask == spec_mod1_mask(),
{
    x11_dl::xlib::Mod1Mask
}

/// `x11_dl::xlib::Mod4Mask`: 0x40.
#[verifier::external_body]
fn xlib_mod4_mask() -> (mask: u32)
    ensures
        mask == spec_mod4_mask(),
{
    x11_dl::xlib::Mod4Mask
}

impl ModifiersState {
    /// No modifier held down.
    pub open spec fn spec_empty() -> ModifiersState {
        ModifiersState { shift: false, ctrl: false, alt: false, logo: false }
    }

    /// The modifiers whose bits are set in `mask`.
    pub open spec fn spec_from_x11_mask(mask: u32) -> ModifiersState {
        ModifiersState {
            shift: mask & spec_shift_mask() != 0,
            ctrl: mask & spec_control_mask() != 0,
            alt: mask & spec_mod1_mask() != 0,
            logo: mask & spec_mod4_mask() != 0,
        }
    }

    pub fn empty() -> (m: Self)
        ensures
            m == Self::spec_empty(),
    {
        ModifiersState { shift: false, ctrl: false, alt: false, logo: false }
    }

    /// The modifiers that the effective state of an input device reports.
    /// The state is read as the 32 bits that it is made of.
    pub fn from_x11(effective: i32) -> (m: Self)
        ensures
            m == Self::spec_from_x11_mask(effective as u32),
    {
        Self::from_x11_mask(#[verifier::truncate] (effective as u32))
    }

    /// The modifiers whose bits are set in `mask`: alt for the first
    /// modifier, logo for the fourth.
    pub fn from_x11_mask(mask: u32) -> (m: Self)
        ensures
            m == Self::spec_from_x11_mask(mask),
    {
        let mut m = ModifiersState::empty();
        m.alt = mask & xlib_mod1_mask() != 0;
        m.shift = mask & xlib_shift_mask() != 0;
        m.ctrl = mask & xlib_control_mask() != 0;
        m.logo = mask & xlib_mod4_mask() != 0;
        m
    }
}

} // verus!
