//! Icon and button-set kinds for the native dialog, and the packed style
//! value that the platform call expects.
//!
//! The platform encodes both choices in one unsigned integer: the icon
//! constants occupy a high nibble (multiples of 0x10) and the button-set
//! constants the low nibble (0 through 6), so their sum decomposes uniquely.
use vstd::prelude::*;

verus! {

/// The icon shown beside the message, if any.
#[derive(Copy, Clone, PartialEq, Eq, Structural, Debug)]
pub enum ICON {
    NoIcon,
    Error,
    Question,
    Warning,
    Information,
}

/// The set of buttons the dialog offers.
#[derive(Copy, Clone, PartialEq, Eq, Structural, Debug)]
pub enum BUTTON {
    OkOnly,
    OkCancel,
    Abortretryignore,
    YesNoCancel,
    YesNo,
    RetryCancel,
    Canceltrycontinue,
}

/// The platform style constant for an icon kind.
pub open spec fn icon_value(icon: ICON) -> u32 {
    match icon {
        ICON::NoIcon => 0x00,
        ICON::Error => 0x10,
        ICON::Question => 0x20,
        ICON::Warning => 0x30,
        ICON::Information => 0x40,
    }
}

/// The platform style constant for a button-set kind.
pub open spec fn button_value(button: BUTTON) -> u32 {
    match button {
        BUTTON::OkOnly => 0x0,
        BUTTON::OkCancel => 0x1,
        BUTTON::Abortretryignore => 0x2,
        BUTTON::YesNoCancel => 0x3,
        BUTTON::YesNo => 0x4,
        BUTTON::RetryCancel => 0x5,
        BUTTON::Canceltrycontinue => 0x6,
    }
}

/// Computes the platform style constant for an icon kind.
pub fn icon_constant(icon: ICON) -> (r: u32)
    ensures
        r == icon_value(icon),
        r <= 0x40,
{
    match icon {
        ICON::NoIcon => 0x00,
        ICON::Error => 0x10,
        ICON::Question => 0x20,
        ICON::Warning => 0x30,
        ICON::Information => 0x40,
    }
}

/// Computes the platform style constant for a button-set kind.
pub fn button_constant(button: BUTTON) -> (r: u32)
    ensures
        r == button_value(button),
        r <= 0x6,
{
    match button {
        BUTTON::OkOnly => 0x0,
        BUTTON::OkCancel => 0x1,
        BUTTON::Abortretryignore => 0x2,
        BUTTON::YesNoCancel => 0x3,
        BUTTON::YesNo => 0x4,
        BUTTON::RetryCancel => 0x5,
        BUTTON::Canceltrycontinue => 0x6,
    }
}

/// The packed style value: the sum of the two constants. The ranges are
/// disjoint, so the sum never overflows and identifies both kinds.
pub open spec fn style_of(icon: ICON, button: BUTTON) -> u32 {
    (icon_value(icon) + button_value(button)) as u32
}

/// The packed style value determines the icon kind and the button-set kind:
/// no two distinct `(icon, button)` pairs share a style value.
pub proof fn lemma_style_injective(i1: ICON, b1: BUTTON, i2: ICON, b2: BUTTON)
    ensures
        style_of(i1, b1) == style_of(i2, b2) ==> (i1 == i2 && b1 == b2),
{
}

} // verus!
