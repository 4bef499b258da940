//! The keyboard usage codes that the keypad reports, taken from `usbd_hid`.
//!
//! Each function reads one variant of `usbd_hid::descriptor::KeyboardUsage` as
//! its byte. The value in each contract is the discriminant that the enum's
//! declaration gives the variant; Verus takes it on trust.

use usbd_hid::descriptor::KeyboardUsage;
use vstd::prelude::*;

verus! {

/// `KeyboardUsage::Keyboard0CloseParens` as a byte, which the enum declares as `0x27`.
#[verifier::external_body]
pub(crate) fn keyboard_0() -> (code: u8)
    ensures
        code == 0x27,
{
    KeyboardUsage::Keyboard0CloseParens as u8
}

/// `KeyboardUsage::Keyboard1Exclamation` as a byte, which the enum declares as `0x1E`.
#[verifier::external_body]
pub(crate) fn keyboard_1() -> (code: u8)
    ensures
        code == 0x1E,
{
    KeyboardUsage::Keyboard1Exclamation as u8
}

/// `KeyboardUsage::Keyboard2At` as a byte, which the enum declares as `0x1F`.
#[verifier::external_body]
pub(crate) fn keyboard_2() -> (code: u8)
    ensures
        code == 0x1F,
{
    KeyboardUsage::Keyboard2At as u8
}

/// `KeyboardUsage::Keyboard3Hash` as a byte, which the enum declares as `0x20`.
#[verifier::external_body]
pub(crate) fn keyboard_3() -> (code: u8)
    ensures
        code == 0x20,
{
    KeyboardUsage::Keyboard3Hash as u8
}

/// `KeyboardUsage::Keyboard4Dollar` as a byte, which the enum declares as `0x21`.
#[verifier::external_body]
pub(crate) fn keyboard_4() -> (code: u8)
    ensures
        code == 0x21,
{
    KeyboardUsage::Keyboard4Dollar as u8
}

/// `KeyboardUsage::Keyboard5Percent` as a byte, which the enum declares as `0x22`.
#[verifier::external_body]
pub(crate) fn keyboard_5() -> (code: u8)
    ensures
        code == 0x22,
{
    KeyboardUsage::Keyboard5Percent as u8
}

/// `KeyboardUsage::Keyboard6Caret` as a byte, which the enum declares as `0x23`.
#[verifier::external_body]
pub(crate) fn keyboard_6() -> (code: u8)
    ensures
        code == 0x23,
{
    KeyboardUsage::Keyboard6Caret as u8
}

/// `KeyboardUsage::Keyboard7Ampersand` as a byte, which the enum declares as `0x24`.
#[verifier::external_body]
pub(crate) fn keyboard_7() -> (code: u8)
    ensures
        code == 0x24,
{
    KeyboardUsage::Keyboard7Ampersand as u8
}

/// `KeyboardUsage::Keyboard8Asterisk` as a byte, which the enum declares as `0x25`.
#[verifier::external_body]
pub(crate) fn keyboard_8() -> (code: u8)
    ensures
        code == 0x25,
{
    KeyboardUsage::Keyboard8Asterisk as u8
}

/// `KeyboardUsage::Keyboard9OpenParens` as a byte, which the enum declares as `0x26`.
#[verifier::external_body]
pub(crate) fn keyboard_9() -> (code: u8)
    ensures
        code == 0x26,
{
    KeyboardUsage::Keyboard9OpenParens as u8
}

/// `KeyboardUsage::KeyboardAa` as a byte, which the enum declares as `0x04`.
#[verifier::external_body]
pub(crate) fn keyboard_a() -> (code: u8)
    ensures
        code == 0x04,
{
    KeyboardUsage::KeyboardAa as u8
}

/// `KeyboardUsage::KeyboardBb` as a byte, which the enum declares as `0x05`.
#[verifier::external_body]
pub(crate) fn keyboard_b() -> (code: u8)
    ensures
        code == 0x05,
{
    KeyboardUsage::KeyboardBb as u8
}

/// `KeyboardUsage::KeyboardCc` as a byte, which the enum declares as `0x06`.
#[verifier::external_body]
pub(crate) fn keyboard_c() -> (code: u8)
    ensures
        code == 0x06,
{
    KeyboardUsage::KeyboardCc as u8
}

/// `KeyboardUsage::KeyboardDd` as a byte, which the enum declares as `0x07`.
#[verifier::external_body]
pub(crate) fn keyboard_d() -> (code: u8)
    ensures
        code == 0x07,
{
    KeyboardUsage::KeyboardDd as u8
}

/// `KeyboardUsage::KeypadMultiply` as a byte, which the enum declares as `0x55`.
#[verifier::external_body]
pub(crate) fn keypad_multiply() -> (code: u8)
    ensures
        code == 0x55,
{
    KeyboardUsage::KeypadMultiply as u8
}

/// `KeyboardUsage::KeyboardDashUnderscore` as a byte, which the enum declares as `0x2D`.
#[verifier::external_body]
pub(crate) fn keyboard_dash() -> (code: u8)
    ensures
        code == 0x2D,
{
    KeyboardUsage::KeyboardDashUnderscore as u8
}

} // verus!
