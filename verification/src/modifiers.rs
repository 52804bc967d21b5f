//! The modifier-key set of `global_hotkey`, seen by the library as the
//! set of flag bits it holds.

use vstd::prelude::*;
use global_hotkey::hotkey::Modifiers;

verus! {

/// `global_hotkey::hotkey::Modifiers` (keyboard-types' bitflags set of
/// modifier keys), carried through opaquely.
#[verifier::external_type_specification]
#[verifier::external_body]
pub struct ExModifiers(global_hotkey::hotkey::Modifiers);

/// The flag bits (single-bit values such as `0x8`) that are set in a
/// `Modifiers` value.
pub uninterp spec fn modifier_flags(m: Modifiers) -> Set<u32>;

/// Bit of `Modifiers::ALT`.
pub open spec fn alt_bit() -> u32 {
    0x01
}

/// Bit of `Modifiers::CONTROL`.
pub open spec fn control_bit() -> u32 {
    0x08
}

/// Bit of `Modifiers::META`.
pub open spec fn meta_bit() -> u32 {
    0x40
}

/// Bit of `Modifiers::SHIFT`.
pub open spec fn shift_bit() -> u32 {
    0x200
}

/// `Modifiers::empty()`: a value with no bit set.
#[verifier::external_body]
pub(crate) fn modifiers_empty() -> (r: Modifiers)
    ensures
        modifier_flags(r) == Set::<u32>::empty(),
{
    Modifiers::empty()
}

/// `Modifiers::insert`: sets the bits of `other` in `m` (a bitwise or).
#[verifier::external_body]
pub(crate) fn modifiers_insert(m: &mut Modifiers, other: Modifiers)
    ensures
        modifier_flags(*final(m)) == modifier_flags(*old(m)).union(modifier_flags(other)),
{
    m.insert(other)
}

/// `Modifiers::is_empty`: `true` exactly when no bit is set.
#[verifier::external_body]
pub(crate) fn modifiers_is_empty(m: &Modifiers) -> (r: bool)
    ensures
        r == modifier_flags(*m).is_empty(),
{
    m.is_empty()
}

/// The constant `Modifiers::ALT` (`0x01` in keyboard-types).
#[verifier::external_body]
pub(crate) fn modifier_alt() -> (r: Modifiers)
    ensures
        modifier_flags(r) == set![alt_bit()],
{
    Modifiers::ALT
}

/// The constant `Modifiers::CONTROL` (`0x08` in keyboard-types).
#[verifier::external_body]
pub(crate) fn modifier_control() -> (r: Modifiers)
    ensures
        modifier_flags(r) == set![control_bit()],
{
    Modifiers::CONTROL
}

/// The constant `Modifiers::META` (`0x40` in keyboard-types).
#[verifier::external_body]
pub(crate) fn modifier_meta() -> (r: Modifiers)
    ensures
        modifier_flags(r) == set![meta_bit()],
{
    Modifiers::META
}

/// The constant `Modifiers::SHIFT` (`0x200` in keyboard-types).
#[verifier::external_body]
pub(crate) fn modifier_shift() -> (r: Modifiers)
    ensures
        modifier_flags(r) == set![shift_bit()],
{
    Modifiers::SHIFT
}

} // verus!
