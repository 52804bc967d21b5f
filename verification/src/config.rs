//! The user's hotkey configuration.

use vstd::prelude::*;
use global_hotkey::hotkey::Modifiers;
use crate::keys::{KeyCode, key_name};
use crate::modifiers::{
    alt_bit, control_bit, meta_bit, modifier_alt, modifier_control, modifier_flags, modifier_meta,
    modifier_shift, modifiers_empty, modifiers_insert, modifiers_is_empty, shift_bit,
};

verus! {

/// Which modifiers and which key make up the global hotkey. `key` holds
/// the name of a key (see `KeyCode::name`).
#[derive(Debug, Clone)]
pub struct AppConfig {
    pub modifier_ctrl: bool,
    pub modifier_shift: bool,
    pub modifier_alt: bool,
    pub modifier_meta: bool,
    pub key: String,
}

/// The set holding `bit` when `b` holds, else the empty set.
pub open spec fn flag_if(b: bool, bit: u32) -> Set<u32> {
    if b {
        set![bit]
    } else {
        Set::empty()
    }
}

impl AppConfig {
    /// The flag bits that the configuration selects.
    pub open spec fn modifier_set(&self) -> Set<u32> {
        flag_if(self.modifier_ctrl, control_bit()).union(flag_if(self.modifier_shift, shift_bit())).union(
            flag_if(self.modifier_alt, alt_bit()),
        ).union(flag_if(self.modifier_meta, meta_bit()))
    }

    /// At least one modifier is selected.
    pub open spec fn has_modifier(&self) -> bool {
        self.modifier_ctrl || self.modifier_shift || self.modifier_alt || self.modifier_meta
    }

    /// The built-in hotkey: Ctrl+Shift+X.
    pub open spec fn is_default(&self) -> bool {
        &&& self.modifier_ctrl
        &&& self.modifier_shift
        &&& !self.modifier_alt
        &&& !self.modifier_meta
        &&& self.key@ == "KeyX"@
    }

    /// The configuration to use, given what was read from the
    /// configuration file: the parsed file if there is one, otherwise the
    /// built-in hotkey.
    pub fn load(parsed: Option<AppConfig>) -> (r: AppConfig)
        ensures
            parsed matches Some(c) ==> r == c,
            parsed is None ==> r.is_default(),
    {
        match parsed {
            Some(c) => c,
            None => AppConfig::default(),
        }
    }

    /// The selected modifiers, or `None` when none is selected.
    pub fn get_modifiers(&self) -> (r: Option<Modifiers>)
        ensures
            r is None <==> !self.has_modifier(),
            r matches Some(m) ==> modifier_flags(m) == self.modifier_set(),
            r matches Some(m) ==> {
                &&& modifier_flags(m).contains(control_bit()) == self.modifier_ctrl
                &&& modifier_flags(m).contains(shift_bit()) == self.modifier_shift
                &&& modifier_flags(m).contains(alt_bit()) == self.modifier_alt
                &&& modifier_flags(m).contains(meta_bit()) == self.modifier_meta
                &&& forall|b: u32| #[trigger] modifier_flags(m).contains(b) ==> b == control_bit()
                    || b == shift_bit() || b == alt_bit() || b == meta_bit()
            },
    {
        let mut mods = modifiers_empty();
        if self.modifier_ctrl {
            modifiers_insert(&mut mods, modifier_control());
        }
        if self.modifier_shift {
            modifiers_insert(&mut mods, modifier_shift());
        }
        if self.modifier_alt {
            modifiers_insert(&mut mods, modifier_alt());
        }
        if self.modifier_meta {
            modifiers_insert(&mut mods, modifier_meta());
        }
        assert(modifier_flags(mods) =~= self.modifier_set());
        proof {
            if self.has_modifier() {
                let bit = if self.modifier_ctrl {
                    control_bit()
                } else if self.modifier_shift {
                    shift_bit()
                } else if self.modifier_alt {
                    alt_bit()
                } else {
                    meta_bit()
                };
                assert(self.modifier_set().contains(bit));
            }
        }
        proof {
            lemma_modifier_set_follows_flags(*self);
        }
        if modifiers_is_empty(&mods) {
            None
        } else {
            Some(mods)
        }
    }

    /// The configured key; a name that no key has selects `KeyX`.
    pub fn get_code(&self) -> (r: KeyCode)
        ensures
            forall|k: KeyCode| key_name(k) == self.key@ ==> r == k,
            (forall|k: KeyCode| key_name(k) != self.key@) ==> r == KeyCode::KeyX,
    {
        KeyCode::from_name(self.key.as_str())
    }
}

/// Each modifier of the hotkey is chosen by its own flag of the
/// configuration, whatever the other flags are, and nothing else is chosen.
pub proof fn lemma_modifier_set_follows_flags(c: AppConfig)
    ensures
        c.modifier_set().contains(control_bit()) == c.modifier_ctrl,
        c.modifier_set().contains(shift_bit()) == c.modifier_shift,
        c.modifier_set().contains(alt_bit()) == c.modifier_alt,
        c.modifier_set().contains(meta_bit()) == c.modifier_meta,
        forall|b: u32| #[trigger] c.modifier_set().contains(b) ==> b == control_bit() || b == shift_bit()
            || b == alt_bit() || b == meta_bit(),
        c.modifier_set().is_empty() == !(c.modifier_ctrl || c.modifier_shift || c.modifier_alt
            || c.modifier_meta),
{
    if !c.modifier_set().is_empty() {
        let b = c.modifier_set().choose();
        assert(c.modifier_set().contains(b));
    }
    if c.modifier_ctrl {
        assert(c.modifier_set().contains(control_bit()));
    } else if c.modifier_shift {
        assert(c.modifier_set().contains(shift_bit()));
    } else if c.modifier_alt {
        assert(c.modifier_set().contains(alt_bit()));
    } else if c.modifier_meta {
        assert(c.modifier_set().contains(meta_bit()));
    } else {
        assert(c.modifier_set() =~= Set::<u32>::empty());
    }
}

/// The built-in hotkey is Ctrl+Shift+X: its modifiers are exactly Control
/// and Shift, and its key name is the name of `KeyX`.
pub proof fn lemma_default_hotkey(c: AppConfig)
    requires
        c.is_default(),
    ensures
        c.has_modifier(),
        c.modifier_set() == set![control_bit(), shift_bit()],
        key_name(KeyCode::KeyX) == c.key@,
{
    assert(c.modifier_set() =~= set![control_bit(), shift_bit()]);
}

impl Default for AppConfig {
    /// Ctrl+Shift+X.
    fn default() -> (r: AppConfig)
        ensures
            r.is_default(),
    {
        AppConfig {
            modifier_ctrl: true,
            modifier_shift: true,
            modifier_alt: false,
            modifier_meta: false,
            key: String::from_str("KeyX"),
        }
    }
}

} // verus!
