//! The keys a hotkey can be bound to, and their textual names.

use vstd::prelude::*;
use crate::text::str_equal;

verus! {

/// A key that the global hotkey can use: the letters, the digit row and
/// the function keys F1 to F12.
#[derive(Clone, Copy, Debug, PartialEq, Eq, Structural)]
pub enum KeyCode {
    KeyA,
    KeyB,
    KeyC,
    KeyD,
    KeyE,
    KeyF,
    KeyG,
    KeyH,
    KeyI,
    KeyJ,
    KeyK,
    KeyL,
    KeyM,
    KeyN,
    KeyO,
    KeyP,
    KeyQ,
    KeyR,
    KeyS,
    KeyT,
    KeyU,
    KeyV,
    KeyW,
    KeyX,
    KeyY,
    KeyZ,
    Digit0,
    Digit1,
    Digit2,
    Digit3,
    Digit4,
    Digit5,
    Digit6,
    Digit7,
    Digit8,
    Digit9,
    F1,
    F2,
    F3,
    F4,
    F5,
    F6,
    F7,
    F8,
    F9,
    F10,
    F11,
    F12,
}

/// The name of a key, as stored in the configuration file.
pub open spec fn key_name(k: KeyCode) -> Seq<char> {
    match k {
        KeyCode::KeyA => "KeyA"@,
        KeyCode::KeyB => "KeyB"@,
        KeyCode::KeyC => "KeyC"@,
        KeyCode::KeyD => "KeyD"@,
        KeyCode::KeyE => "KeyE"@,
        KeyCode::KeyF => "KeyF"@,
        KeyCode::KeyG => "KeyG"@,
        KeyCode::KeyH => "KeyH"@,
        KeyCode::KeyI => "KeyI"@,
        KeyCode::KeyJ => "KeyJ"@,
        KeyCode::KeyK => "KeyK"@,
        KeyCode::KeyL => "KeyL"@,
        KeyCode::KeyM => "KeyM"@,
        KeyCode::KeyN => "KeyN"@,
        KeyCode::KeyO => "KeyO"@,
        KeyCode::KeyP => "KeyP"@,
        KeyCode::KeyQ => "KeyQ"@,
        KeyCode::KeyR => "KeyR"@,
        KeyCode::KeyS => "KeyS"@,
        KeyCode::KeyT => "KeyT"@,
        KeyCode::KeyU => "KeyU"@,
        KeyCode::KeyV => "KeyV"@,
        KeyCode::KeyW => "KeyW"@,
        KeyCode::KeyX => "KeyX"@,
        KeyCode::KeyY => "KeyY"@,
        KeyCode::KeyZ => "KeyZ"@,
        KeyCode::Digit0 => "Digit0"@,
        KeyCode::Digit1 => "Digit1"@,
        KeyCode::Digit2 => "Digit2"@,
        KeyCode::Digit3 => "Digit3"@,
        KeyCode::Digit4 => "Digit4"@,
        KeyCode::Digit5 => "Digit5"@,
        KeyCode::Digit6 => "Digit6"@,
        KeyCode::Digit7 => "Digit7"@,
        KeyCode::Digit8 => "Digit8"@,
        KeyCode::Digit9 => "Digit9"@,
        KeyCode::F1 => "F1"@,
        KeyCode::F2 => "F2"@,
        KeyCode::F3 => "F3"@,
        KeyCode::F4 => "F4"@,
        KeyCode::F5 => "F5"@,
        KeyCode::F6 => "F6"@,
        KeyCode::F7 => "F7"@,
        KeyCode::F8 => "F8"@,
        KeyCode::F9 => "F9"@,
        KeyCode::F10 => "F10"@,
        KeyCode::F11 => "F11"@,
        KeyCode::F12 => "F12"@,
    }
}

/// The key at position `i` of the settings panel's list.
pub open spec fn key_at(i: int) -> KeyCode {
    if i == 0 {
        KeyCode::KeyA
    } else if i == 1 {
        KeyCode::KeyB
    } else if i == 2 {
        KeyCode::KeyC
    } else if i == 3 {
        KeyCode::KeyD
    } else if i == 4 {
        KeyCode::KeyE
    } else if i == 5 {
        KeyCode::KeyF
    } else if i == 6 {
        KeyCode::KeyG
    } else if i == 7 {
        KeyCode::KeyH
    } else if i == 8 {
        KeyCode::KeyI
    } else if i == 9 {
        KeyCode::KeyJ
    } else if i == 10 {
        KeyCode::KeyK
    } else if i == 11 {
        KeyCode::KeyL
    } else if i == 12 {
        KeyCode::KeyM
    } else if i == 13 {
        KeyCode::KeyN
    } else if i == 14 {
        KeyCode::KeyO
    } else if i == 15 {
        KeyCode::KeyP
    } else if i == 16 {
        KeyCode::KeyQ
    } else if i == 17 {
        KeyCode::KeyR
    } else if i == 18 {
        KeyCode::KeyS
    } else if i == 19 {
        KeyCode::KeyT
    } else if i == 20 {
        KeyCode::KeyU
    } else if i == 21 {
        KeyCode::KeyV
    } else if i == 22 {
        KeyCode::KeyW
    } else if i == 23 {
        KeyCode::KeyX
    } else if i == 24 {
        KeyCode::KeyY
    } else if i == 25 {
        KeyCode::KeyZ
    } else if i == 26 {
        KeyCode::Digit0
    } else if i == 27 {
        KeyCode::Digit1
    } else if i == 28 {
        KeyCode::Digit2
    } else if i == 29 {
        KeyCode::Digit3
    } else if i == 30 {
        KeyCode::Digit4
    } else if i == 31 {
        KeyCode::Digit5
    } else if i == 32 {
        KeyCode::Digit6
    } else if i == 33 {
        KeyCode::Digit7
    } else if i == 34 {
        KeyCode::Digit8
    } else if i == 35 {
        KeyCode::Digit9
    } else if i == 36 {
        KeyCode::F1
    } else if i == 37 {
        KeyCode::F2
    } else if i == 38 {
        KeyCode::F3
    } else if i == 39 {
        KeyCode::F4
    } else if i == 40 {
        KeyCode::F5
    } else if i == 41 {
        KeyCode::F6
    } else if i == 42 {
        KeyCode::F7
    } else if i == 43 {
        KeyCode::F8
    } else if i == 44 {
        KeyCode::F9
    } else if i == 45 {
        KeyCode::F10
    } else if i == 46 {
        KeyCode::F11
    } else {
        KeyCode::F12
    }
}

/// Every key, in the order in which the settings panel offers them.
pub open spec fn all_key_codes() -> Seq<KeyCode> {
    Seq::new(48, |i: int| key_at(i))
}

/// Position of a key in `all_key_codes()`.
pub open spec fn key_index(k: KeyCode) -> int {
    match k {
        KeyCode::KeyA => 0,
        KeyCode::KeyB => 1,
        KeyCode::KeyC => 2,
        KeyCode::KeyD => 3,
        KeyCode::KeyE => 4,
        KeyCode::KeyF => 5,
        KeyCode::KeyG => 6,
        KeyCode::KeyH => 7,
        KeyCode::KeyI => 8,
        KeyCode::KeyJ => 9,
        KeyCode::KeyK => 10,
        KeyCode::KeyL => 11,
        KeyCode::KeyM => 12,
        KeyCode::KeyN => 13,
        KeyCode::KeyO => 14,
        KeyCode::KeyP => 15,
        KeyCode::KeyQ => 16,
        KeyCode::KeyR => 17,
        KeyCode::KeyS => 18,
        KeyCode::KeyT => 19,
        KeyCode::KeyU => 20,
        KeyCode::KeyV => 21,
        KeyCode::KeyW => 22,
        KeyCode::KeyX => 23,
        KeyCode::KeyY => 24,
        KeyCode::KeyZ => 25,
        KeyCode::Digit0 => 26,
        KeyCode::Digit1 => 27,
        KeyCode::Digit2 => 28,
        KeyCode::Digit3 => 29,
        KeyCode::Digit4 => 30,
        KeyCode::Digit5 => 31,
        KeyCode::Digit6 => 32,
        KeyCode::Digit7 => 33,
        KeyCode::Digit8 => 34,
        KeyCode::Digit9 => 35,
        KeyCode::F1 => 36,
        KeyCode::F2 => 37,
        KeyCode::F3 => 38,
        KeyCode::F4 => 39,
        KeyCode::F5 => 40,
        KeyCode::F6 => 41,
        KeyCode::F7 => 42,
        KeyCode::F8 => 43,
        KeyCode::F9 => 44,
        KeyCode::F10 => 45,
        KeyCode::F11 => 46,
        KeyCode::F12 => 47,
    }
}

/// Length and last character of a key's name; no two keys share both.
spec fn key_signature(k: KeyCode) -> (nat, char) {
    match k {
        KeyCode::KeyA => (4, 'A'),
        KeyCode::KeyB => (4, 'B'),
        KeyCode::KeyC => (4, 'C'),
        KeyCode::KeyD => (4, 'D'),
        KeyCode::KeyE => (4, 'E'),
        KeyCode::KeyF => (4, 'F'),
        KeyCode::KeyG => (4, 'G'),
        KeyCode::KeyH => (4, 'H'),
        KeyCode::KeyI => (4, 'I'),
        KeyCode::KeyJ => (4, 'J'),
        KeyCode::KeyK => (4, 'K'),
        KeyCode::KeyL => (4, 'L'),
        KeyCode::KeyM => (4, 'M'),
        KeyCode::KeyN => (4, 'N'),
        KeyCode::KeyO => (4, 'O'),
        KeyCode::KeyP => (4, 'P'),
        KeyCode::KeyQ => (4, 'Q'),
        KeyCode::KeyR => (4, 'R'),
        KeyCode::KeyS => (4, 'S'),
        KeyCode::KeyT => (4, 'T'),
        KeyCode::KeyU => (4, 'U'),
        KeyCode::KeyV => (4, 'V'),
        KeyCode::KeyW => (4, 'W'),
        KeyCode::KeyX => (4, 'X'),
        KeyCode::KeyY => (4, 'Y'),
        KeyCode::KeyZ => (4, 'Z'),
        KeyCode::Digit0 => (6, '0'),
        KeyCode::Digit1 => (6, '1'),
        KeyCode::Digit2 => (6, '2'),
        KeyCode::Digit3 => (6, '3'),
        KeyCode::Digit4 => (6, '4'),
        KeyCode::Digit5 => (6, '5'),
        KeyCode::Digit6 => (6, '6'),
        KeyCode::Digit7 => (6, '7'),
        KeyCode::Digit8 => (6, '8'),
        KeyCode::Digit9 => (6, '9'),
        KeyCode::F1 => (2, '1'),
        KeyCode::F2 => (2, '2'),
        KeyCode::F3 => (2, '3'),
        KeyCode::F4 => (2, '4'),
        KeyCode::F5 => (2, '5'),
        KeyCode::F6 => (2, '6'),
        KeyCode::F7 => (2, '7'),
        KeyCode::F8 => (2, '8'),
        KeyCode::F9 => (2, '9'),
        KeyCode::F10 => (3, '0'),
        KeyCode::F11 => (3, '1'),
        KeyCode::F12 => (3, '2'),
    }
}

spec fn key_of_signature(len: nat, last: char) -> KeyCode {
    if len == 4 {
        if last == 'A' { KeyCode::KeyA } else
        if last == 'B' { KeyCode::KeyB } else
        if last == 'C' { KeyCode::KeyC } else
        if last == 'D' { KeyCode::KeyD } else
        if last == 'E' { KeyCode::KeyE } else
        if last == 'F' { KeyCode::KeyF } else
        if last == 'G' { KeyCode::KeyG } else
        if last == 'H' { KeyCode::KeyH } else
        if last == 'I' { KeyCode::KeyI } else
        if last == 'J' { KeyCode::KeyJ } else
        if last == 'K' { KeyCode::KeyK } else
        if last == 'L' { KeyCode::KeyL } else
        if last == 'M' { KeyCode::KeyM } else
        if last == 'N' { KeyCode::KeyN } else
        if last == 'O' { KeyCode::KeyO } else
        if last == 'P' { KeyCode::KeyP } else
        if last == 'Q' { KeyCode::KeyQ } else
        if last == 'R' { KeyCode::KeyR } else
        if last == 'S' { KeyCode::KeyS } else
        if last == 'T' { KeyCode::KeyT } else
        if last == 'U' { KeyCode::KeyU } else
        if last == 'V' { KeyCode::KeyV } else
        if last == 'W' { KeyCode::KeyW } else
        if last == 'X' { KeyCode::KeyX } else
        if last == 'Y' { KeyCode::KeyY } else
        { KeyCode::KeyZ }
    } else if len == 6 {
        if last == '0' { KeyCode::Digit0 } else
        if last == '1' { KeyCode::Digit1 } else
        if last == '2' { KeyCode::Digit2 } else
        if last == '3' { KeyCode::Digit3 } else
        if last == '4' { KeyCode::Digit4 } else
        if last == '5' { KeyCode::Digit5 } else
        if last == '6' { KeyCode::Digit6 } else
        if last == '7' { KeyCode::Digit7 } else
        if last == '8' { KeyCode::Digit8 } else
        { KeyCode::Digit9 }
    } else if len == 2 {
        if last == '1' { KeyCode::F1 } else
        if last == '2' { KeyCode::F2 } else
        if last == '3' { KeyCode::F3 } else
        if last == '4' { KeyCode::F4 } else
        if last == '5' { KeyCode::F5 } else
        if last == '6' { KeyCode::F6 } else
        if last == '7' { KeyCode::F7 } else
        if last == '8' { KeyCode::F8 } else
        { KeyCode::F9 }
    } else if len == 3 {
        if last == '0' { KeyCode::F10 } else
        if last == '1' { KeyCode::F11 } else
        { KeyCode::F12 }
    } else {
        KeyCode::KeyX
    }
}

proof fn lemma_key_signature_inverse(k: KeyCode)
    ensures
        key_of_signature(key_signature(k).0, key_signature(k).1) == k,
{
}

proof fn lemma_key_name_signature(k: KeyCode)
    ensures
        key_name(k).len() == key_signature(k).0,
        key_name(k).last() == key_signature(k).1,
{
    reveal_strlit("KeyA");
    reveal_strlit("KeyB");
    reveal_strlit("KeyC");
    reveal_strlit("KeyD");
    reveal_strlit("KeyE");
    reveal_strlit("KeyF");
    reveal_strlit("KeyG");
    reveal_strlit("KeyH");
    reveal_strlit("KeyI");
    reveal_strlit("KeyJ");
    reveal_strlit("KeyK");
    reveal_strlit("KeyL");
    reveal_strlit("KeyM");
    reveal_strlit("KeyN");
    reveal_strlit("KeyO");
    reveal_strlit("KeyP");
    reveal_strlit("KeyQ");
    reveal_strlit("KeyR");
    reveal_strlit("KeyS");
    reveal_strlit("KeyT");
    reveal_strlit("KeyU");
    reveal_strlit("KeyV");
    reveal_strlit("KeyW");
    reveal_strlit("KeyX");
    reveal_strlit("KeyY");
    reveal_strlit("KeyZ");
    reveal_strlit("Digit0");
    reveal_strlit("Digit1");
    reveal_strlit("Digit2");
    reveal_strlit("Digit3");
    reveal_strlit("Digit4");
    reveal_strlit("Digit5");
    reveal_strlit("Digit6");
    reveal_strlit("Digit7");
    reveal_strlit("Digit8");
    reveal_strlit("Digit9");
    reveal_strlit("F1");
    reveal_strlit("F2");
    reveal_strlit("F3");
    reveal_strlit("F4");
    reveal_strlit("F5");
    reveal_strlit("F6");
    reveal_strlit("F7");
    reveal_strlit("F8");
    reveal_strlit("F9");
    reveal_strlit("F10");
    reveal_strlit("F11");
    reveal_strlit("F12");
}

/// Distinct keys have distinct names.
pub proof fn lemma_key_name_injective(a: KeyCode, b: KeyCode)
    requires
        key_name(a) == key_name(b),
    ensures
        a == b,
{
    lemma_key_name_signature(a);
    lemma_key_name_signature(b);
    lemma_key_signature_inverse(a);
    lemma_key_signature_inverse(b);
}

/// Every key occurs in `all_key_codes()`, at `key_index`.
pub proof fn lemma_all_key_codes_complete(k: KeyCode)
    ensures
        0 <= key_index(k) < all_key_codes().len(),
        all_key_codes()[key_index(k)] == k,
{
}

impl KeyCode {
    fn at(i: usize) -> (r: KeyCode)
        requires
            i < 48,
        ensures
            r == key_at(i as int),
    {
        match i {
            0 => KeyCode::KeyA,
            1 => KeyCode::KeyB,
            2 => KeyCode::KeyC,
            3 => KeyCode::KeyD,
            4 => KeyCode::KeyE,
            5 => KeyCode::KeyF,
            6 => KeyCode::KeyG,
            7 => KeyCode::KeyH,
            8 => KeyCode::KeyI,
            9 => KeyCode::KeyJ,
            10 => KeyCode::KeyK,
            11 => KeyCode::KeyL,
            12 => KeyCode::KeyM,
            13 => KeyCode::KeyN,
            14 => KeyCode::KeyO,
            15 => KeyCode::KeyP,
            16 => KeyCode::KeyQ,
            17 => KeyCode::KeyR,
            18 => KeyCode::KeyS,
            19 => KeyCode::KeyT,
            20 => KeyCode::KeyU,
            21 => KeyCode::KeyV,
            22 => KeyCode::KeyW,
            23 => KeyCode::KeyX,
            24 => KeyCode::KeyY,
            25 => KeyCode::KeyZ,
            26 => KeyCode::Digit0,
            27 => KeyCode::Digit1,
            28 => KeyCode::Digit2,
            29 => KeyCode::Digit3,
            30 => KeyCode::Digit4,
            31 => KeyCode::Digit5,
            32 => KeyCode::Digit6,
            33 => KeyCode::Digit7,
            34 => KeyCode::Digit8,
            35 => KeyCode::Digit9,
            36 => KeyCode::F1,
            37 => KeyCode::F2,
            38 => KeyCode::F3,
            39 => KeyCode::F4,
            40 => KeyCode::F5,
            41 => KeyCode::F6,
            42 => KeyCode::F7,
            43 => KeyCode::F8,
            44 => KeyCode::F9,
            45 => KeyCode::F10,
            46 => KeyCode::F11,
            _ => KeyCode::F12,
        }
    }

    /// The key's name, as the configuration file stores it.
    pub fn name(&self) -> (r: &'static str)
        ensures
            r@ == key_name(*self),
    {
        match self {
            KeyCode::KeyA => "KeyA",
            KeyCode::KeyB => "KeyB",
            KeyCode::KeyC => "KeyC",
            KeyCode::KeyD => "KeyD",
            KeyCode::KeyE => "KeyE",
            KeyCode::KeyF => "KeyF",
            KeyCode::KeyG => "KeyG",
            KeyCode::KeyH => "KeyH",
            KeyCode::KeyI => "KeyI",
            KeyCode::KeyJ => "KeyJ",
            KeyCode::KeyK => "KeyK",
            KeyCode::KeyL => "KeyL",
            KeyCode::KeyM => "KeyM",
            KeyCode::KeyN => "KeyN",
            KeyCode::KeyO => "KeyO",
            KeyCode::KeyP => "KeyP",
            KeyCode::KeyQ => "KeyQ",
            KeyCode::KeyR => "KeyR",
            KeyCode::KeyS => "KeyS",
            KeyCode::KeyT => "KeyT",
            KeyCode::KeyU => "KeyU",
            KeyCode::KeyV => "KeyV",
            KeyCode::KeyW => "KeyW",
            KeyCode::KeyX => "KeyX",
            KeyCode::KeyY => "KeyY",
            KeyCode::KeyZ => "KeyZ",
            KeyCode::Digit0 => "Digit0",
            KeyCode::Digit1 => "Digit1",
            KeyCode::Digit2 => "Digit2",
            KeyCode::Digit3 => "Digit3",
            KeyCode::Digit4 => "Digit4",
            KeyCode::Digit5 => "Digit5",
            KeyCode::Digit6 => "Digit6",
            KeyCode::Digit7 => "Digit7",
            KeyCode::Digit8 => "Digit8",
            KeyCode::Digit9 => "Digit9",
            KeyCode::F1 => "F1",
            KeyCode::F2 => "F2",
            KeyCode::F3 => "F3",
            KeyCode::F4 => "F4",
            KeyCode::F5 => "F5",
            KeyCode::F6 => "F6",
            KeyCode::F7 => "F7",
            KeyCode::F8 => "F8",
            KeyCode::F9 => "F9",
            KeyCode::F10 => "F10",
            KeyCode::F11 => "F11",
            KeyCode::F12 => "F12",
        }
    }

    /// Every key, in the order in which the settings panel lists them.
    pub fn all() -> (r: Vec<KeyCode>)
        ensures
            r@ == all_key_codes(),
    {
        let mut v: Vec<KeyCode> = Vec::new();
        let mut i: usize = 0;
        while i < 48
            invariant
                i <= 48,
                v@ == all_key_codes().subrange(0, i as int),
            decreases 48 - i,
        {
            v.push(Self::at(i));
            assert(v@ =~= all_key_codes().subrange(0, i + 1));
            i = i + 1;
        }
        assert(v@ =~= all_key_codes());
        v
    }

    /// The key whose name is `s`; a name that no key has selects `KeyX`.
    pub fn from_name(s: &str) -> (r: KeyCode)
        ensures
            forall|k: KeyCode| key_name(k) == s@ ==> r == k,
            (forall|k: KeyCode| key_name(k) != s@) ==> r == KeyCode::KeyX,
    {
        let keys = KeyCode::all();
        let mut i: usize = 0;
        while i < keys.len()
            invariant
                keys@ == all_key_codes(),
                i <= keys.len(),
                forall|j: int| 0 <= j < i ==> key_name(#[trigger] keys@[j]) != s@,
            decreases keys.len() - i,
        {
            let k = keys[i];
            if str_equal(k.name(), s) {
                proof {
                    assert forall|other: KeyCode| key_name(other) == s@ implies k == other by {
                        lemma_key_name_injective(k, other);
                    }
                }
                return k;
            }
            i = i + 1;
        }
        proof {
            assert forall|k: KeyCode| key_name(k) != s@ by {
                lemma_all_key_codes_complete(k);
                assert(keys@[key_index(k)] == k);
            }
        }
        KeyCode::KeyX
    }
}

} // verus!
