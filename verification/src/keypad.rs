use vstd::prelude::*;

verus! {

/// The sixteen host keys that stand for the CHIP-8 hex keypad, named by their position on a
/// QWERTY keyboard:
///
/// ```text
/// 1 2 3 C      1 2 3 4
/// 4 5 6 D      Q W E R
/// 7 8 9 E  ->  A S D F
/// A 0 B F      Z X C V
/// ```
#[derive(Debug, Clone, Copy, PartialEq, Eq, Structural)]
pub enum HostKey {
    Digit1,
    Digit2,
    Digit3,
    Digit4,
    KeyQ,
    KeyW,
    KeyE,
    KeyR,
    KeyA,
    KeyS,
    KeyD,
    KeyF,
    KeyZ,
    KeyX,
    KeyC,
    KeyV,
}

/// The keypad key (0x0..=0xF) that a host key stands for.
pub open spec fn spec_keypad_index(key: HostKey) -> u8 {
    match key {
        HostKey::KeyX => 0x0,
        HostKey::Digit1 => 0x1,
        HostKey::Digit2 => 0x2,
        HostKey::Digit3 => 0x3,
        HostKey::KeyQ => 0x4,
        HostKey::KeyW => 0x5,
        HostKey::KeyE => 0x6,
        HostKey::KeyA => 0x7,
        HostKey::KeyS => 0x8,
        HostKey::KeyD => 0x9,
        HostKey::KeyZ => 0xA,
        HostKey::KeyC => 0xB,
        HostKey::Digit4 => 0xC,
        HostKey::KeyR => 0xD,
        HostKey::KeyF => 0xE,
        HostKey::KeyV => 0xF,
    }
}

/// The host key that stands for keypad key `k` (for `k` in 0x0..=0xF).
pub open spec fn spec_host_key(k: u8) -> HostKey {
    if k == 0x0 {
        HostKey::KeyX
    } else if k == 0x1 {
        HostKey::Digit1
    } else if k == 0x2 {
        HostKey::Digit2
    } else if k == 0x3 {
        HostKey::Digit3
    } else if k == 0x4 {
        HostKey::KeyQ
    } else if k == 0x5 {
        HostKey::KeyW
    } else if k == 0x6 {
        HostKey::KeyE
    } else if k == 0x7 {
        HostKey::KeyA
    } else if k == 0x8 {
        HostKey::KeyS
    } else if k == 0x9 {
        HostKey::KeyD
    } else if k == 0xA {
        HostKey::KeyZ
    } else if k == 0xB {
        HostKey::KeyC
    } else if k == 0xC {
        HostKey::Digit4
    } else if k == 0xD {
        HostKey::KeyR
    } else if k == 0xE {
        HostKey::KeyF
    } else {
        HostKey::KeyV
    }
}

/// The keypad key (0x0..=0xF) that `key` stands for.
pub fn keypad_index(key: HostKey) -> (k: u8)
    ensures
        k == spec_keypad_index(key),
        k < 16,
{
    match key {
        HostKey::KeyX => 0x0,
        HostKey::KeyZ => 0xA,
        HostKey::KeyC => 0xB,
        HostKey::KeyV => 0xF,
        HostKey::KeyA => 0x7,
        HostKey::KeyS => 0x8,
        HostKey::KeyD => 0x9,
        HostKey::KeyF => 0xE,
        HostKey::KeyQ => 0x4,
        HostKey::KeyW => 0x5,
        HostKey::KeyE => 0x6,
        HostKey::KeyR => 0xD,
        HostKey::Digit1 => 0x1,
        HostKey::Digit2 => 0x2,
        HostKey::Digit3 => 0x3,
        HostKey::Digit4 => 0xC,
    }
}

/// Every keypad key is reached by exactly one host key: `spec_host_key` undoes
/// `spec_keypad_index` and the other way round.
pub proof fn keypad_layout_is_one_to_one(key: HostKey, k: u8)
    requires
        k < 16,
    ensures
        spec_host_key(spec_keypad_index(key)) == key,
        spec_keypad_index(spec_host_key(k)) == k,
{
}

} // verus!
