//! Keyboard decoding: the scan-code lookup table and the modifier-flag
//! bitmask.
//!
//! A native key event carries a hardware scan code and a bitmask of
//! modifier flags. The scan code is mapped to a portable key code by a
//! fixed, partial lookup table: a code outside the table yields `None`,
//! which is not an error (no key event is emitted for it). The bitmask
//! is reduced to four booleans.

use vstd::prelude::*;

verus! {

/// A portable identifier for a key on the keyboard.
///
/// Only the keys that the lookup table can produce are listed.
#[derive(Clone, Copy, Debug, PartialEq, Eq, Structural)]
pub enum KeyCode {
    /// The `0` key over the letters.
    Key0,
    /// The `1` key over the letters.
    Key1,
    /// The `2` key over the letters.
    Key2,
    /// The `3` key over the letters.
    Key3,
    /// The `4` key over the letters.
    Key4,
    /// The `5` key over the letters.
    Key5,
    /// The `6` key over the letters.
    Key6,
    /// The `7` key over the letters.
    Key7,
    /// The `8` key over the letters.
    Key8,
    /// The `9` key over the letters.
    Key9,
    /// The `A` key.
    A,
    /// The `B` key.
    B,
    /// The `C` key.
    C,
    /// The `D` key.
    D,
    /// The `E` key.
    E,
    /// The `F` key.
    F,
    /// The `G` key.
    G,
    /// The `H` key.
    H,
    /// The `I` key.
    I,
    /// The `J` key.
    J,
    /// The `K` key.
    K,
    /// The `L` key.
    L,
    /// The `M` key.
    M,
    /// The `N` key.
    N,
    /// The `O` key.
    O,
    /// The `P` key.
    P,
    /// The `Q` key.
    Q,
    /// The `R` key.
    R,
    /// The `S` key.
    S,
    /// The `T` key.
    T,
    /// The `U` key.
    U,
    /// The `V` key.
    V,
    /// The `W` key.
    W,
    /// The `X` key.
    X,
    /// The `Y` key.
    Y,
    /// The `Z` key.
    Z,
    /// The backtick / tilde key.
    Grave,
    /// The minus key.
    Minus,
    /// The equals key.
    Equals,
    /// The left bracket key.
    LBracket,
    /// The right bracket key.
    RBracket,
    /// The semicolon key.
    Semicolon,
    /// The apostrophe key.
    Apostrophe,
    /// The comma key.
    Comma,
    /// The period key.
    Period,
    /// The slash key.
    Slash,
    /// The backslash key.
    Backslash,
    /// The `0` key on the numeric pad.
    Numpad0,
    /// The `1` key on the numeric pad.
    Numpad1,
    /// The `2` key on the numeric pad.
    Numpad2,
    /// The `3` key on the numeric pad.
    Numpad3,
    /// The `4` key on the numeric pad.
    Numpad4,
    /// The `5` key on the numeric pad.
    Numpad5,
    /// The `6` key on the numeric pad.
    Numpad6,
    /// The `7` key on the numeric pad.
    Numpad7,
    /// The `8` key on the numeric pad.
    Numpad8,
    /// The `9` key on the numeric pad.
    Numpad9,
    /// The decimal separator key on the numeric pad.
    NumpadComma,
    /// The multiply key on the numeric pad.
    Multiply,
    /// The add key on the numeric pad.
    Add,
    /// The divide key on the numeric pad.
    Divide,
    /// The equals key on the numeric pad.
    NumpadEquals,
    /// The enter key on the numeric pad.
    NumpadEnter,
    /// The space bar.
    Space,
    /// The return key.
    Enter,
    /// The tab key.
    Tab,
    /// The backspace key.
    Backspace,
    /// The forward-delete key.
    Delete,
    /// The escape key.
    Escape,
    /// The left platform-logo key.
    LWin,
    /// The left shift key.
    LShift,
    /// The caps-lock key.
    Capital,
    /// The left alt / option key.
    LAlt,
    /// The left control key.
    LControl,
    /// The right shift key.
    RShift,
    /// The right alt / option key.
    RAlt,
    /// The right control key.
    RControl,
    /// The `F1` key.
    F1,
    /// The `F2` key.
    F2,
    /// The `F3` key.
    F3,
    /// The `F4` key.
    F4,
    /// The `F5` key.
    F5,
    /// The `F6` key.
    F6,
    /// The `F7` key.
    F7,
    /// The `F8` key.
    F8,
    /// The `F9` key.
    F9,
    /// The `F10` key.
    F10,
    /// The `F11` key.
    F11,
    /// The `F12` key.
    F12,
    /// The `F13` key.
    F13,
    /// The `F14` key.
    F14,
    /// The `F15` key.
    F15,
    /// The `F16` key.
    F16,
    /// The `F17` key.
    F17,
    /// The `F18` key.
    F18,
    /// The `F19` key.
    F19,
    /// The `F20` key.
    F20,
    /// The volume-up key.
    VolumeUp,
    /// The volume-down key.
    VolumeDown,
    /// The mute key.
    Mute,
    /// The insert / help key.
    Insert,
    /// The home key.
    Home,
    /// The end key.
    End,
    /// The page-up key.
    PageUp,
    /// The page-down key.
    PageDown,
    /// The left arrow key.
    Left,
    /// The right arrow key.
    Right,
    /// The down arrow key.
    Down,
    /// The up arrow key.
    Up,
}

/// The fixed lookup table from native scan codes to portable key codes.
///
/// The table is partial: a scan code it does not list maps to `None`,
/// and the caller emits no key event for it.
pub open spec fn spec_key_code(code: u16) -> Option<KeyCode> {
    match code {
        29u16 => Some(KeyCode::Key0),
        18u16 => Some(KeyCode::Key1),
        19u16 => Some(KeyCode::Key2),
        20u16 => Some(KeyCode::Key3),
        21u16 => Some(KeyCode::Key4),
        23u16 => Some(KeyCode::Key5),
        22u16 => Some(KeyCode::Key6),
        26u16 => Some(KeyCode::Key7),
        28u16 => Some(KeyCode::Key8),
        25u16 => Some(KeyCode::Key9),
        0u16 => Some(KeyCode::A),
        11u16 => Some(KeyCode::B),
        8u16 => Some(KeyCode::C),
        2u16 => Some(KeyCode::D),
        14u16 => Some(KeyCode::E),
        3u16 => Some(KeyCode::F),
        5u16 => Some(KeyCode::G),
        4u16 => Some(KeyCode::H),
        34u16 => Some(KeyCode::I),
        38u16 => Some(KeyCode::J),
        40u16 => Some(KeyCode::K),
        37u16 => Some(KeyCode::L),
        46u16 => Some(KeyCode::M),
        45u16 => Some(KeyCode::N),
        31u16 => Some(KeyCode::O),
        35u16 => Some(KeyCode::P),
        12u16 => Some(KeyCode::Q),
        15u16 => Some(KeyCode::R),
        1u16 => Some(KeyCode::S),
        17u16 => Some(KeyCode::T),
        32u16 => Some(KeyCode::U),
        9u16 => Some(KeyCode::V),
        13u16 => Some(KeyCode::W),
        7u16 => Some(KeyCode::X),
        16u16 => Some(KeyCode::Y),
        6u16 => Some(KeyCode::Z),
        50u16 => Some(KeyCode::Grave),
        27u16 => Some(KeyCode::Minus),
        24u16 => Some(KeyCode::Equals),
        33u16 => Some(KeyCode::LBracket),
        30u16 => Some(KeyCode::RBracket),
        41u16 => Some(KeyCode::Semicolon),
        39u16 => Some(KeyCode::Apostrophe),
        43u16 => Some(KeyCode::Comma),
        47u16 => Some(KeyCode::Period),
        44u16 => Some(KeyCode::Slash),
        42u16 => Some(KeyCode::Backslash),
        82u16 => Some(KeyCode::Numpad0),
        83u16 => Some(KeyCode::Numpad1),
        84u16 => Some(KeyCode::Numpad2),
        85u16 => Some(KeyCode::Numpad3),
        86u16 => Some(KeyCode::Numpad4),
        87u16 => Some(KeyCode::Numpad5),
        88u16 => Some(KeyCode::Numpad6),
        89u16 => Some(KeyCode::Numpad7),
        91u16 => Some(KeyCode::Numpad8),
        92u16 => Some(KeyCode::Numpad9),
        65u16 => Some(KeyCode::NumpadComma),
        67u16 => Some(KeyCode::Multiply),
        69u16 => Some(KeyCode::Add),
        75u16 => Some(KeyCode::Divide),
        78u16 => Some(KeyCode::Minus),
        81u16 => Some(KeyCode::NumpadEquals),
        76u16 => Some(KeyCode::NumpadEnter),
        49u16 => Some(KeyCode::Space),
        36u16 => Some(KeyCode::Enter),
        48u16 => Some(KeyCode::Tab),
        51u16 => Some(KeyCode::Backspace),
        117u16 => Some(KeyCode::Delete),
        53u16 => Some(KeyCode::Escape),
        55u16 => Some(KeyCode::LWin),
        56u16 => Some(KeyCode::LShift),
        57u16 => Some(KeyCode::Capital),
        58u16 => Some(KeyCode::LAlt),
        59u16 => Some(KeyCode::LControl),
        60u16 => Some(KeyCode::RShift),
        61u16 => Some(KeyCode::RAlt),
        62u16 => Some(KeyCode::RControl),
        122u16 => Some(KeyCode::F1),
        120u16 => Some(KeyCode::F2),
        99u16 => Some(KeyCode::F3),
        118u16 => Some(KeyCode::F4),
        96u16 => Some(KeyCode::F5),
        97u16 => Some(KeyCode::F6),
        98u16 => Some(KeyCode::F7),
        100u16 => Some(KeyCode::F8),
        101u16 => Some(KeyCode::F9),
        109u16 => Some(KeyCode::F10),
        103u16 => Some(KeyCode::F11),
        111u16 => Some(KeyCode::F12),
        105u16 => Some(KeyCode::F13),
        107u16 => Some(KeyCode::F14),
        113u16 => Some(KeyCode::F15),
        106u16 => Some(KeyCode::F16),
        64u16 => Some(KeyCode::F17),
        79u16 => Some(KeyCode::F18),
        80u16 => Some(KeyCode::F19),
        90u16 => Some(KeyCode::F20),
        72u16 => Some(KeyCode::VolumeUp),
        73u16 => Some(KeyCode::VolumeDown),
        74u16 => Some(KeyCode::Mute),
        114u16 => Some(KeyCode::Insert),
        115u16 => Some(KeyCode::Home),
        119u16 => Some(KeyCode::End),
        116u16 => Some(KeyCode::PageUp),
        121u16 => Some(KeyCode::PageDown),
        123u16 => Some(KeyCode::Left),
        124u16 => Some(KeyCode::Right),
        125u16 => Some(KeyCode::Down),
        126u16 => Some(KeyCode::Up),
        _ => None,
    }
}

/// Translates a native scan code through the fixed lookup table.
///
/// The translation is a pure function of the scan code alone: the same
/// code always yields the same key code, or `None` for a code outside
/// the table.
pub fn key_code_for(code: u16) -> (r: Option<KeyCode>)
    ensures
        r == spec_key_code(code),
{
    match code {
        29u16 => Some(KeyCode::Key0),
        18u16 => Some(KeyCode::Key1),
        19u16 => Some(KeyCode::Key2),
        20u16 => Some(KeyCode::Key3),
        21u16 => Some(KeyCode::Key4),
        23u16 => Some(KeyCode::Key5),
        22u16 => Some(KeyCode::Key6),
        26u16 => Some(KeyCode::Key7),
        28u16 => Some(KeyCode::Key8),
        25u16 => Some(KeyCode::Key9),
        0u16 => Some(KeyCode::A),
        11u16 => Some(KeyCode::B),
        8u16 => Some(KeyCode::C),
        2u16 => Some(KeyCode::D),
        14u16 => Some(KeyCode::E),
        3u16 => Some(KeyCode::F),
        5u16 => Some(KeyCode::G),
        4u16 => Some(KeyCode::H),
        34u16 => Some(KeyCode::I),
        38u16 => Some(KeyCode::J),
        40u16 => Some(KeyCode::K),
        37u16 => Some(KeyCode::L),
        46u16 => Some(KeyCode::M),
        45u16 => Some(KeyCode::N),
        31u16 => Some(KeyCode::O),
        35u16 => Some(KeyCode::P),
        12u16 => Some(KeyCode::Q),
        15u16 => Some(KeyCode::R),
        1u16 => Some(KeyCode::S),
        17u16 => Some(KeyCode::T),
        32u16 => Some(KeyCode::U),
        9u16 => Some(KeyCode::V),
        13u16 => Some(KeyCode::W),
        7u16 => Some(KeyCode::X),
        16u16 => Some(KeyCode::Y),
        6u16 => Some(KeyCode::Z),
        50u16 => Some(KeyCode::Grave),
        27u16 => Some(KeyCode::Minus),
        24u16 => Some(KeyCode::Equals),
        33u16 => Some(KeyCode::LBracket),
        30u16 => Some(KeyCode::RBracket),
        41u16 => Some(KeyCode::Semicolon),
        39u16 => Some(KeyCode::Apostrophe),
        43u16 => Some(KeyCode::Comma),
        47u16 => Some(KeyCode::Period),
        44u16 => Some(KeyCode::Slash),
        42u16 => Some(KeyCode::Backslash),
        82u16 => Some(KeyCode::Numpad0),
        83u16 => Some(KeyCode::Numpad1),
        84u16 => Some(KeyCode::Numpad2),
        85u16 => Some(KeyCode::Numpad3),
        86u16 => Some(KeyCode::Numpad4),
        87u16 => Some(KeyCode::Numpad5),
        88u16 => Some(KeyCode::Numpad6),
        89u16 => Some(KeyCode::Numpad7),
        91u16 => Some(KeyCode::Numpad8),
        92u16 => Some(KeyCode::Numpad9),
        65u16 => Some(KeyCode::NumpadComma),
        67u16 => Some(KeyCode::Multiply),
        69u16 => Some(KeyCode::Add),
        75u16 => Some(KeyCode::Divide),
        78u16 => Some(KeyCode::Minus),
        81u16 => Some(KeyCode::NumpadEquals),
        76u16 => Some(KeyCode::NumpadEnter),
        49u16 => Some(KeyCode::Space),
        36u16 => Some(KeyCode::Enter),
        48u16 => Some(KeyCode::Tab),
        51u16 => Some(KeyCode::Backspace),
        117u16 => Some(KeyCode::Delete),
        53u16 => Some(KeyCode::Escape),
        55u16 => Some(KeyCode::LWin),
        56u16 => Some(KeyCode::LShift),
        57u16 => Some(KeyCode::Capital),
        58u16 => Some(KeyCode::LAlt),
        59u16 => Some(KeyCode::LControl),
        60u16 => Some(KeyCode::RShift),
        61u16 => Some(KeyCode::RAlt),
        62u16 => Some(KeyCode::RControl),
        122u16 => Some(KeyCode::F1),
        120u16 => Some(KeyCode::F2),
        99u16 => Some(KeyCode::F3),
        118u16 => Some(KeyCode::F4),
        96u16 => Some(KeyCode::F5),
        97u16 => Some(KeyCode::F6),
        98u16 => Some(KeyCode::F7),
        100u16 => Some(KeyCode::F8),
        101u16 => Some(KeyCode::F9),
        109u16 => Some(KeyCode::F10),
        103u16 => Some(KeyCode::F11),
        111u16 => Some(KeyCode::F12),
        105u16 => Some(KeyCode::F13),
        107u16 => Some(KeyCode::F14),
        113u16 => Some(KeyCode::F15),
        106u16 => Some(KeyCode::F16),
        64u16 => Some(KeyCode::F17),
        79u16 => Some(KeyCode::F18),
        80u16 => Some(KeyCode::F19),
        90u16 => Some(KeyCode::F20),
        72u16 => Some(KeyCode::VolumeUp),
        73u16 => Some(KeyCode::VolumeDown),
        74u16 => Some(KeyCode::Mute),
        114u16 => Some(KeyCode::Insert),
        115u16 => Some(KeyCode::Home),
        119u16 => Some(KeyCode::End),
        116u16 => Some(KeyCode::PageUp),
        121u16 => Some(KeyCode::PageDown),
        123u16 => Some(KeyCode::Left),
        124u16 => Some(KeyCode::Right),
        125u16 => Some(KeyCode::Down),
        126u16 => Some(KeyCode::Up),
        _ => None,
    }
}

/// The bit the native modifier bitmask sets while a shift key is held.
pub const SHIFT_FLAG: u64 = 0x20000;

/// The bit the native modifier bitmask sets while a control key is held.
pub const CONTROL_FLAG: u64 = 0x40000;

/// The bit the native modifier bitmask sets while an alt / option key is
/// held.
pub const ALT_FLAG: u64 = 0x80000;

/// The bit the native modifier bitmask sets while a platform-logo
/// (command) key is held.
pub const LOGO_FLAG: u64 = 0x100000;

/// The state of the four keyboard modifiers.
#[derive(Clone, Copy, Debug, PartialEq, Eq, Structural)]
pub struct ModifiersState {
    /// Whether a shift key is held.
    pub shift: bool,
    /// Whether a control key is held.
    pub control: bool,
    /// Whether an alt / option key is held.
    pub alt: bool,
    /// Whether a platform-logo (command) key is held.
    pub logo: bool,
}

/// The four modifier booleans a native modifier bitmask decodes to.
pub open spec fn spec_modifiers(flags: u64) -> ModifiersState {
    ModifiersState {
        shift: flags & SHIFT_FLAG == SHIFT_FLAG,
        control: flags & CONTROL_FLAG == CONTROL_FLAG,
        alt: flags & ALT_FLAG == ALT_FLAG,
        logo: flags & LOGO_FLAG == LOGO_FLAG,
    }
}

/// Decodes a native modifier bitmask into the four modifier booleans.
pub fn modifiers_from_flags(flags: u64) -> (m: ModifiersState)
    ensures
        m == spec_modifiers(flags),
{
    ModifiersState {
        shift: flags & SHIFT_FLAG == SHIFT_FLAG,
        control: flags & CONTROL_FLAG == CONTROL_FLAG,
        alt: flags & ALT_FLAG == ALT_FLAG,
        logo: flags & LOGO_FLAG == LOGO_FLAG,
    }
}

} // verus!
