use vstd::prelude::*;

verus! {

/// Modifier keys; each one owns a single bit of a keyboard report's modifier byte.
#[derive(Debug, Clone, Copy, PartialEq, Eq, Structural)]
pub enum Modifier {
    /// Left Control
    LeftControl,
    /// Left Shift
    LeftShift,
    /// Left Alt
    LeftAlt,
    /// Left Meta
    LeftMeta,
    /// Right Control
    RightControl,
    /// Right Shift
    RightShift,
    /// Right Alt
    RightAlt,
    /// Right Meta
    RightMeta,
}

/// The OR of the modifier bits of every modifier in `mods`.
pub open spec fn modifiers_byte(mods: Seq<Modifier>) -> u8
    decreases mods.len(),
{
    if mods.len() == 0 {
        0
    } else {
        modifiers_byte(mods.drop_last()) | mods.last().spec_mkbyte()
    }
}

impl Modifier {
    /// The bit of the modifier byte that this modifier sets.
    pub open spec fn spec_mkbyte(self) -> u8 {
        match self {
            Modifier::LeftControl => 0x01,
            Modifier::LeftShift => 0x02,
            Modifier::LeftAlt => 0x04,
            Modifier::LeftMeta => 0x08,
            Modifier::RightControl => 0x10,
            Modifier::RightShift => 0x20,
            Modifier::RightAlt => 0x40,
            Modifier::RightMeta => 0x80,
        }
    }

    /// A list of modifiers as one modifier byte: the OR of their bits (0 for none).
    pub fn all_to_byte(modifiers: &[Modifier]) -> (r: u8)
        ensures
            r == modifiers_byte(modifiers@),
    {
        let mut byte: u8 = 0;
        let mut i: usize = 0;
        while i < modifiers.len()
            invariant
                i <= modifiers@.len(),
                byte == modifiers_byte(modifiers@.subrange(0, i as int)),
            decreases modifiers@.len() - i,
        {
            assert(modifiers@.subrange(0, i + 1).drop_last() =~= modifiers@.subrange(0, i as int));
            byte = byte | modifiers[i].to_mkbyte();
            i = i + 1;
        }
        assert(modifiers@.subrange(0, i as int) =~= modifiers@);
        byte
    }

    /// Modifier to its bit of the modifier byte.
    pub fn to_mkbyte(&self) -> (r: u8)
        ensures
            r == self.spec_mkbyte(),
    {
        match self {
            Modifier::RightMeta => 0x80,
            Modifier::RightAlt => 0x40,
            Modifier::RightShift => 0x20,
            Modifier::RightControl => 0x10,
            Modifier::LeftMeta => 0x08,
            Modifier::LeftAlt => 0x04,
            Modifier::LeftShift => 0x02,
            Modifier::LeftControl => 0x01,
        }
    }
}

/// Where a key sits: the main keyboard, the keypad, or elsewhere.
#[derive(Debug, Eq, Hash, PartialEq, Clone, Copy, Structural)]
pub enum KeyOrigin {
    /// Keyboard
    Keyboard,
    /// Keypad
    Keypad,
    /// Misc
    Misc,
}

/// Keys that are not typed as a character.
#[derive(Debug, Eq, Hash, PartialEq, Clone, Copy, Structural)]
pub enum SpecialKey {
    /// ReturnEnter
    ReturnEnter,
    /// Return
    Return,
    /// Escape
    Escape,
    /// Backspace
    Backspace,
    /// Tab
    Tab,
    /// Spacebar
    Spacebar,
    /// NONUSHashAndTilda
    NONUSHashAndTilda,
    /// CapsLock
    CapsLock,
    /// F1
    F1,
    /// F2
    F2,
    /// F3
    F3,
    /// UpArrow
    UpArrow,
    /// DownArrow
    DownArrow,
    /// LeftArrow
    LeftArrow,
    /// RightArrow
    RightArrow,
    /// PageDown
    PageDown,
    /// End
    End,
    /// DeleteForward
    DeleteForward,
    /// PageUp
    PageUp,
    /// Home
    Home,
    /// Insert
    Insert,
    /// Pause
    Pause,
    /// ScrollLock
    ScrollLock,
    /// PrintScreen
    PrintScreen,
    /// F12
    F12,
    /// F11
    F11,
    /// F10
    F10,
    /// F9
    F9,
    /// F8
    F8,
    /// F7
    F7,
    /// F6
    F6,
    /// F5
    F5,
    /// F4
    F4,
    /// NumLockAndClear
    NumLockAndClear,
    /// Enter
    Enter,
    /// Application
    Application,
    /// Power
    Power,
    /// RightGUI
    RightGUI,
    /// RightAlt
    RightAlt,
    /// RightShift
    RightShift,
    /// RightControl
    RightControl,
    /// LeftGUI
    LeftGUI,
    /// LeftAlt
    LeftAlt,
    /// LeftShift
    LeftShift,
    /// LeftControl
    LeftControl,
    /// Hexadecimal
    Hexadecimal,
    /// Decimal
    Decimal,
    /// Octal
    Octal,
    /// Binary
    Binary,
    /// ClearEntry
    ClearEntry,
    /// Clear
    Clear,
    /// PlusMinux
    PlusMinux,
    /// MemoryDivide
    MemoryDivide,
    /// MemoryMultiply
    MemoryMultiply,
    /// MemorySubtract
    MemorySubtract,
    /// MemoryAdd
    MemoryAdd,
    /// MemoryClear
    MemoryClear,
    /// MemoryRecall
    MemoryRecall,
    /// MemoryStore
    MemoryStore,
    /// Space
    Space,
    /// Or
    Or,
    /// And
    And,
    /// XOR
    XOR,
    /// CurrencySubunit
    CurrencySubunit,
    /// CurrencyUnit
    CurrencyUnit,
    /// DecimalSeparator
    DecimalSeparator,
    /// ThousandsSeparator
    ThousandsSeparator,
    /// _000
    _000,
    /// _00
    _00,
    /// ExSel
    ExSel,
    /// CrSelProps
    CrSelProps,
    /// ClearAgain
    ClearAgain,
    /// Oper
    Oper,
    /// Out
    Out,
    /// Separator
    Separator,
    /// Prior
    Prior,
    /// Cancel
    Cancel,
    /// SysReqAttention1
    SysReqAttention1,
    /// AlternateErase
    AlternateErase,
    /// LANG9
    LANG9,
    /// LANG8
    LANG8,
    /// LANG7
    LANG7,
    /// LANG6
    LANG6,
    /// LANG5
    LANG5,
    /// LANG4
    LANG4,
    /// LANG3
    LANG3,
    /// LANG2
    LANG2,
    /// LANG1
    LANG1,
    /// International9
    International9,
    /// International8
    International8,
    /// International7
    International7,
    /// International6
    International6,
    /// International5
    International5,
    /// International4
    International4,
    /// International3
    International3,
    /// International2
    International2,
    /// International1
    International1,
    /// LockingScrollLock
    LockingScrollLock,
    /// LockingNumLock
    LockingNumLock,
    /// LockingCapsLock
    LockingCapsLock,
    /// VolumeDown
    VolumeDown,
    /// VolumeUp
    VolumeUp,
    /// Mute
    Mute,
    /// Find
    Find,
    /// Paste
    Paste,
    /// Copy
    Copy,
    /// Cut
    Cut,
    /// Undo
    Undo,
    /// Again
    Again,
    /// Stop
    Stop,
    /// Select
    Select,
    /// Menu
    Menu,
    /// Help
    Help,
    /// Execute
    Execute,
    /// F24
    F24,
    /// F23
    F23,
    /// F22
    F22,
    /// F21
    F21,
    /// F20
    F20,
    /// F19
    F19,
    /// F18
    F18,
    /// F17
    F17,
    /// F16
    F16,
    /// F15
    F15,
    /// F14
    F14,
    /// F13
    F13,
    /// NonUSSlashAndPipe
    NonUSSlashAndPipe,
    /// _DotAndDelete
    _DotAndDelete,
    /// _0AndInsert
    _0AndInsert,
    /// _9AndPageUp
    _9AndPageUp,
    /// _8AndUpArrow
    _8AndUpArrow,
    /// _7AndHome
    _7AndHome,
    /// _6AndRightArrow
    _6AndRightArrow,
    /// _5
    _5,
    /// _4AndLeftArrow
    _4AndLeftArrow,
    /// _3AndPageDn
    _3AndPageDn,
    /// _2AndDownArrow
    _2AndDownArrow,
    /// _1AndEnd
    _1AndEnd,
    /// PadClear
    PadClear,
    /// PadBackspace
    PadBackspace,
    /// PadTab
    PadTab,
    /// EqualsSign
    EqualsSign,
    /// Comma
    Comma,
}

impl SpecialKey {
    /// The HID usage id of the key.
    pub open spec fn spec_kbyte(self) -> u8 {
        match self {
            SpecialKey::ReturnEnter => 0x28,
            SpecialKey::Escape => 0x29,
            SpecialKey::Backspace => 0x2A,
            SpecialKey::Tab => 0x2B,
            SpecialKey::Spacebar => 0x2C,
            SpecialKey::NONUSHashAndTilda => 0x32,
            SpecialKey::CapsLock => 0x39,
            SpecialKey::F1 => 0x3A,
            SpecialKey::F2 => 0x3B,
            SpecialKey::F3 => 0x3C,
            SpecialKey::F4 => 0x3D,
            SpecialKey::F5 => 0x3E,
            SpecialKey::F6 => 0x3F,
            SpecialKey::F7 => 0x40,
            SpecialKey::F8 => 0x41,
            SpecialKey::F9 => 0x42,
            SpecialKey::F10 => 0x43,
            SpecialKey::F11 => 0x44,
            SpecialKey::F12 => 0x45,
            SpecialKey::PrintScreen => 0x46,
            SpecialKey::ScrollLock => 0x47,
            SpecialKey::Pause => 0x48,
            SpecialKey::Insert => 0x49,
            SpecialKey::Home => 0x4A,
            SpecialKey::PageUp => 0x4B,
            SpecialKey::DeleteForward => 0x4C,
            SpecialKey::End => 0x4D,
            SpecialKey::PageDown => 0x4E,
            SpecialKey::RightArrow => 0x4F,
            SpecialKey::LeftArrow => 0x50,
            SpecialKey::DownArrow => 0x51,
            SpecialKey::UpArrow => 0x52,
            SpecialKey::NonUSSlashAndPipe => 0x64,
            SpecialKey::Application => 0x65,
            SpecialKey::Power => 0x66,
            SpecialKey::F13 => 0x68,
            SpecialKey::F14 => 0x69,
            SpecialKey::F15 => 0x6A,
            SpecialKey::F16 => 0x6B,
            SpecialKey::F17 => 0x6C,
            SpecialKey::F18 => 0x6D,
            SpecialKey::F19 => 0x6E,
            SpecialKey::F20 => 0x6F,
            SpecialKey::F21 => 0x70,
            SpecialKey::F22 => 0x71,
            SpecialKey::F23 => 0x72,
            SpecialKey::F24 => 0x73,
            SpecialKey::Execute => 0x74,
            SpecialKey::Help => 0x75,
            SpecialKey::Menu => 0x76,
            SpecialKey::Select => 0x77,
            SpecialKey::Stop => 0x78,
            SpecialKey::Again => 0x79,
            SpecialKey::Undo => 0x7A,
            SpecialKey::Cut => 0x7B,
            SpecialKey::Copy => 0x7C,
            SpecialKey::Paste => 0x7D,
            SpecialKey::Find => 0x7E,
            SpecialKey::Mute => 0x7F,
            SpecialKey::VolumeUp => 0x80,
            SpecialKey::VolumeDown => 0x81,
            SpecialKey::LockingCapsLock => 0x82,
            SpecialKey::LockingNumLock => 0x83,
            SpecialKey::LockingScrollLock => 0x84,
            SpecialKey::International1 => 0x87,
            SpecialKey::International2 => 0x88,
            SpecialKey::International3 => 0x89,
            SpecialKey::International4 => 0x8A,
            SpecialKey::International5 => 0x8B,
            SpecialKey::International6 => 0x8C,
            SpecialKey::International7 => 0x8D,
            SpecialKey::International8 => 0x8E,
            SpecialKey::International9 => 0x8F,
            SpecialKey::LANG1 => 0x90,
            SpecialKey::LANG2 => 0x91,
            SpecialKey::LANG3 => 0x92,
            SpecialKey::LANG4 => 0x93,
            SpecialKey::LANG5 => 0x94,
            SpecialKey::LANG6 => 0x95,
            SpecialKey::LANG7 => 0x96,
            SpecialKey::LANG8 => 0x97,
            SpecialKey::LANG9 => 0x98,
            SpecialKey::AlternateErase => 0x99,
            SpecialKey::SysReqAttention1 => 0x9A,
            SpecialKey::Cancel => 0x9B,
            SpecialKey::Clear => 0x9C,
            SpecialKey::Prior => 0x9D,
            SpecialKey::Return => 0x9E,
            SpecialKey::Separator => 0x9F,
            SpecialKey::Out => 0xA0,
            SpecialKey::Oper => 0xA1,
            SpecialKey::ClearAgain => 0xA2,
            SpecialKey::CrSelProps => 0xA3,
            SpecialKey::ExSel => 0xA4,
            SpecialKey::LeftControl => 0xE0,
            SpecialKey::LeftShift => 0xE1,
            SpecialKey::LeftAlt => 0xE2,
            SpecialKey::LeftGUI => 0xE3,
            SpecialKey::RightControl => 0xE4,
            SpecialKey::RightShift => 0xE5,
            SpecialKey::RightAlt => 0xE6,
            SpecialKey::RightGUI => 0xE7,
            SpecialKey::ThousandsSeparator => 0xB2,
            SpecialKey::DecimalSeparator => 0xB3,
            SpecialKey::CurrencyUnit => 0xB4,
            SpecialKey::CurrencySubunit => 0xB5,
            SpecialKey::NumLockAndClear => 0x53,
            SpecialKey::Enter => 0x58,
            SpecialKey::_1AndEnd => 0x59,
            SpecialKey::_2AndDownArrow => 0x5A,
            SpecialKey::_3AndPageDn => 0x5B,
            SpecialKey::_4AndLeftArrow => 0x5C,
            SpecialKey::_5 => 0x5D,
            SpecialKey::_6AndRightArrow => 0x5E,
            SpecialKey::_7AndHome => 0x5F,
            SpecialKey::_8AndUpArrow => 0x60,
            SpecialKey::_9AndPageUp => 0x61,
            SpecialKey::_0AndInsert => 0x62,
            SpecialKey::_DotAndDelete => 0x63,
            SpecialKey::_00 => 0xB0,
            SpecialKey::_000 => 0xB1,
            SpecialKey::PadTab => 0xBA,
            SpecialKey::PadBackspace => 0xBB,
            SpecialKey::XOR => 0xC2,
            SpecialKey::And => 0xC8,
            SpecialKey::Or => 0xCA,
            SpecialKey::Space => 0xCD,
            SpecialKey::MemoryStore => 0xD0,
            SpecialKey::MemoryRecall => 0xD1,
            SpecialKey::MemoryClear => 0xD2,
            SpecialKey::MemoryAdd => 0xD3,
            SpecialKey::MemorySubtract => 0xD4,
            SpecialKey::MemoryMultiply => 0xD5,
            SpecialKey::MemoryDivide => 0xD6,
            SpecialKey::PlusMinux => 0xD7,
            SpecialKey::PadClear => 0xD8,
            SpecialKey::ClearEntry => 0xD9,
            SpecialKey::Binary => 0xDA,
            SpecialKey::Octal => 0xDB,
            SpecialKey::Decimal => 0xDC,
            SpecialKey::Hexadecimal => 0xDD,
            SpecialKey::Comma => 0x85,
            SpecialKey::EqualsSign => 0x86,
        }
    }

    /// Special key to its HID usage id.
    pub fn to_kbyte(&self) -> (r: u8)
        ensures
            r == self.spec_kbyte(),
    {
        match self {
            SpecialKey::ReturnEnter => 0x28,
            SpecialKey::Escape => 0x29,
            SpecialKey::Backspace => 0x2A,
            SpecialKey::Tab => 0x2B,
            SpecialKey::Spacebar => 0x2C,
            SpecialKey::NONUSHashAndTilda => 0x32,
            SpecialKey::CapsLock => 0x39,
            SpecialKey::F1 => 0x3A,
            SpecialKey::F2 => 0x3B,
            SpecialKey::F3 => 0x3C,
            SpecialKey::F4 => 0x3D,
            SpecialKey::F5 => 0x3E,
            SpecialKey::F6 => 0x3F,
            SpecialKey::F7 => 0x40,
            SpecialKey::F8 => 0x41,
            SpecialKey::F9 => 0x42,
            SpecialKey::F10 => 0x43,
            SpecialKey::F11 => 0x44,
            SpecialKey::F12 => 0x45,
            SpecialKey::PrintScreen => 0x46,
            SpecialKey::ScrollLock => 0x47,
            SpecialKey::Pause => 0x48,
            SpecialKey::Insert => 0x49,
            SpecialKey::Home => 0x4A,
            SpecialKey::PageUp => 0x4B,
            SpecialKey::DeleteForward => 0x4C,
            SpecialKey::End => 0x4D,
            SpecialKey::PageDown => 0x4E,
            SpecialKey::RightArrow => 0x4F,
            SpecialKey::LeftArrow => 0x50,
            SpecialKey::DownArrow => 0x51,
            SpecialKey::UpArrow => 0x52,
            SpecialKey::NonUSSlashAndPipe => 0x64,
            SpecialKey::Application => 0x65,
            SpecialKey::Power => 0x66,
            SpecialKey::F13 => 0x68,
            SpecialKey::F14 => 0x69,
            SpecialKey::F15 => 0x6A,
            SpecialKey::F16 => 0x6B,
            SpecialKey::F17 => 0x6C,
            SpecialKey::F18 => 0x6D,
            SpecialKey::F19 => 0x6E,
            SpecialKey::F20 => 0x6F,
            SpecialKey::F21 => 0x70,
            SpecialKey::F22 => 0x71,
            SpecialKey::F23 => 0x72,
            SpecialKey::F24 => 0x73,
            SpecialKey::Execute => 0x74,
            SpecialKey::Help => 0x75,
            SpecialKey::Menu => 0x76,
            SpecialKey::Select => 0x77,
            SpecialKey::Stop => 0x78,
            SpecialKey::Again => 0x79,
            SpecialKey::Undo => 0x7A,
            SpecialKey::Cut => 0x7B,
            SpecialKey::Copy => 0x7C,
            SpecialKey::Paste => 0x7D,
            SpecialKey::Find => 0x7E,
            SpecialKey::Mute => 0x7F,
            SpecialKey::VolumeUp => 0x80,
            SpecialKey::VolumeDown => 0x81,
            SpecialKey::LockingCapsLock => 0x82,
            SpecialKey::LockingNumLock => 0x83,
            SpecialKey::LockingScrollLock => 0x84,
            SpecialKey::International1 => 0x87,
            SpecialKey::International2 => 0x88,
            SpecialKey::International3 => 0x89,
            SpecialKey::International4 => 0x8A,
            SpecialKey::International5 => 0x8B,
            SpecialKey::International6 => 0x8C,
            SpecialKey::International7 => 0x8D,
            SpecialKey::International8 => 0x8E,
            SpecialKey::International9 => 0x8F,
            SpecialKey::LANG1 => 0x90,
            SpecialKey::LANG2 => 0x91,
            SpecialKey::LANG3 => 0x92,
            SpecialKey::LANG4 => 0x93,
            SpecialKey::LANG5 => 0x94,
            SpecialKey::LANG6 => 0x95,
            SpecialKey::LANG7 => 0x96,
            SpecialKey::LANG8 => 0x97,
            SpecialKey::LANG9 => 0x98,
            SpecialKey::AlternateErase => 0x99,
            SpecialKey::SysReqAttention1 => 0x9A,
            SpecialKey::Cancel => 0x9B,
            SpecialKey::Clear => 0x9C,
            SpecialKey::Prior => 0x9D,
            SpecialKey::Return => 0x9E,
            SpecialKey::Separator => 0x9F,
            SpecialKey::Out => 0xA0,
            SpecialKey::Oper => 0xA1,
            SpecialKey::ClearAgain => 0xA2,
            SpecialKey::CrSelProps => 0xA3,
            SpecialKey::ExSel => 0xA4,
            SpecialKey::LeftControl => 0xE0,
            SpecialKey::LeftShift => 0xE1,
            SpecialKey::LeftAlt => 0xE2,
            SpecialKey::LeftGUI => 0xE3,
            SpecialKey::RightControl => 0xE4,
            SpecialKey::RightShift => 0xE5,
            SpecialKey::RightAlt => 0xE6,
            SpecialKey::RightGUI => 0xE7,
            SpecialKey::ThousandsSeparator => 0xB2,
            SpecialKey::DecimalSeparator => 0xB3,
            SpecialKey::CurrencyUnit => 0xB4,
            SpecialKey::CurrencySubunit => 0xB5,
            SpecialKey::NumLockAndClear => 0x53,
            SpecialKey::Enter => 0x58,
            SpecialKey::_1AndEnd => 0x59,
            SpecialKey::_2AndDownArrow => 0x5A,
            SpecialKey::_3AndPageDn => 0x5B,
            SpecialKey::_4AndLeftArrow => 0x5C,
            SpecialKey::_5 => 0x5D,
            SpecialKey::_6AndRightArrow => 0x5E,
            SpecialKey::_7AndHome => 0x5F,
            SpecialKey::_8AndUpArrow => 0x60,
            SpecialKey::_9AndPageUp => 0x61,
            SpecialKey::_0AndInsert => 0x62,
            SpecialKey::_DotAndDelete => 0x63,
            SpecialKey::_00 => 0xB0,
            SpecialKey::_000 => 0xB1,
            SpecialKey::PadTab => 0xBA,
            SpecialKey::PadBackspace => 0xBB,
            SpecialKey::XOR => 0xC2,
            SpecialKey::And => 0xC8,
            SpecialKey::Or => 0xCA,
            SpecialKey::Space => 0xCD,
            SpecialKey::MemoryStore => 0xD0,
            SpecialKey::MemoryRecall => 0xD1,
            SpecialKey::MemoryClear => 0xD2,
            SpecialKey::MemoryAdd => 0xD3,
            SpecialKey::MemorySubtract => 0xD4,
            SpecialKey::MemoryMultiply => 0xD5,
            SpecialKey::MemoryDivide => 0xD6,
            SpecialKey::PlusMinux => 0xD7,
            SpecialKey::PadClear => 0xD8,
            SpecialKey::ClearEntry => 0xD9,
            SpecialKey::Binary => 0xDA,
            SpecialKey::Octal => 0xDB,
            SpecialKey::Decimal => 0xDC,
            SpecialKey::Hexadecimal => 0xDD,
            SpecialKey::Comma => 0x85,
            SpecialKey::EqualsSign => 0x86,
        }
    }
}

/// The pair (modifier byte, HID usage id) that types `c` as a key of `origin`, if any.
pub open spec fn char_kbytes(c: char, origin: KeyOrigin) -> Option<(u8, u8)> {
    match origin {
        KeyOrigin::Keyboard => match c {
            '\n' => Some((0x00, SpecialKey::Enter.spec_kbyte())),
            '\t' => Some((0x00, SpecialKey::Tab.spec_kbyte())),
            ' ' => Some((0x00, SpecialKey::Spacebar.spec_kbyte())),
            'a' => Some((0x00, 0x04)),
            'A' => Some((Modifier::LeftShift.spec_mkbyte(), 0x04)),
            'b' => Some((0x00, 0x05)),
            'B' => Some((Modifier::LeftShift.spec_mkbyte(), 0x05)),
            'c' => Some((0x00, 0x06)),
            'C' => Some((Modifier::LeftShift.spec_mkbyte(), 0x06)),
            'd' => Some((0x00, 0x07)),
            'D' => Some((Modifier::LeftShift.spec_mkbyte(), 0x07)),
            'e' => Some((0x00, 0x08)),
            'E' => Some((Modifier::LeftShift.spec_mkbyte(), 0x08)),
            'f' => Some((0x00, 0x09)),
            'F' => Some((Modifier::LeftShift.spec_mkbyte(), 0x09)),
            'g' => Some((0x00, 0x0A)),
            'G' => Some((Modifier::LeftShift.spec_mkbyte(), 0x0A)),
            'h' => Some((0x00, 0x0B)),
            'H' => Some((Modifier::LeftShift.spec_mkbyte(), 0x0B)),
            'i' => Some((0x00, 0x0C)),
            'I' => Some((Modifier::LeftShift.spec_mkbyte(), 0x0C)),
            'j' => Some((0x00, 0x0D)),
            'J' => Some((Modifier::LeftShift.spec_mkbyte(), 0x0D)),
            'k' => Some((0x00, 0x0E)),
            'K' => Some((Modifier::LeftShift.spec_mkbyte(), 0x0E)),
            'l' => Some((0x00, 0x0F)),
            'L' => Some((Modifier::LeftShift.spec_mkbyte(), 0x0F)),
            'm' => Some((0x00, 0x10)),
            'M' => Some((Modifier::LeftShift.spec_mkbyte(), 0x10)),
            'n' => Some((0x00, 0x11)),
            'N' => Some((Modifier::LeftShift.spec_mkbyte(), 0x11)),
            'o' => Some((0x00, 0x12)),
            'O' => Some((Modifier::LeftShift.spec_mkbyte(), 0x12)),
            'p' => Some((0x00, 0x13)),
            'P' => Some((Modifier::LeftShift.spec_mkbyte(), 0x13)),
            'q' => Some((0x00, 0x14)),
            'Q' => Some((Modifier::LeftShift.spec_mkbyte(), 0x14)),
            'r' => Some((0x00, 0x15)),
            'R' => Some((Modifier::LeftShift.spec_mkbyte(), 0x15)),
            's' => Some((0x00, 0x16)),
            'S' => Some((Modifier::LeftShift.spec_mkbyte(), 0x16)),
            't' => Some((0x00, 0x17)),
            'T' => Some((Modifier::LeftShift.spec_mkbyte(), 0x17)),
            'u' => Some((0x00, 0x18)),
            'U' => Some((Modifier::LeftShift.spec_mkbyte(), 0x18)),
            'v' => Some((0x00, 0x19)),
            'V' => Some((Modifier::LeftShift.spec_mkbyte(), 0x19)),
            'w' => Some((0x00, 0x1A)),
            'W' => Some((Modifier::LeftShift.spec_mkbyte(), 0x1A)),
            'x' => Some((0x00, 0x1B)),
            'X' => Some((Modifier::LeftShift.spec_mkbyte(), 0x1B)),
            'y' => Some((0x00, 0x1C)),
            'Y' => Some((Modifier::LeftShift.spec_mkbyte(), 0x1C)),
            'z' => Some((0x00, 0x1D)),
            'Z' => Some((Modifier::LeftShift.spec_mkbyte(), 0x1D)),
            '1' => Some((0x00, 0x1E)),
            '!' => Some((Modifier::LeftShift.spec_mkbyte(), 0x1E)),
            '2' => Some((0x00, 0x1F)),
            '@' => Some((Modifier::LeftShift.spec_mkbyte(), 0x1F)),
            '3' => Some((0x00, 0x20)),
            '#' => Some((Modifier::LeftShift.spec_mkbyte(), 0x20)),
            '4' => Some((0x00, 0x21)),
            '$' => Some((Modifier::LeftShift.spec_mkbyte(), 0x21)),
            '5' => Some((0x00, 0x22)),
            '%' => Some((Modifier::LeftShift.spec_mkbyte(), 0x22)),
            '6' => Some((0x00, 0x23)),
            '^' => Some((Modifier::LeftShift.spec_mkbyte(), 0x23)),
            '7' => Some((0x00, 0x24)),
            '&' => Some((Modifier::LeftShift.spec_mkbyte(), 0x24)),
            '8' => Some((0x00, 0x25)),
            '*' => Some((Modifier::LeftShift.spec_mkbyte(), 0x25)),
            '9' => Some((0x00, 0x26)),
            '(' => Some((Modifier::LeftShift.spec_mkbyte(), 0x26)),
            '0' => Some((0x00, 0x27)),
            ')' => Some((Modifier::LeftShift.spec_mkbyte(), 0x27)),
            '-' => Some((0x00, 0x2D)),
            '_' => Some((Modifier::LeftShift.spec_mkbyte(), 0x2D)),
            '=' => Some((0x00, 0x2E)),
            '+' => Some((Modifier::LeftShift.spec_mkbyte(), 0x2E)),
            '[' => Some((0x00, 0x2F)),
            '{' => Some((Modifier::LeftShift.spec_mkbyte(), 0x2F)),
            ']' => Some((0x00, 0x30)),
            '}' => Some((Modifier::LeftShift.spec_mkbyte(), 0x30)),
            '\\' => Some((0x00, 0x31)),
            '|' => Some((Modifier::LeftShift.spec_mkbyte(), 0x31)),
            ';' => Some((0x00, 0x33)),
            ':' => Some((Modifier::LeftShift.spec_mkbyte(), 0x33)),
            '\'' => Some((0x00, 0x34)),
            '\u{201c}' => Some((Modifier::LeftShift.spec_mkbyte(), 0x34)),
            '~' => Some((0x00, 0x35)),
            '`' => Some((Modifier::LeftShift.spec_mkbyte(), 0x35)),
            ',' => Some((0x00, 0x36)),
            '<' => Some((Modifier::LeftShift.spec_mkbyte(), 0x36)),
            '.' => Some((0x00, 0x37)),
            '>' => Some((Modifier::LeftShift.spec_mkbyte(), 0x37)),
            '/' => Some((0x00, 0x38)),
            '?' => Some((Modifier::LeftShift.spec_mkbyte(), 0x38)),
            _ => None,
        },
        KeyOrigin::Keypad => match c {
            '/' => Some((0x00, 0x54)),
            '*' => Some((0x00, 0x55)),
            '-' => Some((0x00, 0x56)),
            '+' => Some((0x00, 0x57)),
            '=' => Some((0x00, 0x67)),
            '(' => Some((0x00, 0xB6)),
            ')' => Some((0x00, 0xB7)),
            '{' => Some((0x00, 0xB8)),
            '}' => Some((0x00, 0xB9)),
            'A' => Some((0x00, 0xBC)),
            'B' => Some((0x00, 0xBD)),
            'C' => Some((0x00, 0xBE)),
            'D' => Some((0x00, 0xBF)),
            'E' => Some((0x00, 0xC0)),
            'F' => Some((0x00, 0xC1)),
            '^' => Some((0x00, 0xC3)),
            '%' => Some((0x00, 0xC4)),
            '<' => Some((0x00, 0xC5)),
            '>' => Some((0x00, 0xC6)),
            '&' => Some((0x00, 0xC7)),
            '|' => Some((0x00, 0xC9)),
            ':' => Some((0x00, 0xCB)),
            '#' => Some((0x00, 0xCC)),
            '@' => Some((0x00, 0xCE)),
            '!' => Some((0x00, 0xCF)),
            _ => None,
        },
        KeyOrigin::Misc => None,
    }
}

/// The two bytes of an optional key, as a pair.
pub open spec fn kbytes_pair(kbytes: Option<[u8; 2]>) -> Option<(u8, u8)> {
    match kbytes {
        Some(b) => Some((b[0], b[1])),
        None => None,
    }
}

/// Key to keycode bytes: `[modifier byte, HID usage id]`.
pub trait ToKBytes {
    /// What `to_kbytes` returns, as a pair.
    spec fn spec_kbytes(&self, key_origin: KeyOrigin) -> Option<(u8, u8)>;

    /// Key to keycode bytes
    fn to_kbytes(&self, key_origin: &KeyOrigin) -> (r: Option<[u8; 2]>)
        ensures
            kbytes_pair(r) == self.spec_kbytes(*key_origin),
    ;
}

impl ToKBytes for char {
    open spec fn spec_kbytes(&self, key_origin: KeyOrigin) -> Option<(u8, u8)> {
        char_kbytes(*self, key_origin)
    }

    fn to_kbytes(&self, key_origin: &KeyOrigin) -> (r: Option<[u8; 2]>) {
        match key_origin {
            KeyOrigin::Keyboard => match *self {
                '\n' => Some([0x00, SpecialKey::Enter.to_kbyte()]),
                '\t' => Some([0x00, SpecialKey::Tab.to_kbyte()]),
                ' ' => Some([0x00, SpecialKey::Spacebar.to_kbyte()]),
                'a' => Some([0x00, 0x04]),
                'A' => Some([Modifier::LeftShift.to_mkbyte(), 0x04]),
                'b' => Some([0x00, 0x05]),
                'B' => Some([Modifier::LeftShift.to_mkbyte(), 0x05]),
                'c' => Some([0x00, 0x06]),
                'C' => Some([Modifier::LeftShift.to_mkbyte(), 0x06]),
                'd' => Some([0x00, 0x07]),
                'D' => Some([Modifier::LeftShift.to_mkbyte(), 0x07]),
                'e' => Some([0x00, 0x08]),
                'E' => Some([Modifier::LeftShift.to_mkbyte(), 0x08]),
                'f' => Some([0x00, 0x09]),
                'F' => Some([Modifier::LeftShift.to_mkbyte(), 0x09]),
                'g' => Some([0x00, 0x0A]),
                'G' => Some([Modifier::LeftShift.to_mkbyte(), 0x0A]),
                'h' => Some([0x00, 0x0B]),
                'H' => Some([Modifier::LeftShift.to_mkbyte(), 0x0B]),
                'i' => Some([0x00, 0x0C]),
                'I' => Some([Modifier::LeftShift.to_mkbyte(), 0x0C]),
                'j' => Some([0x00, 0x0D]),
                'J' => Some([Modifier::LeftShift.to_mkbyte(), 0x0D]),
                'k' => Some([0x00, 0x0E]),
                'K' => Some([Modifier::LeftShift.to_mkbyte(), 0x0E]),
                'l' => Some([0x00, 0x0F]),
                'L' => Some([Modifier::LeftShift.to_mkbyte(), 0x0F]),
                'm' => Some([0x00, 0x10]),
                'M' => Some([Modifier::LeftShift.to_mkbyte(), 0x10]),
                'n' => Some([0x00, 0x11]),
                'N' => Some([Modifier::LeftShift.to_mkbyte(), 0x11]),
                'o' => Some([0x00, 0x12]),
                'O' => Some([Modifier::LeftShift.to_mkbyte(), 0x12]),
                'p' => Some([0x00, 0x13]),
                'P' => Some([Modifier::LeftShift.to_mkbyte(), 0x13]),
                'q' => Some([0x00, 0x14]),
                'Q' => Some([Modifier::LeftShift.to_mkbyte(), 0x14]),
                'r' => Some([0x00, 0x15]),
                'R' => Some([Modifier::LeftShift.to_mkbyte(), 0x15]),
                's' => Some([0x00, 0x16]),
                'S' => Some([Modifier::LeftShift.to_mkbyte(), 0x16]),
                't' => Some([0x00, 0x17]),
                'T' => Some([Modifier::LeftShift.to_mkbyte(), 0x17]),
                'u' => Some([0x00, 0x18]),
                'U' => Some([Modifier::LeftShift.to_mkbyte(), 0x18]),
                'v' => Some([0x00, 0x19]),
                'V' => Some([Modifier::LeftShift.to_mkbyte(), 0x19]),
                'w' => Some([0x00, 0x1A]),
                'W' => Some([Modifier::LeftShift.to_mkbyte(), 0x1A]),
                'x' => Some([0x00, 0x1B]),
                'X' => Some([Modifier::LeftShift.to_mkbyte(), 0x1B]),
                'y' => Some([0x00, 0x1C]),
                'Y' => Some([Modifier::LeftShift.to_mkbyte(), 0x1C]),
                'z' => Some([0x00, 0x1D]),
                'Z' => Some([Modifier::LeftShift.to_mkbyte(), 0x1D]),
                '1' => Some([0x00, 0x1E]),
                '!' => Some([Modifier::LeftShift.to_mkbyte(), 0x1E]),
                '2' => Some([0x00, 0x1F]),
                '@' => Some([Modifier::LeftShift.to_mkbyte(), 0x1F]),
                '3' => Some([0x00, 0x20]),
                '#' => Some([Modifier::LeftShift.to_mkbyte(), 0x20]),
                '4' => Some([0x00, 0x21]),
                '$' => Some([Modifier::LeftShift.to_mkbyte(), 0x21]),
                '5' => Some([0x00, 0x22]),
                '%' => Some([Modifier::LeftShift.to_mkbyte(), 0x22]),
                '6' => Some([0x00, 0x23]),
                '^' => Some([Modifier::LeftShift.to_mkbyte(), 0x23]),
                '7' => Some([0x00, 0x24]),
                '&' => Some([Modifier::LeftShift.to_mkbyte(), 0x24]),
                '8' => Some([0x00, 0x25]),
                '*' => Some([Modifier::LeftShift.to_mkbyte(), 0x25]),
                '9' => Some([0x00, 0x26]),
                '(' => Some([Modifier::LeftShift.to_mkbyte(), 0x26]),
                '0' => Some([0x00, 0x27]),
                ')' => Some([Modifier::LeftShift.to_mkbyte(), 0x27]),
                '-' => Some([0x00, 0x2D]),
                '_' => Some([Modifier::LeftShift.to_mkbyte(), 0x2D]),
                '=' => Some([0x00, 0x2E]),
                '+' => Some([Modifier::LeftShift.to_mkbyte(), 0x2E]),
                '[' => Some([0x00, 0x2F]),
                '{' => Some([Modifier::LeftShift.to_mkbyte(), 0x2F]),
                ']' => Some([0x00, 0x30]),
                '}' => Some([Modifier::LeftShift.to_mkbyte(), 0x30]),
                '\\' => Some([0x00, 0x31]),
                '|' => Some([Modifier::LeftShift.to_mkbyte(), 0x31]),
                ';' => Some([0x00, 0x33]),
                ':' => Some([Modifier::LeftShift.to_mkbyte(), 0x33]),
                '\'' => Some([0x00, 0x34]),
                '\u{201c}' => Some([Modifier::LeftShift.to_mkbyte(), 0x34]),
                '~' => Some([0x00, 0x35]),
                '`' => Some([Modifier::LeftShift.to_mkbyte(), 0x35]),
                ',' => Some([0x00, 0x36]),
                '<' => Some([Modifier::LeftShift.to_mkbyte(), 0x36]),
                '.' => Some([0x00, 0x37]),
                '>' => Some([Modifier::LeftShift.to_mkbyte(), 0x37]),
                '/' => Some([0x00, 0x38]),
                '?' => Some([Modifier::LeftShift.to_mkbyte(), 0x38]),
                _ => None,
            },
            KeyOrigin::Keypad => match *self {
                '/' => Some([0x00, 0x54]),
                '*' => Some([0x00, 0x55]),
                '-' => Some([0x00, 0x56]),
                '+' => Some([0x00, 0x57]),
                '=' => Some([0x00, 0x67]),
                '(' => Some([0x00, 0xB6]),
                ')' => Some([0x00, 0xB7]),
                '{' => Some([0x00, 0xB8]),
                '}' => Some([0x00, 0xB9]),
                'A' => Some([0x00, 0xBC]),
                'B' => Some([0x00, 0xBD]),
                'C' => Some([0x00, 0xBE]),
                'D' => Some([0x00, 0xBF]),
                'E' => Some([0x00, 0xC0]),
                'F' => Some([0x00, 0xC1]),
                '^' => Some([0x00, 0xC3]),
                '%' => Some([0x00, 0xC4]),
                '<' => Some([0x00, 0xC5]),
                '>' => Some([0x00, 0xC6]),
                '&' => Some([0x00, 0xC7]),
                '|' => Some([0x00, 0xC9]),
                ':' => Some([0x00, 0xCB]),
                '#' => Some([0x00, 0xCC]),
                '@' => Some([0x00, 0xCE]),
                '!' => Some([0x00, 0xCF]),
                _ => None,
            },
            KeyOrigin::Misc => None,
        }
    }
}

} // verus!
