//! The key and modifier symbol table: the closed set of symbolic keys,
//! the lookup from a lowercased key name (as bytes) to its key, and the
//! total map from a key to its platform key code.

use vstd::prelude::*;

verus! {

/// The closed set of symbolic keys a binding can name.
#[derive(Debug, Clone, Copy, PartialEq, Eq, Hash, Structural)]
pub enum TKey {
    A,
    B,
    C,
    D,
    E,
    F,
    G,
    H,
    I,
    J,
    K,
    L,
    M,
    N,
    O,
    P,
    Q,
    R,
    S,
    T,
    U,
    V,
    W,
    X,
    Y,
    Z,
    Num0,
    Num1,
    Num2,
    Num3,
    Num4,
    Num5,
    Num6,
    Num7,
    Num8,
    Num9,
    Kp0,
    Kp1,
    Kp2,
    Kp3,
    Kp4,
    Kp5,
    Kp6,
    Kp7,
    Kp8,
    Kp9,
    KpReturn,
    KpMinus,
    KpPlus,
    KpMultiply,
    KpDivide,
    KpDelete,
    F1,
    F2,
    F3,
    F4,
    F5,
    F6,
    F7,
    F8,
    F9,
    F10,
    F11,
    F12,
    F13,
    F14,
    F15,
    F16,
    F17,
    F18,
    F19,
    F20,
    F21,
    F22,
    F23,
    F24,
    Alt,
    AltGr,
    ControlLeft,
    ControlRight,
    ShiftLeft,
    ShiftRight,
    MetaLeft,
    MetaRight,
    Return,
    Space,
    Escape,
    Tab,
    Backspace,
    Delete,
    Insert,
    UpArrow,
    DownArrow,
    LeftArrow,
    RightArrow,
    Home,
    End,
    PageUp,
    PageDown,
    CapsLock,
    NumLock,
    ScrollLock,
    Pause,
    PrintScreen,
    BackQuote,
    Minus,
    Equal,
    LeftBracket,
    RightBracket,
    BackSlash,
    IntlBackslash,
    SemiColon,
    Quote,
    Comma,
    Dot,
    Slash,
    VolumeUp,
    VolumeDown,
    VolumeMute,
    BrightnessUp,
    BrightnessDown,
    PreviousTrack,
    PlayPause,
    PlayCd,
    NextTrack,
    Function,
}

/// The platform key code each symbolic key maps to; the map is total.
pub open spec fn spec_key_code(k: TKey) -> u16 {
    match k {
        TKey::A => 0x41,
        TKey::B => 0x42,
        TKey::C => 0x43,
        TKey::D => 0x44,
        TKey::E => 0x45,
        TKey::F => 0x46,
        TKey::G => 0x47,
        TKey::H => 0x48,
        TKey::I => 0x49,
        TKey::J => 0x4A,
        TKey::K => 0x4B,
        TKey::L => 0x4C,
        TKey::M => 0x4D,
        TKey::N => 0x4E,
        TKey::O => 0x4F,
        TKey::P => 0x50,
        TKey::Q => 0x51,
        TKey::R => 0x52,
        TKey::S => 0x53,
        TKey::T => 0x54,
        TKey::U => 0x55,
        TKey::V => 0x56,
        TKey::W => 0x57,
        TKey::X => 0x58,
        TKey::Y => 0x59,
        TKey::Z => 0x5A,
        TKey::Num0 => 0x30,
        TKey::Num1 => 0x31,
        TKey::Num2 => 0x32,
        TKey::Num3 => 0x33,
        TKey::Num4 => 0x34,
        TKey::Num5 => 0x35,
        TKey::Num6 => 0x36,
        TKey::Num7 => 0x37,
        TKey::Num8 => 0x38,
        TKey::Num9 => 0x39,
        TKey::Kp0 => 0x60,
        TKey::Kp1 => 0x61,
        TKey::Kp2 => 0x62,
        TKey::Kp3 => 0x63,
        TKey::Kp4 => 0x64,
        TKey::Kp5 => 0x65,
        TKey::Kp6 => 0x66,
        TKey::Kp7 => 0x67,
        TKey::Kp8 => 0x68,
        TKey::Kp9 => 0x69,
        TKey::KpReturn => 0x0D,
        TKey::KpMinus => 0x6D,
        TKey::KpPlus => 0x6B,
        TKey::KpMultiply => 0x6A,
        TKey::KpDivide => 0x6F,
        TKey::KpDelete => 0x2E,
        TKey::F1 => 0x70,
        TKey::F2 => 0x71,
        TKey::F3 => 0x72,
        TKey::F4 => 0x73,
        TKey::F5 => 0x74,
        TKey::F6 => 0x75,
        TKey::F7 => 0x76,
        TKey::F8 => 0x77,
        TKey::F9 => 0x78,
        TKey::F10 => 0x79,
        TKey::F11 => 0x7A,
        TKey::F12 => 0x7B,
        TKey::F13 => 0x7C,
        TKey::F14 => 0x7D,
        TKey::F15 => 0x7E,
        TKey::F16 => 0x7F,
        TKey::F17 => 0x80,
        TKey::F18 => 0x81,
        TKey::F19 => 0x82,
        TKey::F20 => 0x83,
        TKey::F21 => 0x84,
        TKey::F22 => 0x85,
        TKey::F23 => 0x86,
        TKey::F24 => 0x87,
        TKey::Alt => 0x12,
        TKey::AltGr => 0xA5,
        TKey::ControlLeft => 0xA2,
        TKey::ControlRight => 0xA3,
        TKey::ShiftLeft => 0xA0,
        TKey::ShiftRight => 0xA1,
        TKey::MetaLeft => 0x5B,
        TKey::MetaRight => 0x5C,
        TKey::Return => 0x0D,
        TKey::Space => 0x20,
        TKey::Escape => 0x1B,
        TKey::Tab => 0x09,
        TKey::Backspace => 0x08,
        TKey::Delete => 0x2E,
        TKey::Insert => 0x2D,
        TKey::UpArrow => 0x26,
        TKey::DownArrow => 0x28,
        TKey::LeftArrow => 0x25,
        TKey::RightArrow => 0x27,
        TKey::Home => 0x24,
        TKey::End => 0x23,
        TKey::PageUp => 0x21,
        TKey::PageDown => 0x22,
        TKey::CapsLock => 0x14,
        TKey::NumLock => 0x90,
        TKey::ScrollLock => 0x91,
        TKey::Pause => 0x13,
        TKey::PrintScreen => 0x2C,
        TKey::BackQuote => 0xC0,
        TKey::Minus => 0xBD,
        TKey::Equal => 0xBB,
        TKey::LeftBracket => 0xDB,
        TKey::RightBracket => 0xDD,
        TKey::BackSlash => 0xDC,
        TKey::IntlBackslash => 0xE2,
        TKey::SemiColon => 0xBA,
        TKey::Quote => 0xDE,
        TKey::Comma => 0xBC,
        TKey::Dot => 0xBE,
        TKey::Slash => 0xBF,
        TKey::VolumeUp => 0xAF,
        TKey::VolumeDown => 0xAE,
        TKey::VolumeMute => 0xAD,
        TKey::BrightnessUp => 0xF6,
        TKey::BrightnessDown => 0xF5,
        TKey::PreviousTrack => 0xB1,
        TKey::PlayPause => 0xB3,
        TKey::PlayCd => 0xFA,
        TKey::NextTrack => 0xB0,
        TKey::Function => 0xFF,
    }
}
/// The key a lowercased name of the binding syntax denotes, if any.
pub open spec fn spec_key_of(s: Seq<u8>) -> Option<TKey> {
    if s.len() == 1 {
        spec_key_of_1(s[0])
    } else if s.len() == 2 {
        spec_key_of_2(s[0], s[1])
    } else if s.len() == 3 {
        spec_key_of_3(s[0], s[1], s[2])
    } else if s.len() == 4 {
        spec_key_of_4(s[0], s[1], s[2], s[3])
    } else if s.len() == 5 {
        spec_key_of_5(s[0], s[1], s[2], s[3], s[4])
    } else if s.len() == 6 {
        spec_key_of_6(s[0], s[1], s[2], s[3], s[4], s[5])
    } else if s.len() == 7 {
        spec_key_of_7(s[0], s[1], s[2], s[3], s[4], s[5], s[6])
    } else if s.len() == 8 {
        spec_key_of_8(s[0], s[1], s[2], s[3], s[4], s[5], s[6], s[7])
    } else if s.len() == 9 {
        spec_key_of_9(s[0], s[1], s[2], s[3], s[4], s[5], s[6], s[7], s[8])
    } else if s.len() == 10 {
        spec_key_of_10(s[0], s[1], s[2], s[3], s[4], s[5], s[6], s[7], s[8], s[9])
    } else if s.len() == 11 {
        spec_key_of_11(s[0], s[1], s[2], s[3], s[4], s[5], s[6], s[7], s[8], s[9], s[10])
    } else if s.len() == 12 {
        spec_key_of_12(s[0], s[1], s[2], s[3], s[4], s[5], s[6], s[7], s[8], s[9], s[10], s[11])
    } else if s.len() == 13 {
        spec_key_of_13(s[0], s[1], s[2], s[3], s[4], s[5], s[6], s[7], s[8], s[9], s[10], s[11], s[12])
    } else if s.len() == 14 {
        spec_key_of_14(s[0], s[1], s[2], s[3], s[4], s[5], s[6], s[7], s[8], s[9], s[10], s[11], s[12], s[13])
    } else {
        None
    }
}

pub open spec fn spec_key_of_1(b0: u8) -> Option<TKey> {
    match b0 {
        97 => Some(TKey::A), // a
        98 => Some(TKey::B), // b
        99 => Some(TKey::C), // c
        100 => Some(TKey::D), // d
        101 => Some(TKey::E), // e
        102 => Some(TKey::F), // f
        103 => Some(TKey::G), // g
        104 => Some(TKey::H), // h
        105 => Some(TKey::I), // i
        106 => Some(TKey::J), // j
        107 => Some(TKey::K), // k
        108 => Some(TKey::L), // l
        109 => Some(TKey::M), // m
        110 => Some(TKey::N), // n
        111 => Some(TKey::O), // o
        112 => Some(TKey::P), // p
        113 => Some(TKey::Q), // q
        114 => Some(TKey::R), // r
        115 => Some(TKey::S), // s
        116 => Some(TKey::T), // t
        117 => Some(TKey::U), // u
        118 => Some(TKey::V), // v
        119 => Some(TKey::W), // w
        120 => Some(TKey::X), // x
        121 => Some(TKey::Y), // y
        122 => Some(TKey::Z), // z
        48 => Some(TKey::Num0), // 0
        49 => Some(TKey::Num1), // 1
        50 => Some(TKey::Num2), // 2
        51 => Some(TKey::Num3), // 3
        52 => Some(TKey::Num4), // 4
        53 => Some(TKey::Num5), // 5
        54 => Some(TKey::Num6), // 6
        55 => Some(TKey::Num7), // 7
        56 => Some(TKey::Num8), // 8
        57 => Some(TKey::Num9), // 9
        96 => Some(TKey::BackQuote), // `
        61 => Some(TKey::Equal), // =
        91 => Some(TKey::LeftBracket), // [
        93 => Some(TKey::RightBracket), // ]
        92 => Some(TKey::BackSlash), // \\
        59 => Some(TKey::SemiColon), // ;
        39 => Some(TKey::Quote), // '
        44 => Some(TKey::Comma), // ,
        46 => Some(TKey::Dot), // .
        47 => Some(TKey::Slash), // /
        _ => None,
    }
}

pub open spec fn spec_key_of_2(b0: u8, b1: u8) -> Option<TKey> {
    match (b0, b1) {
        (102, 49) => Some(TKey::F1), // f1
        (102, 50) => Some(TKey::F2), // f2
        (102, 51) => Some(TKey::F3), // f3
        (102, 52) => Some(TKey::F4), // f4
        (102, 53) => Some(TKey::F5), // f5
        (102, 54) => Some(TKey::F6), // f6
        (102, 55) => Some(TKey::F7), // f7
        (102, 56) => Some(TKey::F8), // f8
        (102, 57) => Some(TKey::F9), // f9
        (117, 112) => Some(TKey::UpArrow), // up
        _ => None,
    }
}

pub open spec fn spec_key_of_3(b0: u8, b1: u8, b2: u8) -> Option<TKey> {
    match (b0, b1, b2) {
        (107, 112, 48) => Some(TKey::Kp0), // kp0
        (107, 112, 49) => Some(TKey::Kp1), // kp1
        (107, 112, 50) => Some(TKey::Kp2), // kp2
        (107, 112, 51) => Some(TKey::Kp3), // kp3
        (107, 112, 52) => Some(TKey::Kp4), // kp4
        (107, 112, 53) => Some(TKey::Kp5), // kp5
        (107, 112, 54) => Some(TKey::Kp6), // kp6
        (107, 112, 55) => Some(TKey::Kp7), // kp7
        (107, 112, 56) => Some(TKey::Kp8), // kp8
        (107, 112, 57) => Some(TKey::Kp9), // kp9
        (102, 49, 48) => Some(TKey::F10), // f10
        (102, 49, 49) => Some(TKey::F11), // f11
        (102, 49, 50) => Some(TKey::F12), // f12
        (102, 49, 51) => Some(TKey::F13), // f13
        (102, 49, 52) => Some(TKey::F14), // f14
        (102, 49, 53) => Some(TKey::F15), // f15
        (102, 49, 54) => Some(TKey::F16), // f16
        (102, 49, 55) => Some(TKey::F17), // f17
        (102, 49, 56) => Some(TKey::F18), // f18
        (102, 49, 57) => Some(TKey::F19), // f19
        (102, 50, 48) => Some(TKey::F20), // f20
        (102, 50, 49) => Some(TKey::F21), // f21
        (102, 50, 50) => Some(TKey::F22), // f22
        (102, 50, 51) => Some(TKey::F23), // f23
        (102, 50, 52) => Some(TKey::F24), // f24
        (97, 108, 116) => Some(TKey::Alt), // alt
        (101, 115, 99) => Some(TKey::Escape), // esc
        (116, 97, 98) => Some(TKey::Tab), // tab
        (100, 101, 108) => Some(TKey::Delete), // del
        (101, 110, 100) => Some(TKey::End), // end
        _ => None,
    }
}

pub open spec fn spec_key_of_4(b0: u8, b1: u8, b2: u8, b3: u8) -> Option<TKey> {
    match (b0, b1, b2, b3) {
        (99, 116, 114, 108) => Some(TKey::ControlLeft), // ctrl
        (109, 101, 116, 97) => Some(TKey::MetaLeft), // meta
        (100, 111, 119, 110) => Some(TKey::DownArrow), // down
        (108, 101, 102, 116) => Some(TKey::LeftArrow), // left
        (104, 111, 109, 101) => Some(TKey::Home), // home
        _ => None,
    }
}

pub open spec fn spec_key_of_5(b0: u8, b1: u8, b2: u8, b3: u8, b4: u8) -> Option<TKey> {
    match (b0, b1, b2, b3, b4) {
        (97, 108, 116, 103, 114) => Some(TKey::AltGr), // altgr
        (115, 104, 105, 102, 116) => Some(TKey::ShiftLeft), // shift
        (101, 110, 116, 101, 114) => Some(TKey::Return), // enter
        (115, 112, 97, 99, 101) => Some(TKey::Space), // space
        (114, 105, 103, 104, 116) => Some(TKey::RightArrow), // right
        (112, 97, 117, 115, 101) => Some(TKey::Pause), // pause
        (109, 105, 110, 117, 115) => Some(TKey::Minus), // minus
        (101, 113, 117, 97, 108) => Some(TKey::Equal), // equal
        (115, 108, 97, 115, 104) => Some(TKey::Slash), // slash
        _ => None,
    }
}

pub open spec fn spec_key_of_6(b0: u8, b1: u8, b2: u8, b3: u8, b4: u8, b5: u8) -> Option<TKey> {
    match (b0, b1, b2, b3, b4, b5) {
        (107, 112, 112, 108, 117, 115) => Some(TKey::KpPlus), // kpplus
        (114, 101, 116, 117, 114, 110) => Some(TKey::Return), // return
        (101, 115, 99, 97, 112, 101) => Some(TKey::Escape), // escape
        (100, 101, 108, 101, 116, 101) => Some(TKey::Delete), // delete
        (105, 110, 115, 101, 114, 116) => Some(TKey::Insert), // insert
        (112, 97, 103, 101, 117, 112) => Some(TKey::PageUp), // pageup
        (112, 108, 97, 121, 99, 100) => Some(TKey::PlayCd), // playcd
        _ => None,
    }
}

pub open spec fn spec_key_of_7(b0: u8, b1: u8, b2: u8, b3: u8, b4: u8, b5: u8, b6: u8) -> Option<TKey> {
    match (b0, b1, b2, b3, b4, b5, b6) {
        (107, 112, 109, 105, 110, 117, 115) => Some(TKey::KpMinus), // kpminus
        (110, 117, 109, 108, 111, 99, 107) => Some(TKey::NumLock), // numlock
        _ => None,
    }
}

pub open spec fn spec_key_of_8(b0: u8, b1: u8, b2: u8, b3: u8, b4: u8, b5: u8, b6: u8, b7: u8) -> Option<TKey> {
    match (b0, b1, b2, b3, b4, b5, b6, b7) {
        (107, 112, 114, 101, 116, 117, 114, 110) => Some(TKey::KpReturn), // kpreturn
        (107, 112, 100, 105, 118, 105, 100, 101) => Some(TKey::KpDivide), // kpdivide
        (107, 112, 100, 101, 108, 101, 116, 101) => Some(TKey::KpDelete), // kpdelete
        (109, 101, 116, 97, 108, 101, 102, 116) => Some(TKey::MetaLeft), // metaleft
        (112, 97, 103, 101, 100, 111, 119, 110) => Some(TKey::PageDown), // pagedown
        (99, 97, 112, 115, 108, 111, 99, 107) => Some(TKey::CapsLock), // capslock
        (118, 111, 108, 117, 109, 101, 117, 112) => Some(TKey::VolumeUp), // volumeup
        (102, 117, 110, 99, 116, 105, 111, 110) => Some(TKey::Function), // function
        _ => None,
    }
}

pub open spec fn spec_key_of_9(b0: u8, b1: u8, b2: u8, b3: u8, b4: u8, b5: u8, b6: u8, b7: u8, b8: u8) -> Option<TKey> {
    match (b0, b1, b2, b3, b4, b5, b6, b7, b8) {
        (99, 116, 114, 108, 114, 105, 103, 104, 116) => Some(TKey::ControlRight), // ctrlright
        (115, 104, 105, 102, 116, 108, 101, 102, 116) => Some(TKey::ShiftLeft), // shiftleft
        (109, 101, 116, 97, 114, 105, 103, 104, 116) => Some(TKey::MetaRight), // metaright
        (98, 97, 99, 107, 115, 112, 97, 99, 101) => Some(TKey::Backspace), // backspace
        (98, 97, 99, 107, 113, 117, 111, 116, 101) => Some(TKey::BackQuote), // backquote
        (112, 108, 97, 121, 112, 97, 117, 115, 101) => Some(TKey::PlayPause), // playpause
        (110, 101, 120, 116, 116, 114, 97, 99, 107) => Some(TKey::NextTrack), // nexttrack
        _ => None,
    }
}

pub open spec fn spec_key_of_10(b0: u8, b1: u8, b2: u8, b3: u8, b4: u8, b5: u8, b6: u8, b7: u8, b8: u8, b9: u8) -> Option<TKey> {
    match (b0, b1, b2, b3, b4, b5, b6, b7, b8, b9) {
        (107, 112, 109, 117, 108, 116, 105, 112, 108, 121) => Some(TKey::KpMultiply), // kpmultiply
        (115, 104, 105, 102, 116, 114, 105, 103, 104, 116) => Some(TKey::ShiftRight), // shiftright
        (115, 99, 114, 111, 108, 108, 108, 111, 99, 107) => Some(TKey::ScrollLock), // scrolllock
        (118, 111, 108, 117, 109, 101, 100, 111, 119, 110) => Some(TKey::VolumeDown), // volumedown
        (118, 111, 108, 117, 109, 101, 109, 117, 116, 101) => Some(TKey::VolumeMute), // volumemute
        _ => None,
    }
}

pub open spec fn spec_key_of_11(b0: u8, b1: u8, b2: u8, b3: u8, b4: u8, b5: u8, b6: u8, b7: u8, b8: u8, b9: u8, b10: u8) -> Option<TKey> {
    match (b0, b1, b2, b3, b4, b5, b6, b7, b8, b9, b10) {
        (99, 111, 110, 116, 114, 111, 108, 108, 101, 102, 116) => Some(TKey::ControlLeft), // controlleft
        (112, 114, 105, 110, 116, 115, 99, 114, 101, 101, 110) => Some(TKey::PrintScreen), // printscreen
        _ => None,
    }
}

pub open spec fn spec_key_of_12(b0: u8, b1: u8, b2: u8, b3: u8, b4: u8, b5: u8, b6: u8, b7: u8, b8: u8, b9: u8, b10: u8, b11: u8) -> Option<TKey> {
    match (b0, b1, b2, b3, b4, b5, b6, b7, b8, b9, b10, b11) {
        (99, 111, 110, 116, 114, 111, 108, 114, 105, 103, 104, 116) => Some(TKey::ControlRight), // controlright
        (98, 114, 105, 103, 104, 116, 110, 101, 115, 115, 117, 112) => Some(TKey::BrightnessUp), // brightnessup
        _ => None,
    }
}

pub open spec fn spec_key_of_13(b0: u8, b1: u8, b2: u8, b3: u8, b4: u8, b5: u8, b6: u8, b7: u8, b8: u8, b9: u8, b10: u8, b11: u8, b12: u8) -> Option<TKey> {
    match (b0, b1, b2, b3, b4, b5, b6, b7, b8, b9, b10, b11, b12) {
        (105, 110, 116, 108, 98, 97, 99, 107, 115, 108, 97, 115, 104) => Some(TKey::IntlBackslash), // intlbackslash
        (112, 114, 101, 118, 105, 111, 117, 115, 116, 114, 97, 99, 107) => Some(TKey::PreviousTrack), // previoustrack
        _ => None,
    }
}

pub open spec fn spec_key_of_14(b0: u8, b1: u8, b2: u8, b3: u8, b4: u8, b5: u8, b6: u8, b7: u8, b8: u8, b9: u8, b10: u8, b11: u8, b12: u8, b13: u8) -> Option<TKey> {
    match (b0, b1, b2, b3, b4, b5, b6, b7, b8, b9, b10, b11, b12, b13) {
        (98, 114, 105, 103, 104, 116, 110, 101, 115, 115, 100, 111, 119, 110) => Some(TKey::BrightnessDown), // brightnessdown
        _ => None,
    }
}

/// Looks a lowercased key name up in the symbol table.
pub fn key_of(s: &[u8]) -> (r: Option<TKey>)
    ensures
        r == spec_key_of(s@),
{
    if s.len() == 1 {
        key_of_1(s[0])
    } else if s.len() == 2 {
        key_of_2(s[0], s[1])
    } else if s.len() == 3 {
        key_of_3(s[0], s[1], s[2])
    } else if s.len() == 4 {
        key_of_4(s[0], s[1], s[2], s[3])
    } else if s.len() == 5 {
        key_of_5(s[0], s[1], s[2], s[3], s[4])
    } else if s.len() == 6 {
        key_of_6(s[0], s[1], s[2], s[3], s[4], s[5])
    } else if s.len() == 7 {
        key_of_7(s[0], s[1], s[2], s[3], s[4], s[5], s[6])
    } else if s.len() == 8 {
        key_of_8(s[0], s[1], s[2], s[3], s[4], s[5], s[6], s[7])
    } else if s.len() == 9 {
        key_of_9(s[0], s[1], s[2], s[3], s[4], s[5], s[6], s[7], s[8])
    } else if s.len() == 10 {
        key_of_10(s[0], s[1], s[2], s[3], s[4], s[5], s[6], s[7], s[8], s[9])
    } else if s.len() == 11 {
        key_of_11(s[0], s[1], s[2], s[3], s[4], s[5], s[6], s[7], s[8], s[9], s[10])
    } else if s.len() == 12 {
        key_of_12(s[0], s[1], s[2], s[3], s[4], s[5], s[6], s[7], s[8], s[9], s[10], s[11])
    } else if s.len() == 13 {
        key_of_13(s[0], s[1], s[2], s[3], s[4], s[5], s[6], s[7], s[8], s[9], s[10], s[11], s[12])
    } else if s.len() == 14 {
        key_of_14(s[0], s[1], s[2], s[3], s[4], s[5], s[6], s[7], s[8], s[9], s[10], s[11], s[12], s[13])
    } else {
        None
    }
}

fn key_of_1(b0: u8) -> (r: Option<TKey>)
    ensures
        r == spec_key_of_1(b0),
{
    match b0 {
        97 => Some(TKey::A), // a
        98 => Some(TKey::B), // b
        99 => Some(TKey::C), // c
        100 => Some(TKey::D), // d
        101 => Some(TKey::E), // e
        102 => Some(TKey::F), // f
        103 => Some(TKey::G), // g
        104 => Some(TKey::H), // h
        105 => Some(TKey::I), // i
        106 => Some(TKey::J), // j
        107 => Some(TKey::K), // k
        108 => Some(TKey::L), // l
        109 => Some(TKey::M), // m
        110 => Some(TKey::N), // n
        111 => Some(TKey::O), // o
        112 => Some(TKey::P), // p
        113 => Some(TKey::Q), // q
        114 => Some(TKey::R), // r
        115 => Some(TKey::S), // s
        116 => Some(TKey::T), // t
        117 => Some(TKey::U), // u
        118 => Some(TKey::V), // v
        119 => Some(TKey::W), // w
        120 => Some(TKey::X), // x
        121 => Some(TKey::Y), // y
        122 => Some(TKey::Z), // z
        48 => Some(TKey::Num0), // 0
        49 => Some(TKey::Num1), // 1
        50 => Some(TKey::Num2), // 2
        51 => Some(TKey::Num3), // 3
        52 => Some(TKey::Num4), // 4
        53 => Some(TKey::Num5), // 5
        54 => Some(TKey::Num6), // 6
        55 => Some(TKey::Num7), // 7
        56 => Some(TKey::Num8), // 8
        57 => Some(TKey::Num9), // 9
        96 => Some(TKey::BackQuote), // `
        61 => Some(TKey::Equal), // =
        91 => Some(TKey::LeftBracket), // [
        93 => Some(TKey::RightBracket), // ]
        92 => Some(TKey::BackSlash), // \\
        59 => Some(TKey::SemiColon), // ;
        39 => Some(TKey::Quote), // '
        44 => Some(TKey::Comma), // ,
        46 => Some(TKey::Dot), // .
        47 => Some(TKey::Slash), // /
        _ => None,
    }
}

fn key_of_2(b0: u8, b1: u8) -> (r: Option<TKey>)
    ensures
        r == spec_key_of_2(b0, b1),
{
    match (b0, b1) {
        (102, 49) => Some(TKey::F1), // f1
        (102, 50) => Some(TKey::F2), // f2
        (102, 51) => Some(TKey::F3), // f3
        (102, 52) => Some(TKey::F4), // f4
        (102, 53) => Some(TKey::F5), // f5
        (102, 54) => Some(TKey::F6), // f6
        (102, 55) => Some(TKey::F7), // f7
        (102, 56) => Some(TKey::F8), // f8
        (102, 57) => Some(TKey::F9), // f9
        (117, 112) => Some(TKey::UpArrow), // up
        _ => None,
    }
}

fn key_of_3(b0: u8, b1: u8, b2: u8) -> (r: Option<TKey>)
    ensures
        r == spec_key_of_3(b0, b1, b2),
{
    match (b0, b1, b2) {
        (107, 112, 48) => Some(TKey::Kp0), // kp0
        (107, 112, 49) => Some(TKey::Kp1), // kp1
        (107, 112, 50) => Some(TKey::Kp2), // kp2
        (107, 112, 51) => Some(TKey::Kp3), // kp3
        (107, 112, 52) => Some(TKey::Kp4), // kp4
        (107, 112, 53) => Some(TKey::Kp5), // kp5
        (107, 112, 54) => Some(TKey::Kp6), // kp6
        (107, 112, 55) => Some(TKey::Kp7), // kp7
        (107, 112, 56) => Some(TKey::Kp8), // kp8
        (107, 112, 57) => Some(TKey::Kp9), // kp9
        (102, 49, 48) => Some(TKey::F10), // f10
        (102, 49, 49) => Some(TKey::F11), // f11
        (102, 49, 50) => Some(TKey::F12), // f12
        (102, 49, 51) => Some(TKey::F13), // f13
        (102, 49, 52) => Some(TKey::F14), // f14
        (102, 49, 53) => Some(TKey::F15), // f15
        (102, 49, 54) => Some(TKey::F16), // f16
        (102, 49, 55) => Some(TKey::F17), // f17
        (102, 49, 56) => Some(TKey::F18), // f18
        (102, 49, 57) => Some(TKey::F19), // f19
        (102, 50, 48) => Some(TKey::F20), // f20
        (102, 50, 49) => Some(TKey::F21), // f21
        (102, 50, 50) => Some(TKey::F22), // f22
        (102, 50, 51) => Some(TKey::F23), // f23
        (102, 50, 52) => Some(TKey::F24), // f24
        (97, 108, 116) => Some(TKey::Alt), // alt
        (101, 115, 99) => Some(TKey::Escape), // esc
        (116, 97, 98) => Some(TKey::Tab), // tab
        (100, 101, 108) => Some(TKey::Delete), // del
        (101, 110, 100) => Some(TKey::End), // end
        _ => None,
    }
}

fn key_of_4(b0: u8, b1: u8, b2: u8, b3: u8) -> (r: Option<TKey>)
    ensures
        r == spec_key_of_4(b0, b1, b2, b3),
{
    match (b0, b1, b2, b3) {
        (99, 116, 114, 108) => Some(TKey::ControlLeft), // ctrl
        (109, 101, 116, 97) => Some(TKey::MetaLeft), // meta
        (100, 111, 119, 110) => Some(TKey::DownArrow), // down
        (108, 101, 102, 116) => Some(TKey::LeftArrow), // left
        (104, 111, 109, 101) => Some(TKey::Home), // home
        _ => None,
    }
}

fn key_of_5(b0: u8, b1: u8, b2: u8, b3: u8, b4: u8) -> (r: Option<TKey>)
    ensures
        r == spec_key_of_5(b0, b1, b2, b3, b4),
{
    match (b0, b1, b2, b3, b4) {
        (97, 108, 116, 103, 114) => Some(TKey::AltGr), // altgr
        (115, 104, 105, 102, 116) => Some(TKey::ShiftLeft), // shift
        (101, 110, 116, 101, 114) => Some(TKey::Return), // enter
        (115, 112, 97, 99, 101) => Some(TKey::Space), // space
        (114, 105, 103, 104, 116) => Some(TKey::RightArrow), // right
        (112, 97, 117, 115, 101) => Some(TKey::Pause), // pause
        (109, 105, 110, 117, 115) => Some(TKey::Minus), // minus
        (101, 113, 117, 97, 108) => Some(TKey::Equal), // equal
        (115, 108, 97, 115, 104) => Some(TKey::Slash), // slash
        _ => None,
    }
}

fn key_of_6(b0: u8, b1: u8, b2: u8, b3: u8, b4: u8, b5: u8) -> (r: Option<TKey>)
    ensures
        r == spec_key_of_6(b0, b1, b2, b3, b4, b5),
{
    match (b0, b1, b2, b3, b4, b5) {
        (107, 112, 112, 108, 117, 115) => Some(TKey::KpPlus), // kpplus
        (114, 101, 116, 117, 114, 110) => Some(TKey::Return), // return
        (101, 115, 99, 97, 112, 101) => Some(TKey::Escape), // escape
        (100, 101, 108, 101, 116, 101) => Some(TKey::Delete), // delete
        (105, 110, 115, 101, 114, 116) => Some(TKey::Insert), // insert
        (112, 97, 103, 101, 117, 112) => Some(TKey::PageUp), // pageup
        (112, 108, 97, 121, 99, 100) => Some(TKey::PlayCd), // playcd
        _ => None,
    }
}

fn key_of_7(b0: u8, b1: u8, b2: u8, b3: u8, b4: u8, b5: u8, b6: u8) -> (r: Option<TKey>)
    ensures
        r == spec_key_of_7(b0, b1, b2, b3, b4, b5, b6),
{
    match (b0, b1, b2, b3, b4, b5, b6) {
        (107, 112, 109, 105, 110, 117, 115) => Some(TKey::KpMinus), // kpminus
        (110, 117, 109, 108, 111, 99, 107) => Some(TKey::NumLock), // numlock
        _ => None,
    }
}

fn key_of_8(b0: u8, b1: u8, b2: u8, b3: u8, b4: u8, b5: u8, b6: u8, b7: u8) -> (r: Option<TKey>)
    ensures
        r == spec_key_of_8(b0, b1, b2, b3, b4, b5, b6, b7),
{
    match (b0, b1, b2, b3, b4, b5, b6, b7) {
        (107, 112, 114, 101, 116, 117, 114, 110) => Some(TKey::KpReturn), // kpreturn
        (107, 112, 100, 105, 118, 105, 100, 101) => Some(TKey::KpDivide), // kpdivide
        (107, 112, 100, 101, 108, 101, 116, 101) => Some(TKey::KpDelete), // kpdelete
        (109, 101, 116, 97, 108, 101, 102, 116) => Some(TKey::MetaLeft), // metaleft
        (112, 97, 103, 101, 100, 111, 119, 110) => Some(TKey::PageDown), // pagedown
        (99, 97, 112, 115, 108, 111, 99, 107) => Some(TKey::CapsLock), // capslock
        (118, 111, 108, 117, 109, 101, 117, 112) => Some(TKey::VolumeUp), // volumeup
        (102, 117, 110, 99, 116, 105, 111, 110) => Some(TKey::Function), // function
        _ => None,
    }
}

fn key_of_9(b0: u8, b1: u8, b2: u8, b3: u8, b4: u8, b5: u8, b6: u8, b7: u8, b8: u8) -> (r: Option<TKey>)
    ensures
        r == spec_key_of_9(b0, b1, b2, b3, b4, b5, b6, b7, b8),
{
    match (b0, b1, b2, b3, b4, b5, b6, b7, b8) {
        (99, 116, 114, 108, 114, 105, 103, 104, 116) => Some(TKey::ControlRight), // ctrlright
        (115, 104, 105, 102, 116, 108, 101, 102, 116) => Some(TKey::ShiftLeft), // shiftleft
        (109, 101, 116, 97, 114, 105, 103, 104, 116) => Some(TKey::MetaRight), // metaright
        (98, 97, 99, 107, 115, 112, 97, 99, 101) => Some(TKey::Backspace), // backspace
        (98, 97, 99, 107, 113, 117, 111, 116, 101) => Some(TKey::BackQuote), // backquote
        (112, 108, 97, 121, 112, 97, 117, 115, 101) => Some(TKey::PlayPause), // playpause
        (110, 101, 120, 116, 116, 114, 97, 99, 107) => Some(TKey::NextTrack), // nexttrack
        _ => None,
    }
}

fn key_of_10(b0: u8, b1: u8, b2: u8, b3: u8, b4: u8, b5: u8, b6: u8, b7: u8, b8: u8, b9: u8) -> (r: Option<TKey>)
    ensures
        r == spec_key_of_10(b0, b1, b2, b3, b4, b5, b6, b7, b8, b9),
{
    match (b0, b1, b2, b3, b4, b5, b6, b7, b8, b9) {
        (107, 112, 109, 117, 108, 116, 105, 112, 108, 121) => Some(TKey::KpMultiply), // kpmultiply
        (115, 104, 105, 102, 116, 114, 105, 103, 104, 116) => Some(TKey::ShiftRight), // shiftright
        (115, 99, 114, 111, 108, 108, 108, 111, 99, 107) => Some(TKey::ScrollLock), // scrolllock
        (118, 111, 108, 117, 109, 101, 100, 111, 119, 110) => Some(TKey::VolumeDown), // volumedown
        (118, 111, 108, 117, 109, 101, 109, 117, 116, 101) => Some(TKey::VolumeMute), // volumemute
        _ => None,
    }
}

fn key_of_11(b0: u8, b1: u8, b2: u8, b3: u8, b4: u8, b5: u8, b6: u8, b7: u8, b8: u8, b9: u8, b10: u8) -> (r: Option<TKey>)
    ensures
        r == spec_key_of_11(b0, b1, b2, b3, b4, b5, b6, b7, b8, b9, b10),
{
    match (b0, b1, b2, b3, b4, b5, b6, b7, b8, b9, b10) {
        (99, 111, 110, 116, 114, 111, 108, 108, 101, 102, 116) => Some(TKey::ControlLeft), // controlleft
        (112, 114, 105, 110, 116, 115, 99, 114, 101, 101, 110) => Some(TKey::PrintScreen), // printscreen
        _ => None,
    }
}

fn key_of_12(b0: u8, b1: u8, b2: u8, b3: u8, b4: u8, b5: u8, b6: u8, b7: u8, b8: u8, b9: u8, b10: u8, b11: u8) -> (r: Option<TKey>)
    ensures
        r == spec_key_of_12(b0, b1, b2, b3, b4, b5, b6, b7, b8, b9, b10, b11),
{
    match (b0, b1, b2, b3, b4, b5, b6, b7, b8, b9, b10, b11) {
        (99, 111, 110, 116, 114, 111, 108, 114, 105, 103, 104, 116) => Some(TKey::ControlRight), // controlright
        (98, 114, 105, 103, 104, 116, 110, 101, 115, 115, 117, 112) => Some(TKey::BrightnessUp), // brightnessup
        _ => None,
    }
}

fn key_of_13(b0: u8, b1: u8, b2: u8, b3: u8, b4: u8, b5: u8, b6: u8, b7: u8, b8: u8, b9: u8, b10: u8, b11: u8, b12: u8) -> (r: Option<TKey>)
    ensures
        r == spec_key_of_13(b0, b1, b2, b3, b4, b5, b6, b7, b8, b9, b10, b11, b12),
{
    match (b0, b1, b2, b3, b4, b5, b6, b7, b8, b9, b10, b11, b12) {
        (105, 110, 116, 108, 98, 97, 99, 107, 115, 108, 97, 115, 104) => Some(TKey::IntlBackslash), // intlbackslash
        (112, 114, 101, 118, 105, 111, 117, 115, 116, 114, 97, 99, 107) => Some(TKey::PreviousTrack), // previoustrack
        _ => None,
    }
}

fn key_of_14(b0: u8, b1: u8, b2: u8, b3: u8, b4: u8, b5: u8, b6: u8, b7: u8, b8: u8, b9: u8, b10: u8, b11: u8, b12: u8, b13: u8) -> (r: Option<TKey>)
    ensures
        r == spec_key_of_14(b0, b1, b2, b3, b4, b5, b6, b7, b8, b9, b10, b11, b12, b13),
{
    match (b0, b1, b2, b3, b4, b5, b6, b7, b8, b9, b10, b11, b12, b13) {
        (98, 114, 105, 103, 104, 116, 110, 101, 115, 115, 100, 111, 119, 110) => Some(TKey::BrightnessDown), // brightnessdown
        _ => None,
    }
}

/// The platform key code of `k`, as `spec_key_code` gives it.
pub fn key_code(k: TKey) -> (r: u16)
    ensures
        r == spec_key_code(k),
{
    match k {
        TKey::A => 0x41,
        TKey::B => 0x42,
        TKey::C => 0x43,
        TKey::D => 0x44,
        TKey::E => 0x45,
        TKey::F => 0x46,
        TKey::G => 0x47,
        TKey::H => 0x48,
        TKey::I => 0x49,
        TKey::J => 0x4A,
        TKey::K => 0x4B,
        TKey::L => 0x4C,
        TKey::M => 0x4D,
        TKey::N => 0x4E,
        TKey::O => 0x4F,
        TKey::P => 0x50,
        TKey::Q => 0x51,
        TKey::R => 0x52,
        TKey::S => 0x53,
        TKey::T => 0x54,
        TKey::U => 0x55,
        TKey::V => 0x56,
        TKey::W => 0x57,
        TKey::X => 0x58,
        TKey::Y => 0x59,
        TKey::Z => 0x5A,
        TKey::Num0 => 0x30,
        TKey::Num1 => 0x31,
        TKey::Num2 => 0x32,
        TKey::Num3 => 0x33,
        TKey::Num4 => 0x34,
        TKey::Num5 => 0x35,
        TKey::Num6 => 0x36,
        TKey::Num7 => 0x37,
        TKey::Num8 => 0x38,
        TKey::Num9 => 0x39,
        TKey::Kp0 => 0x60,
        TKey::Kp1 => 0x61,
        TKey::Kp2 => 0x62,
        TKey::Kp3 => 0x63,
        TKey::Kp4 => 0x64,
        TKey::Kp5 => 0x65,
        TKey::Kp6 => 0x66,
        TKey::Kp7 => 0x67,
        TKey::Kp8 => 0x68,
        TKey::Kp9 => 0x69,
        TKey::KpReturn => 0x0D,
        TKey::KpMinus => 0x6D,
        TKey::KpPlus => 0x6B,
        TKey::KpMultiply => 0x6A,
        TKey::KpDivide => 0x6F,
        TKey::KpDelete => 0x2E,
        TKey::F1 => 0x70,
        TKey::F2 => 0x71,
        TKey::F3 => 0x72,
        TKey::F4 => 0x73,
        TKey::F5 => 0x74,
        TKey::F6 => 0x75,
        TKey::F7 => 0x76,
        TKey::F8 => 0x77,
        TKey::F9 => 0x78,
        TKey::F10 => 0x79,
        TKey::F11 => 0x7A,
        TKey::F12 => 0x7B,
        TKey::F13 => 0x7C,
        TKey::F14 => 0x7D,
        TKey::F15 => 0x7E,
        TKey::F16 => 0x7F,
        TKey::F17 => 0x80,
        TKey::F18 => 0x81,
        TKey::F19 => 0x82,
        TKey::F20 => 0x83,
        TKey::F21 => 0x84,
        TKey::F22 => 0x85,
        TKey::F23 => 0x86,
        TKey::F24 => 0x87,
        TKey::Alt => 0x12,
        TKey::AltGr => 0xA5,
        TKey::ControlLeft => 0xA2,
        TKey::ControlRight => 0xA3,
        TKey::ShiftLeft => 0xA0,
        TKey::ShiftRight => 0xA1,
        TKey::MetaLeft => 0x5B,
        TKey::MetaRight => 0x5C,
        TKey::Return => 0x0D,
        TKey::Space => 0x20,
        TKey::Escape => 0x1B,
        TKey::Tab => 0x09,
        TKey::Backspace => 0x08,
        TKey::Delete => 0x2E,
        TKey::Insert => 0x2D,
        TKey::UpArrow => 0x26,
        TKey::DownArrow => 0x28,
        TKey::LeftArrow => 0x25,
        TKey::RightArrow => 0x27,
        TKey::Home => 0x24,
        TKey::End => 0x23,
        TKey::PageUp => 0x21,
        TKey::PageDown => 0x22,
        TKey::CapsLock => 0x14,
        TKey::NumLock => 0x90,
        TKey::ScrollLock => 0x91,
        TKey::Pause => 0x13,
        TKey::PrintScreen => 0x2C,
        TKey::BackQuote => 0xC0,
        TKey::Minus => 0xBD,
        TKey::Equal => 0xBB,
        TKey::LeftBracket => 0xDB,
        TKey::RightBracket => 0xDD,
        TKey::BackSlash => 0xDC,
        TKey::IntlBackslash => 0xE2,
        TKey::SemiColon => 0xBA,
        TKey::Quote => 0xDE,
        TKey::Comma => 0xBC,
        TKey::Dot => 0xBE,
        TKey::Slash => 0xBF,
        TKey::VolumeUp => 0xAF,
        TKey::VolumeDown => 0xAE,
        TKey::VolumeMute => 0xAD,
        TKey::BrightnessUp => 0xF6,
        TKey::BrightnessDown => 0xF5,
        TKey::PreviousTrack => 0xB1,
        TKey::PlayPause => 0xB3,
        TKey::PlayCd => 0xFA,
        TKey::NextTrack => 0xB0,
        TKey::Function => 0xFF,
    }
}

} // verus!