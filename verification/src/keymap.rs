//! The table from X keysym codes to the UI runtime's logical keys.
//!
//! The windowing system reports keyboard input as X11 keysym codes, plain
//! `u32` values. The UI runtime wants logical keys; [`Key`] lists the ones
//! this crate forwards, and [`keysym_to_key`] is the table between the two.
//! A keysym outside the table is dropped by the caller, so unknown hardware
//! never crashes the loop.

use vstd::prelude::*;

verus! {

/// A logical key of the UI runtime, as far as the layer shell forwards them.
#[derive(Clone, Copy, Debug, PartialEq, Eq, Structural)]
pub enum Key {
    ArrowDown,
    ArrowLeft,
    ArrowRight,
    ArrowUp,
    Escape,
    Tab,
    Backspace,
    Enter,
    Space,
    Insert,
    Delete,
    Home,
    End,
    PageUp,
    PageDown,
    Copy,
    Cut,
    Paste,
    Colon,
    Comma,
    Backslash,
    Slash,
    Pipe,
    Questionmark,
    OpenBracket,
    CloseBracket,
    Backtick,
    Minus,
    Period,
    Plus,
    Equals,
    Semicolon,
    Quote,
    Num0,
    Num1,
    Num2,
    Num3,
    Num4,
    Num5,
    Num6,
    Num7,
    Num8,
    Num9,
    A,
    B,
    C,
    D,
    E,
    F,
    G,
    H,
    I,
    J,
    K,
    L,
    M,
    N,
    O,
    P,
    Q,
    R,
    S,
    T,
    U,
    V,
    W,
    X,
    Y,
    Z,
    F1,
    F2,
    F3,
    F4,
    F5,
    F6,
    F7,
    F8,
    F9,
    F10,
    F11,
    F12,
    F13,
    F14,
    F15,
    F16,
    F17,
    F18,
    F19,
    F20,
    F21,
    F22,
    F23,
    F24,
    F25,
    F26,
    F27,
    F28,
    F29,
    F30,
    F31,
    F32,
    F33,
    F34,
    F35,
}

/// The keysym table as a mathematical function: which logical key, if any, a
/// keysym code stands for.
pub open spec fn key_of(keysym: u32) -> Option<Key> {
    match keysym {
        0xff54u32 => Some(Key::ArrowDown),
        0xff51u32 => Some(Key::ArrowLeft),
        0xff53u32 => Some(Key::ArrowRight),
        0xff52u32 => Some(Key::ArrowUp),
        0xff1bu32 => Some(Key::Escape),
        0xff09u32 => Some(Key::Tab),
        0xff08u32 => Some(Key::Backspace),
        0xff0du32 => Some(Key::Enter),
        0x20u32 => Some(Key::Space),
        0xff63u32 => Some(Key::Insert),
        0xffffu32 => Some(Key::Delete),
        0xff50u32 => Some(Key::Home),
        0xff57u32 => Some(Key::End),
        0xff55u32 => Some(Key::PageUp),
        0xff56u32 => Some(Key::PageDown),
        0x1008ff57u32 => Some(Key::Copy),
        0x1008ff58u32 => Some(Key::Cut),
        0x1008ff6du32 => Some(Key::Paste),
        0x3au32 => Some(Key::Colon),
        0x2cu32 => Some(Key::Comma),
        0x5cu32 => Some(Key::Backslash),
        0x2fu32 => Some(Key::Slash),
        0x7cu32 => Some(Key::Pipe),
        0x3fu32 => Some(Key::Questionmark),
        0x28u32 => Some(Key::OpenBracket),
        0x29u32 => Some(Key::CloseBracket),
        0x60u32 => Some(Key::Backtick),
        0x2du32 => Some(Key::Minus),
        0x2eu32 => Some(Key::Period),
        0x2bu32 => Some(Key::Plus),
        0x3du32 => Some(Key::Equals),
        0x3bu32 => Some(Key::Semicolon),
        0x27u32 => Some(Key::Quote),
        0x30u32 => Some(Key::Num0),
        0x31u32 => Some(Key::Num1),
        0x32u32 => Some(Key::Num2),
        0x33u32 => Some(Key::Num3),
        0x34u32 => Some(Key::Num4),
        0x35u32 => Some(Key::Num5),
        0x36u32 => Some(Key::Num6),
        0x37u32 => Some(Key::Num7),
        0x38u32 => Some(Key::Num8),
        0x39u32 => Some(Key::Num9),
        0x61u32 => Some(Key::A),
        0x62u32 => Some(Key::B),
        0x63u32 => Some(Key::C),
        0x64u32 => Some(Key::D),
        0x65u32 => Some(Key::E),
        0x66u32 => Some(Key::F),
        0x67u32 => Some(Key::G),
        0x68u32 => Some(Key::H),
        0x69u32 => Some(Key::I),
        0x6au32 => Some(Key::J),
        0x6bu32 => Some(Key::K),
        0x6cu32 => Some(Key::L),
        0x6du32 => Some(Key::M),
        0x6eu32 => Some(Key::N),
        0x6fu32 => Some(Key::O),
        0x70u32 => Some(Key::P),
        0x71u32 => Some(Key::Q),
        0x72u32 => Some(Key::R),
        0x73u32 => Some(Key::S),
        0x74u32 => Some(Key::T),
        0x75u32 => Some(Key::U),
        0x76u32 => Some(Key::V),
        0x77u32 => Some(Key::W),
        0x78u32 => Some(Key::X),
        0x79u32 => Some(Key::Y),
        0x7au32 => Some(Key::Z),
        0xffbeu32 => Some(Key::F1),
        0xffbfu32 => Some(Key::F2),
        0xffc0u32 => Some(Key::F3),
        0xffc1u32 => Some(Key::F4),
        0xffc2u32 => Some(Key::F5),
        0xffc3u32 => Some(Key::F6),
        0xffc4u32 => Some(Key::F7),
        0xffc5u32 => Some(Key::F8),
        0xffc6u32 => Some(Key::F9),
        0xffc7u32 => Some(Key::F10),
        0xffc8u32 => Some(Key::F11),
        0xffc9u32 => Some(Key::F12),
        0xffcau32 => Some(Key::F13),
        0xffcbu32 => Some(Key::F14),
        0xffccu32 => Some(Key::F15),
        0xffcdu32 => Some(Key::F16),
        0xffceu32 => Some(Key::F17),
        0xffcfu32 => Some(Key::F18),
        0xffd0u32 => Some(Key::F19),
        0xffd1u32 => Some(Key::F20),
        0xffd2u32 => Some(Key::F21),
        0xffd3u32 => Some(Key::F22),
        0xffd4u32 => Some(Key::F23),
        0xffd5u32 => Some(Key::F24),
        0xffd6u32 => Some(Key::F25),
        0xffd7u32 => Some(Key::F26),
        0xffd8u32 => Some(Key::F27),
        0xffd9u32 => Some(Key::F28),
        0xffdau32 => Some(Key::F29),
        0xffdbu32 => Some(Key::F30),
        0xffdcu32 => Some(Key::F31),
        0xffddu32 => Some(Key::F32),
        0xffdeu32 => Some(Key::F33),
        0xffdfu32 => Some(Key::F34),
        0xffe0u32 => Some(Key::F35),
        _ => None,
    }
}

/// Looks a keysym code up in the table; `None` for a keysym this crate does
/// not forward.
pub fn keysym_to_key(keysym: u32) -> (r: Option<Key>)
    ensures
        r == key_of(keysym),
{
    match keysym {
        0xff54 => Some(Key::ArrowDown),
        0xff51 => Some(Key::ArrowLeft),
        0xff53 => Some(Key::ArrowRight),
        0xff52 => Some(Key::ArrowUp),
        0xff1b => Some(Key::Escape),
        0xff09 => Some(Key::Tab),
        0xff08 => Some(Key::Backspace),
        0xff0d => Some(Key::Enter),
        0x20 => Some(Key::Space),
        0xff63 => Some(Key::Insert),
        0xffff => Some(Key::Delete),
        0xff50 => Some(Key::Home),
        0xff57 => Some(Key::End),
        0xff55 => Some(Key::PageUp),
        0xff56 => Some(Key::PageDown),
        0x1008ff57 => Some(Key::Copy),
        0x1008ff58 => Some(Key::Cut),
        0x1008ff6d => Some(Key::Paste),
        0x3a => Some(Key::Colon),
        0x2c => Some(Key::Comma),
        0x5c => Some(Key::Backslash),
        0x2f => Some(Key::Slash),
        0x7c => Some(Key::Pipe),
        0x3f => Some(Key::Questionmark),
        0x28 => Some(Key::OpenBracket),
        0x29 => Some(Key::CloseBracket),
        0x60 => Some(Key::Backtick),
        0x2d => Some(Key::Minus),
        0x2e => Some(Key::Period),
        0x2b => Some(Key::Plus),
        0x3d => Some(Key::Equals),
        0x3b => Some(Key::Semicolon),
        0x27 => Some(Key::Quote),
        0x30 => Some(Key::Num0),
        0x31 => Some(Key::Num1),
        0x32 => Some(Key::Num2),
        0x33 => Some(Key::Num3),
        0x34 => Some(Key::Num4),
        0x35 => Some(Key::Num5),
        0x36 => Some(Key::Num6),
        0x37 => Some(Key::Num7),
        0x38 => Some(Key::Num8),
        0x39 => Some(Key::Num9),
        0x61 => Some(Key::A),
        0x62 => Some(Key::B),
        0x63 => Some(Key::C),
        0x64 => Some(Key::D),
        0x65 => Some(Key::E),
        0x66 => Some(Key::F),
        0x67 => Some(Key::G),
        0x68 => Some(Key::H),
        0x69 => Some(Key::I),
        0x6a => Some(Key::J),
        0x6b => Some(Key::K),
        0x6c => Some(Key::L),
        0x6d => Some(Key::M),
        0x6e => Some(Key::N),
        0x6f => Some(Key::O),
        0x70 => Some(Key::P),
        0x71 => Some(Key::Q),
        0x72 => Some(Key::R),
        0x73 => Some(Key::S),
        0x74 => Some(Key::T),
        0x75 => Some(Key::U),
        0x76 => Some(Key::V),
        0x77 => Some(Key::W),
        0x78 => Some(Key::X),
        0x79 => Some(Key::Y),
        0x7a => Some(Key::Z),
        0xffbe => Some(Key::F1),
        0xffbf => Some(Key::F2),
        0xffc0 => Some(Key::F3),
        0xffc1 => Some(Key::F4),
        0xffc2 => Some(Key::F5),
        0xffc3 => Some(Key::F6),
        0xffc4 => Some(Key::F7),
        0xffc5 => Some(Key::F8),
        0xffc6 => Some(Key::F9),
        0xffc7 => Some(Key::F10),
        0xffc8 => Some(Key::F11),
        0xffc9 => Some(Key::F12),
        0xffca => Some(Key::F13),
        0xffcb => Some(Key::F14),
        0xffcc => Some(Key::F15),
        0xffcd => Some(Key::F16),
        0xffce => Some(Key::F17),
        0xffcf => Some(Key::F18),
        0xffd0 => Some(Key::F19),
        0xffd1 => Some(Key::F20),
        0xffd2 => Some(Key::F21),
        0xffd3 => Some(Key::F22),
        0xffd4 => Some(Key::F23),
        0xffd5 => Some(Key::F24),
        0xffd6 => Some(Key::F25),
        0xffd7 => Some(Key::F26),
        0xffd8 => Some(Key::F27),
        0xffd9 => Some(Key::F28),
        0xffda => Some(Key::F29),
        0xffdb => Some(Key::F30),
        0xffdc => Some(Key::F31),
        0xffdd => Some(Key::F32),
        0xffde => Some(Key::F33),
        0xffdf => Some(Key::F34),
        0xffe0 => Some(Key::F35),
        _ => None,
    }
}

} // verus!
