//! The keyboard half of the symbol vocabulary.
//!
//! A key is known to the host by its symbol and to the platform layer by the
//! text it prints for the key. Keys are named after their place on a QWERTY
//! board, not after the character they produce. This module holds the table
//! in both directions and proves that going one way and back loses nothing.

use vstd::prelude::*;
use crate::text::same_text;

verus! {

/// A key of the shared vocabulary.
#[derive(Clone, Copy, Debug, PartialEq, Eq, Hash, Structural)]
pub enum Key {
    Alt,
    AltGr,
    Backspace,
    CapsLock,
    ControlLeft,
    ControlRight,
    Delete,
    DownArrow,
    End,
    Escape,
    F1,
    F10,
    F11,
    F12,
    F2,
    F3,
    F4,
    F5,
    F6,
    F7,
    F8,
    F9,
    Home,
    LeftArrow,
    MetaLeft,
    MetaRight,
    PageDown,
    PageUp,
    Return,
    RightArrow,
    ShiftLeft,
    ShiftRight,
    Space,
    Tab,
    UpArrow,
    PrintScreen,
    ScrollLock,
    Pause,
    NumLock,
    BackQuote,
    Num1,
    Num2,
    Num3,
    Num4,
    Num5,
    Num6,
    Num7,
    Num8,
    Num9,
    Num0,
    Minus,
    Equal,
    KeyQ,
    KeyW,
    KeyE,
    KeyR,
    KeyT,
    KeyY,
    KeyU,
    KeyI,
    KeyO,
    KeyP,
    LeftBracket,
    RightBracket,
    KeyA,
    KeyS,
    KeyD,
    KeyF,
    KeyG,
    KeyH,
    KeyJ,
    KeyK,
    KeyL,
    SemiColon,
    Quote,
    BackSlash,
    IntlBackslash,
    KeyZ,
    KeyX,
    KeyC,
    KeyV,
    KeyB,
    KeyN,
    KeyM,
    Comma,
    Dot,
    Slash,
    Insert,
    KpReturn,
    KpMinus,
    KpPlus,
    KpMultiply,
    KpDivide,
    Kp0,
    Kp1,
    Kp2,
    Kp3,
    Kp4,
    Kp5,
    Kp6,
    Kp7,
    Kp8,
    Kp9,
    KpDelete,
    Function,
}

impl Key {
    /// The text by which the platform layer identifies this key.
    pub open spec fn name_of(self) -> Seq<char> {
        match self {
            Key::Alt => "Alt"@,
            Key::AltGr => "AltGr"@,
            Key::Backspace => "Backspace"@,
            Key::CapsLock => "CapsLock"@,
            Key::ControlLeft => "ControlLeft"@,
            Key::ControlRight => "ControlRight"@,
            Key::Delete => "Delete"@,
            Key::DownArrow => "DownArrow"@,
            Key::End => "End"@,
            Key::Escape => "Escape"@,
            Key::F1 => "F1"@,
            Key::F10 => "F10"@,
            Key::F11 => "F11"@,
            Key::F12 => "F12"@,
            Key::F2 => "F2"@,
            Key::F3 => "F3"@,
            Key::F4 => "F4"@,
            Key::F5 => "F5"@,
            Key::F6 => "F6"@,
            Key::F7 => "F7"@,
            Key::F8 => "F8"@,
            Key::F9 => "F9"@,
            Key::Home => "Home"@,
            Key::LeftArrow => "LeftArrow"@,
            Key::MetaLeft => "MetaLeft"@,
            Key::MetaRight => "MetaRight"@,
            Key::PageDown => "PageDown"@,
            Key::PageUp => "PageUp"@,
            Key::Return => "Return"@,
            Key::RightArrow => "RightArrow"@,
            Key::ShiftLeft => "ShiftLeft"@,
            Key::ShiftRight => "ShiftRight"@,
            Key::Space => "Space"@,
            Key::Tab => "Tab"@,
            Key::UpArrow => "UpArrow"@,
            Key::PrintScreen => "PrintScreen"@,
            Key::ScrollLock => "ScrollLock"@,
            Key::Pause => "Pause"@,
            Key::NumLock => "NumLock"@,
            Key::BackQuote => "BackQuote"@,
            Key::Num1 => "Num1"@,
            Key::Num2 => "Num2"@,
            Key::Num3 => "Num3"@,
            Key::Num4 => "Num4"@,
            Key::Num5 => "Num5"@,
            Key::Num6 => "Num6"@,
            Key::Num7 => "Num7"@,
            Key::Num8 => "Num8"@,
            Key::Num9 => "Num9"@,
            Key::Num0 => "Num0"@,
            Key::Minus => "Minus"@,
            Key::Equal => "Equal"@,
            Key::KeyQ => "KeyQ"@,
            Key::KeyW => "KeyW"@,
            Key::KeyE => "KeyE"@,
            Key::KeyR => "KeyR"@,
            Key::KeyT => "KeyT"@,
            Key::KeyY => "KeyY"@,
            Key::KeyU => "KeyU"@,
            Key::KeyI => "KeyI"@,
            Key::KeyO => "KeyO"@,
            Key::KeyP => "KeyP"@,
            Key::LeftBracket => "LeftBracket"@,
            Key::RightBracket => "RightBracket"@,
            Key::KeyA => "KeyA"@,
            Key::KeyS => "KeyS"@,
            Key::KeyD => "KeyD"@,
            Key::KeyF => "KeyF"@,
            Key::KeyG => "KeyG"@,
            Key::KeyH => "KeyH"@,
            Key::KeyJ => "KeyJ"@,
            Key::KeyK => "KeyK"@,
            Key::KeyL => "KeyL"@,
            Key::SemiColon => "SemiColon"@,
            Key::Quote => "Quote"@,
            Key::BackSlash => "BackSlash"@,
            Key::IntlBackslash => "IntlBackslash"@,
            Key::KeyZ => "KeyZ"@,
            Key::KeyX => "KeyX"@,
            Key::KeyC => "KeyC"@,
            Key::KeyV => "KeyV"@,
            Key::KeyB => "KeyB"@,
            Key::KeyN => "KeyN"@,
            Key::KeyM => "KeyM"@,
            Key::Comma => "Comma"@,
            Key::Dot => "Dot"@,
            Key::Slash => "Slash"@,
            Key::Insert => "Insert"@,
            Key::KpReturn => "KpReturn"@,
            Key::KpMinus => "KpMinus"@,
            Key::KpPlus => "KpPlus"@,
            Key::KpMultiply => "KpMultiply"@,
            Key::KpDivide => "KpDivide"@,
            Key::Kp0 => "Kp0"@,
            Key::Kp1 => "Kp1"@,
            Key::Kp2 => "Kp2"@,
            Key::Kp3 => "Kp3"@,
            Key::Kp4 => "Kp4"@,
            Key::Kp5 => "Kp5"@,
            Key::Kp6 => "Kp6"@,
            Key::Kp7 => "Kp7"@,
            Key::Kp8 => "Kp8"@,
            Key::Kp9 => "Kp9"@,
            Key::KpDelete => "KpDelete"@,
            Key::Function => "Function"@,
        }
    }

    /// The key that the platform layer identifies by `text`, if there is one.
    pub open spec fn named(text: Seq<char>) -> Option<Key> {
        if exists|k: Key| k.name_of() == text {
            Some(choose|k: Key| k.name_of() == text)
        } else {
            None
        }
    }

    /// The name of this key, as the platform layer prints it.
    pub fn name(self) -> (text: &'static str)
        ensures
            text@ == self.name_of(),
    {
        match self {
            Key::Alt => "Alt",
            Key::AltGr => "AltGr",
            Key::Backspace => "Backspace",
            Key::CapsLock => "CapsLock",
            Key::ControlLeft => "ControlLeft",
            Key::ControlRight => "ControlRight",
            Key::Delete => "Delete",
            Key::DownArrow => "DownArrow",
            Key::End => "End",
            Key::Escape => "Escape",
            Key::F1 => "F1",
            Key::F10 => "F10",
            Key::F11 => "F11",
            Key::F12 => "F12",
            Key::F2 => "F2",
            Key::F3 => "F3",
            Key::F4 => "F4",
            Key::F5 => "F5",
            Key::F6 => "F6",
            Key::F7 => "F7",
            Key::F8 => "F8",
            Key::F9 => "F9",
            Key::Home => "Home",
            Key::LeftArrow => "LeftArrow",
            Key::MetaLeft => "MetaLeft",
            Key::MetaRight => "MetaRight",
            Key::PageDown => "PageDown",
            Key::PageUp => "PageUp",
            Key::Return => "Return",
            Key::RightArrow => "RightArrow",
            Key::ShiftLeft => "ShiftLeft",
            Key::ShiftRight => "ShiftRight",
            Key::Space => "Space",
            Key::Tab => "Tab",
            Key::UpArrow => "UpArrow",
            Key::PrintScreen => "PrintScreen",
            Key::ScrollLock => "ScrollLock",
            Key::Pause => "Pause",
            Key::NumLock => "NumLock",
            Key::BackQuote => "BackQuote",
            Key::Num1 => "Num1",
            Key::Num2 => "Num2",
            Key::Num3 => "Num3",
            Key::Num4 => "Num4",
            Key::Num5 => "Num5",
            Key::Num6 => "Num6",
            Key::Num7 => "Num7",
            Key::Num8 => "Num8",
            Key::Num9 => "Num9",
            Key::Num0 => "Num0",
            Key::Minus => "Minus",
            Key::Equal => "Equal",
            Key::KeyQ => "KeyQ",
            Key::KeyW => "KeyW",
            Key::KeyE => "KeyE",
            Key::KeyR => "KeyR",
            Key::KeyT => "KeyT",
            Key::KeyY => "KeyY",
            Key::KeyU => "KeyU",
            Key::KeyI => "KeyI",
            Key::KeyO => "KeyO",
            Key::KeyP => "KeyP",
            Key::LeftBracket => "LeftBracket",
            Key::RightBracket => "RightBracket",
            Key::KeyA => "KeyA",
            Key::KeyS => "KeyS",
            Key::KeyD => "KeyD",
            Key::KeyF => "KeyF",
            Key::KeyG => "KeyG",
            Key::KeyH => "KeyH",
            Key::KeyJ => "KeyJ",
            Key::KeyK => "KeyK",
            Key::KeyL => "KeyL",
            Key::SemiColon => "SemiColon",
            Key::Quote => "Quote",
            Key::BackSlash => "BackSlash",
            Key::IntlBackslash => "IntlBackslash",
            Key::KeyZ => "KeyZ",
            Key::KeyX => "KeyX",
            Key::KeyC => "KeyC",
            Key::KeyV => "KeyV",
            Key::KeyB => "KeyB",
            Key::KeyN => "KeyN",
            Key::KeyM => "KeyM",
            Key::Comma => "Comma",
            Key::Dot => "Dot",
            Key::Slash => "Slash",
            Key::Insert => "Insert",
            Key::KpReturn => "KpReturn",
            Key::KpMinus => "KpMinus",
            Key::KpPlus => "KpPlus",
            Key::KpMultiply => "KpMultiply",
            Key::KpDivide => "KpDivide",
            Key::Kp0 => "Kp0",
            Key::Kp1 => "Kp1",
            Key::Kp2 => "Kp2",
            Key::Kp3 => "Kp3",
            Key::Kp4 => "Kp4",
            Key::Kp5 => "Kp5",
            Key::Kp6 => "Kp6",
            Key::Kp7 => "Kp7",
            Key::Kp8 => "Kp8",
            Key::Kp9 => "Kp9",
            Key::KpDelete => "KpDelete",
            Key::Function => "Function",
        }
    }

    /// Looks `name` up in the vocabulary. A text that names no key, such as
    /// the platform layer's form for a key it does not know, gives `None`.
    /// By `lemma_key_name_round_trip` the name of a key gives that key.
    pub fn from_name(name: &str) -> (key: Option<Key>)
        ensures
            key == Key::named(name@),
            key matches Some(k) ==> k.name_of() == name@,
            key is None ==> forall|k: Key| k.name_of() != name@,
    {
        let found = Key::lookup(name);
        proof {
            if let Some(k) = found {
                lemma_key_names_distinct(k, Key::named(name@).unwrap());
            }
        }
        found
    }

    /// Walks the table from its first entry to its last.
    fn lookup(name: &str) -> (key: Option<Key>)
        ensures
            match key {
                Some(k) => k.name_of() == name@,
                None => forall|k: Key| k.name_of() != name@,
            },
    {
        if same_text(name, "Alt") {
            return Some(Key::Alt);
        }
        if same_text(name, "AltGr") {
            return Some(Key::AltGr);
        }
        if same_text(name, "Backspace") {
            return Some(Key::Backspace);
        }
        if same_text(name, "CapsLock") {
            return Some(Key::CapsLock);
        }
        if same_text(name, "ControlLeft") {
            return Some(Key::ControlLeft);
        }
        if same_text(name, "ControlRight") {
            return Some(Key::ControlRight);
        }
        if same_text(name, "Delete") {
            return Some(Key::Delete);
        }
        if same_text(name, "DownArrow") {
            return Some(Key::DownArrow);
        }
        if same_text(name, "End") {
            return Some(Key::End);
        }
        if same_text(name, "Escape") {
            return Some(Key::Escape);
        }
        if same_text(name, "F1") {
            return Some(Key::F1);
        }
        if same_text(name, "F10") {
            return Some(Key::F10);
        }
        if same_text(name, "F11") {
            return Some(Key::F11);
        }
        if same_text(name, "F12") {
            return Some(Key::F12);
        }
        if same_text(name, "F2") {
            return Some(Key::F2);
        }
        if same_text(name, "F3") {
            return Some(Key::F3);
        }
        if same_text(name, "F4") {
            return Some(Key::F4);
        }
        if same_text(name, "F5") {
            return Some(Key::F5);
        }
        if same_text(name, "F6") {
            return Some(Key::F6);
        }
        if same_text(name, "F7") {
            return Some(Key::F7);
        }
        if same_text(name, "F8") {
            return Some(Key::F8);
        }
        if same_text(name, "F9") {
            return Some(Key::F9);
        }
        if same_text(name, "Home") {
            return Some(Key::Home);
        }
        if same_text(name, "LeftArrow") {
            return Some(Key::LeftArrow);
        }
        if same_text(name, "MetaLeft") {
            return Some(Key::MetaLeft);
        }
        if same_text(name, "MetaRight") {
            return Some(Key::MetaRight);
        }
        if same_text(name, "PageDown") {
            return Some(Key::PageDown);
        }
        if same_text(name, "PageUp") {
            return Some(Key::PageUp);
        }
        if same_text(name, "Return") {
            return Some(Key::Return);
        }
        if same_text(name, "RightArrow") {
            return Some(Key::RightArrow);
        }
        if same_text(name, "ShiftLeft") {
            return Some(Key::ShiftLeft);
        }
        if same_text(name, "ShiftRight") {
            return Some(Key::ShiftRight);
        }
        if same_text(name, "Space") {
            return Some(Key::Space);
        }
        if same_text(name, "Tab") {
            return Some(Key::Tab);
        }
        if same_text(name, "UpArrow") {
            return Some(Key::UpArrow);
        }
        if same_text(name, "PrintScreen") {
            return Some(Key::PrintScreen);
        }
        if same_text(name, "ScrollLock") {
            return Some(Key::ScrollLock);
        }
        if same_text(name, "Pause") {
            return Some(Key::Pause);
        }
        if same_text(name, "NumLock") {
            return Some(Key::NumLock);
        }
        if same_text(name, "BackQuote") {
            return Some(Key::BackQuote);
        }
        if same_text(name, "Num1") {
            return Some(Key::Num1);
        }
        if same_text(name, "Num2") {
            return Some(Key::Num2);
        }
        if same_text(name, "Num3") {
            return Some(Key::Num3);
        }
        if same_text(name, "Num4") {
            return Some(Key::Num4);
        }
        if same_text(name, "Num5") {
            return Some(Key::Num5);
        }
        if same_text(name, "Num6") {
            return Some(Key::Num6);
        }
        if same_text(name, "Num7") {
            return Some(Key::Num7);
        }
        if same_text(name, "Num8") {
            return Some(Key::Num8);
        }
        if same_text(name, "Num9") {
            return Some(Key::Num9);
        }
        if same_text(name, "Num0") {
            return Some(Key::Num0);
        }
        if same_text(name, "Minus") {
            return Some(Key::Minus);
        }
        if same_text(name, "Equal") {
            return Some(Key::Equal);
        }
        if same_text(name, "KeyQ") {
            return Some(Key::KeyQ);
        }
        if same_text(name, "KeyW") {
            return Some(Key::KeyW);
        }
        if same_text(name, "KeyE") {
            return Some(Key::KeyE);
        }
        if same_text(name, "KeyR") {
            return Some(Key::KeyR);
        }
        if same_text(name, "KeyT") {
            return Some(Key::KeyT);
        }
        if same_text(name, "KeyY") {
            return Some(Key::KeyY);
        }
        if same_text(name, "KeyU") {
            return Some(Key::KeyU);
        }
        if same_text(name, "KeyI") {
            return Some(Key::KeyI);
        }
        if same_text(name, "KeyO") {
            return Some(Key::KeyO);
        }
        if same_text(name, "KeyP") {
            return Some(Key::KeyP);
        }
        if same_text(name, "LeftBracket") {
            return Some(Key::LeftBracket);
        }
        if same_text(name, "RightBracket") {
            return Some(Key::RightBracket);
        }
        if same_text(name, "KeyA") {
            return Some(Key::KeyA);
        }
        if same_text(name, "KeyS") {
            return Some(Key::KeyS);
        }
        if same_text(name, "KeyD") {
            return Some(Key::KeyD);
        }
        if same_text(name, "KeyF") {
            return Some(Key::KeyF);
        }
        if same_text(name, "KeyG") {
            return Some(Key::KeyG);
        }
        if same_text(name, "KeyH") {
            return Some(Key::KeyH);
        }
        if same_text(name, "KeyJ") {
            return Some(Key::KeyJ);
        }
        if same_text(name, "KeyK") {
            return Some(Key::KeyK);
        }
        if same_text(name, "KeyL") {
            return Some(Key::KeyL);
        }
        if same_text(name, "SemiColon") {
            return Some(Key::SemiColon);
        }
        if same_text(name, "Quote") {
            return Some(Key::Quote);
        }
        if same_text(name, "BackSlash") {
            return Some(Key::BackSlash);
        }
        if same_text(name, "IntlBackslash") {
            return Some(Key::IntlBackslash);
        }
        if same_text(name, "KeyZ") {
            return Some(Key::KeyZ);
        }
        if same_text(name, "KeyX") {
            return Some(Key::KeyX);
        }
        if same_text(name, "KeyC") {
            return Some(Key::KeyC);
        }
        if same_text(name, "KeyV") {
            return Some(Key::KeyV);
        }
        if same_text(name, "KeyB") {
            return Some(Key::KeyB);
        }
        if same_text(name, "KeyN") {
            return Some(Key::KeyN);
        }
        if same_text(name, "KeyM") {
            return Some(Key::KeyM);
        }
        if same_text(name, "Comma") {
            return Some(Key::Comma);
        }
        if same_text(name, "Dot") {
            return Some(Key::Dot);
        }
        if same_text(name, "Slash") {
            return Some(Key::Slash);
        }
        if same_text(name, "Insert") {
            return Some(Key::Insert);
        }
        if same_text(name, "KpReturn") {
            return Some(Key::KpReturn);
        }
        if same_text(name, "KpMinus") {
            return Some(Key::KpMinus);
        }
        if same_text(name, "KpPlus") {
            return Some(Key::KpPlus);
        }
        if same_text(name, "KpMultiply") {
            return Some(Key::KpMultiply);
        }
        if same_text(name, "KpDivide") {
            return Some(Key::KpDivide);
        }
        if same_text(name, "Kp0") {
            return Some(Key::Kp0);
        }
        if same_text(name, "Kp1") {
            return Some(Key::Kp1);
        }
        if same_text(name, "Kp2") {
            return Some(Key::Kp2);
        }
        if same_text(name, "Kp3") {
            return Some(Key::Kp3);
        }
        if same_text(name, "Kp4") {
            return Some(Key::Kp4);
        }
        if same_text(name, "Kp5") {
            return Some(Key::Kp5);
        }
        if same_text(name, "Kp6") {
            return Some(Key::Kp6);
        }
        if same_text(name, "Kp7") {
            return Some(Key::Kp7);
        }
        if same_text(name, "Kp8") {
            return Some(Key::Kp8);
        }
        if same_text(name, "Kp9") {
            return Some(Key::Kp9);
        }
        if same_text(name, "KpDelete") {
            return Some(Key::KpDelete);
        }
        if same_text(name, "Function") {
            return Some(Key::Function);
        }
        None
    }
}

/// What tells one key name from every other: its length, its first
/// character and its last two.
spec fn mark(text: Seq<char>) -> (nat, char, char, char) {
    (text.len(), text[0], text[text.len() - 2], text[text.len() - 1])
}

/// No two keys share a name.
pub proof fn lemma_key_names_distinct(a: Key, b: Key)
    requires
        a.name_of() == b.name_of(),
    ensures
        a == b,
{
    reveal_strlit("Alt");
    reveal_strlit("AltGr");
    reveal_strlit("Backspace");
    reveal_strlit("CapsLock");
    reveal_strlit("ControlLeft");
    reveal_strlit("ControlRight");
    reveal_strlit("Delete");
    reveal_strlit("DownArrow");
    reveal_strlit("End");
    reveal_strlit("Escape");
    reveal_strlit("F1");
    reveal_strlit("F10");
    reveal_strlit("F11");
    reveal_strlit("F12");
    reveal_strlit("F2");
    reveal_strlit("F3");
    reveal_strlit("F4");
    reveal_strlit("F5");
    reveal_strlit("F6");
    reveal_strlit("F7");
    reveal_strlit("F8");
    reveal_strlit("F9");
    reveal_strlit("Home");
    reveal_strlit("LeftArrow");
    reveal_strlit("MetaLeft");
    reveal_strlit("MetaRight");
    reveal_strlit("PageDown");
    reveal_strlit("PageUp");
    reveal_strlit("Return");
    reveal_strlit("RightArrow");
    reveal_strlit("ShiftLeft");
    reveal_strlit("ShiftRight");
    reveal_strlit("Space");
    reveal_strlit("Tab");
    reveal_strlit("UpArrow");
    reveal_strlit("PrintScreen");
    reveal_strlit("ScrollLock");
    reveal_strlit("Pause");
    reveal_strlit("NumLock");
    reveal_strlit("BackQuote");
    reveal_strlit("Num1");
    reveal_strlit("Num2");
    reveal_strlit("Num3");
    reveal_strlit("Num4");
    reveal_strlit("Num5");
    reveal_strlit("Num6");
    reveal_strlit("Num7");
    reveal_strlit("Num8");
    reveal_strlit("Num9");
    reveal_strlit("Num0");
    reveal_strlit("Minus");
    reveal_strlit("Equal");
    reveal_strlit("KeyQ");
    reveal_strlit("KeyW");
    reveal_strlit("KeyE");
    reveal_strlit("KeyR");
    reveal_strlit("KeyT");
    reveal_strlit("KeyY");
    reveal_strlit("KeyU");
    reveal_strlit("KeyI");
    reveal_strlit("KeyO");
    reveal_strlit("KeyP");
    reveal_strlit("LeftBracket");
    reveal_strlit("RightBracket");
    reveal_strlit("KeyA");
    reveal_strlit("KeyS");
    reveal_strlit("KeyD");
    reveal_strlit("KeyF");
    reveal_strlit("KeyG");
    reveal_strlit("KeyH");
    reveal_strlit("KeyJ");
    reveal_strlit("KeyK");
    reveal_strlit("KeyL");
    reveal_strlit("SemiColon");
    reveal_strlit("Quote");
    reveal_strlit("BackSlash");
    reveal_strlit("IntlBackslash");
    reveal_strlit("KeyZ");
    reveal_strlit("KeyX");
    reveal_strlit("KeyC");
    reveal_strlit("KeyV");
    reveal_strlit("KeyB");
    reveal_strlit("KeyN");
    reveal_strlit("KeyM");
    reveal_strlit("Comma");
    reveal_strlit("Dot");
    reveal_strlit("Slash");
    reveal_strlit("Insert");
    reveal_strlit("KpReturn");
    reveal_strlit("KpMinus");
    reveal_strlit("KpPlus");
    reveal_strlit("KpMultiply");
    reveal_strlit("KpDivide");
    reveal_strlit("Kp0");
    reveal_strlit("Kp1");
    reveal_strlit("Kp2");
    reveal_strlit("Kp3");
    reveal_strlit("Kp4");
    reveal_strlit("Kp5");
    reveal_strlit("Kp6");
    reveal_strlit("Kp7");
    reveal_strlit("Kp8");
    reveal_strlit("Kp9");
    reveal_strlit("KpDelete");
    reveal_strlit("Function");
    assert(mark("Alt"@) == (3nat, 'A', 'l', 't'));
    assert(mark("AltGr"@) == (5nat, 'A', 'G', 'r'));
    assert(mark("Backspace"@) == (9nat, 'B', 'c', 'e'));
    assert(mark("CapsLock"@) == (8nat, 'C', 'c', 'k'));
    assert(mark("ControlLeft"@) == (11nat, 'C', 'f', 't'));
    assert(mark("ControlRight"@) == (12nat, 'C', 'h', 't'));
    assert(mark("Delete"@) == (6nat, 'D', 't', 'e'));
    assert(mark("DownArrow"@) == (9nat, 'D', 'o', 'w'));
    assert(mark("End"@) == (3nat, 'E', 'n', 'd'));
    assert(mark("Escape"@) == (6nat, 'E', 'p', 'e'));
    assert(mark("F1"@) == (2nat, 'F', 'F', '1'));
    assert(mark("F10"@) == (3nat, 'F', '1', '0'));
    assert(mark("F11"@) == (3nat, 'F', '1', '1'));
    assert(mark("F12"@) == (3nat, 'F', '1', '2'));
    assert(mark("F2"@) == (2nat, 'F', 'F', '2'));
    assert(mark("F3"@) == (2nat, 'F', 'F', '3'));
    assert(mark("F4"@) == (2nat, 'F', 'F', '4'));
    assert(mark("F5"@) == (2nat, 'F', 'F', '5'));
    assert(mark("F6"@) == (2nat, 'F', 'F', '6'));
    assert(mark("F7"@) == (2nat, 'F', 'F', '7'));
    assert(mark("F8"@) == (2nat, 'F', 'F', '8'));
    assert(mark("F9"@) == (2nat, 'F', 'F', '9'));
    assert(mark("Home"@) == (4nat, 'H', 'm', 'e'));
    assert(mark("LeftArrow"@) == (9nat, 'L', 'o', 'w'));
    assert(mark("MetaLeft"@) == (8nat, 'M', 'f', 't'));
    assert(mark("MetaRight"@) == (9nat, 'M', 'h', 't'));
    assert(mark("PageDown"@) == (8nat, 'P', 'w', 'n'));
    assert(mark("PageUp"@) == (6nat, 'P', 'U', 'p'));
    assert(mark("Return"@) == (6nat, 'R', 'r', 'n'));
    assert(mark("RightArrow"@) == (10nat, 'R', 'o', 'w'));
    assert(mark("ShiftLeft"@) == (9nat, 'S', 'f', 't'));
    assert(mark("ShiftRight"@) == (10nat, 'S', 'h', 't'));
    assert(mark("Space"@) == (5nat, 'S', 'c', 'e'));
    assert(mark("Tab"@) == (3nat, 'T', 'a', 'b'));
    assert(mark("UpArrow"@) == (7nat, 'U', 'o', 'w'));
    assert(mark("PrintScreen"@) == (11nat, 'P', 'e', 'n'));
    assert(mark("ScrollLock"@) == (10nat, 'S', 'c', 'k'));
    assert(mark("Pause"@) == (5nat, 'P', 's', 'e'));
    assert(mark("NumLock"@) == (7nat, 'N', 'c', 'k'));
    assert(mark("BackQuote"@) == (9nat, 'B', 't', 'e'));
    assert(mark("Num1"@) == (4nat, 'N', 'm', '1'));
    assert(mark("Num2"@) == (4nat, 'N', 'm', '2'));
    assert(mark("Num3"@) == (4nat, 'N', 'm', '3'));
    assert(mark("Num4"@) == (4nat, 'N', 'm', '4'));
    assert(mark("Num5"@) == (4nat, 'N', 'm', '5'));
    assert(mark("Num6"@) == (4nat, 'N', 'm', '6'));
    assert(mark("Num7"@) == (4nat, 'N', 'm', '7'));
    assert(mark("Num8"@) == (4nat, 'N', 'm', '8'));
    assert(mark("Num9"@) == (4nat, 'N', 'm', '9'));
    assert(mark("Num0"@) == (4nat, 'N', 'm', '0'));
    assert(mark("Minus"@) == (5nat, 'M', 'u', 's'));
    assert(mark("Equal"@) == (5nat, 'E', 'a', 'l'));
    assert(mark("KeyQ"@) == (4nat, 'K', 'y', 'Q'));
    assert(mark("KeyW"@) == (4nat, 'K', 'y', 'W'));
    assert(mark("KeyE"@) == (4nat, 'K', 'y', 'E'));
    assert(mark("KeyR"@) == (4nat, 'K', 'y', 'R'));
    assert(mark("KeyT"@) == (4nat, 'K', 'y', 'T'));
    assert(mark("KeyY"@) == (4nat, 'K', 'y', 'Y'));
    assert(mark("KeyU"@) == (4nat, 'K', 'y', 'U'));
    assert(mark("KeyI"@) == (4nat, 'K', 'y', 'I'));
    assert(mark("KeyO"@) == (4nat, 'K', 'y', 'O'));
    assert(mark("KeyP"@) == (4nat, 'K', 'y', 'P'));
    assert(mark("LeftBracket"@) == (11nat, 'L', 'e', 't'));
    assert(mark("RightBracket"@) == (12nat, 'R', 'e', 't'));
    assert(mark("KeyA"@) == (4nat, 'K', 'y', 'A'));
    assert(mark("KeyS"@) == (4nat, 'K', 'y', 'S'));
    assert(mark("KeyD"@) == (4nat, 'K', 'y', 'D'));
    assert(mark("KeyF"@) == (4nat, 'K', 'y', 'F'));
    assert(mark("KeyG"@) == (4nat, 'K', 'y', 'G'));
    assert(mark("KeyH"@) == (4nat, 'K', 'y', 'H'));
    assert(mark("KeyJ"@) == (4nat, 'K', 'y', 'J'));
    assert(mark("KeyK"@) == (4nat, 'K', 'y', 'K'));
    assert(mark("KeyL"@) == (4nat, 'K', 'y', 'L'));
    assert(mark("SemiColon"@) == (9nat, 'S', 'o', 'n'));
    assert(mark("Quote"@) == (5nat, 'Q', 't', 'e'));
    assert(mark("BackSlash"@) == (9nat, 'B', 's', 'h'));
    assert(mark("IntlBackslash"@) == (13nat, 'I', 's', 'h'));
    assert(mark("KeyZ"@) == (4nat, 'K', 'y', 'Z'));
    assert(mark("KeyX"@) == (4nat, 'K', 'y', 'X'));
    assert(mark("KeyC"@) == (4nat, 'K', 'y', 'C'));
    assert(mark("KeyV"@) == (4nat, 'K', 'y', 'V'));
    assert(mark("KeyB"@) == (4nat, 'K', 'y', 'B'));
    assert(mark("KeyN"@) == (4nat, 'K', 'y', 'N'));
    assert(mark("KeyM"@) == (4nat, 'K', 'y', 'M'));
    assert(mark("Comma"@) == (5nat, 'C', 'm', 'a'));
    assert(mark("Dot"@) == (3nat, 'D', 'o', 't'));
    assert(mark("Slash"@) == (5nat, 'S', 's', 'h'));
    assert(mark("Insert"@) == (6nat, 'I', 'r', 't'));
    assert(mark("KpReturn"@) == (8nat, 'K', 'r', 'n'));
    assert(mark("KpMinus"@) == (7nat, 'K', 'u', 's'));
    assert(mark("KpPlus"@) == (6nat, 'K', 'u', 's'));
    assert(mark("KpMultiply"@) == (10nat, 'K', 'l', 'y'));
    assert(mark("KpDivide"@) == (8nat, 'K', 'd', 'e'));
    assert(mark("Kp0"@) == (3nat, 'K', 'p', '0'));
    assert(mark("Kp1"@) == (3nat, 'K', 'p', '1'));
    assert(mark("Kp2"@) == (3nat, 'K', 'p', '2'));
    assert(mark("Kp3"@) == (3nat, 'K', 'p', '3'));
    assert(mark("Kp4"@) == (3nat, 'K', 'p', '4'));
    assert(mark("Kp5"@) == (3nat, 'K', 'p', '5'));
    assert(mark("Kp6"@) == (3nat, 'K', 'p', '6'));
    assert(mark("Kp7"@) == (3nat, 'K', 'p', '7'));
    assert(mark("Kp8"@) == (3nat, 'K', 'p', '8'));
    assert(mark("Kp9"@) == (3nat, 'K', 'p', '9'));
    assert(mark("KpDelete"@) == (8nat, 'K', 't', 'e'));
    assert(mark("Function"@) == (8nat, 'F', 'o', 'n'));
}

/// Symbol to name and back: the name of a key identifies that key and no
/// other.
pub proof fn lemma_key_name_round_trip(k: Key)
    ensures
        Key::named(k.name_of()) == Some(k),
{
    lemma_key_names_distinct(k, Key::named(k.name_of()).unwrap());
}

/// Name to symbol and back: a text that identifies a key is exactly the name
/// that this key is given, so nothing is lost on the way.
pub proof fn lemma_key_named_round_trip(text: Seq<char>)
    requires
        Key::named(text) is Some,
    ensures
        Key::named(text).unwrap().name_of() == text,
{
}

} // verus!
