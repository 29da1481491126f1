//! The native virtual-key protocol read as [`Key`] values and keyboard
//! [`Event`]s, including the extended-key disambiguation for the
//! shift/control/alt pairs and the Alt/F10 "system key" special case.

use vstd::prelude::*;
use crate::event::{Event, Key};

verus! {

/// The stable virtual-key to logical-key mapping: which [`Key`], if any, the
/// low byte of a key message's wParam stands for. Codes that are reserved,
/// unassigned, OEM-specific or not keys at all map to `None`.
pub open spec fn spec_translate_vk(vk: u8) -> Option<Key> {
    match vk {
        0x08 => Some(Key::Backspace),
        0x09 => Some(Key::Tab),
        0x0C => Some(Key::Clear),
        0x0D => Some(Key::Enter),
        0x10 => Some(Key::LShift),
        0x11 => Some(Key::LControl),
        0x12 => Some(Key::LAlt),
        0x13 => Some(Key::Pause),
        0x14 => Some(Key::CapsLock),
        0x15 => Some(Key::ImeKana),
        0x16 => Some(Key::ImeOn),
        0x17 => Some(Key::ImeJunja),
        0x18 => Some(Key::ImeFinal),
        0x19 => Some(Key::ImeKanji),
        0x1A => Some(Key::ImeOff),
        0x1B => Some(Key::Escape),
        0x1C => Some(Key::ImeConvert),
        0x1D => Some(Key::ImeNonConvert),
        0x1E => Some(Key::ImeAccept),
        0x1F => Some(Key::ImeModeChange),
        0x20 => Some(Key::Space),
        0x21 => Some(Key::PageUp),
        0x22 => Some(Key::PageDown),
        0x23 => Some(Key::End),
        0x24 => Some(Key::Home),
        0x25 => Some(Key::Left),
        0x26 => Some(Key::Up),
        0x27 => Some(Key::Right),
        0x28 => Some(Key::Down),
        0x29 => Some(Key::Select),
        0x2A => Some(Key::Print),
        0x2B => Some(Key::Execute),
        0x2C => Some(Key::PrintScreen),
        0x2D => Some(Key::Insert),
        0x2E => Some(Key::Delete),
        0x2F => Some(Key::Help),
        0x30 => Some(Key::Num0),
        0x31 => Some(Key::Num1),
        0x32 => Some(Key::Num2),
        0x33 => Some(Key::Num3),
        0x34 => Some(Key::Num4),
        0x35 => Some(Key::Num5),
        0x36 => Some(Key::Num6),
        0x37 => Some(Key::Num7),
        0x38 => Some(Key::Num8),
        0x39 => Some(Key::Num9),
        0x41 => Some(Key::A),
        0x42 => Some(Key::B),
        0x43 => Some(Key::C),
        0x44 => Some(Key::D),
        0x45 => Some(Key::E),
        0x46 => Some(Key::F),
        0x47 => Some(Key::G),
        0x48 => Some(Key::H),
        0x49 => Some(Key::I),
        0x4A => Some(Key::J),
        0x4B => Some(Key::K),
        0x4C => Some(Key::L),
        0x4D => Some(Key::M),
        0x4E => Some(Key::N),
        0x4F => Some(Key::O),
        0x50 => Some(Key::P),
        0x51 => Some(Key::Q),
        0x52 => Some(Key::R),
        0x53 => Some(Key::S),
        0x54 => Some(Key::T),
        0x55 => Some(Key::U),
        0x56 => Some(Key::V),
        0x57 => Some(Key::W),
        0x58 => Some(Key::X),
        0x59 => Some(Key::Y),
        0x5A => Some(Key::Z),
        0x5B => Some(Key::LSuper),
        0x5C => Some(Key::RSuper),
        0x5D => Some(Key::Applications),
        0x5F => Some(Key::Sleep),
        0x60 => Some(Key::Numpad0),
        0x61 => Some(Key::Numpad1),
        0x62 => Some(Key::Numpad2),
        0x63 => Some(Key::Numpad3),
        0x64 => Some(Key::Numpad4),
        0x65 => Some(Key::Numpad5),
        0x66 => Some(Key::Numpad6),
        0x67 => Some(Key::Numpad7),
        0x68 => Some(Key::Numpad8),
        0x69 => Some(Key::Numpad9),
        0x6A => Some(Key::Multiply),
        0x6B => Some(Key::Add),
        0x6C => Some(Key::Separator),
        0x6D => Some(Key::Subtract),
        0x6E => Some(Key::Decimal),
        0x6F => Some(Key::Divide),
        0x70 => Some(Key::F1),
        0x71 => Some(Key::F2),
        0x72 => Some(Key::F3),
        0x73 => Some(Key::F4),
        0x74 => Some(Key::F5),
        0x75 => Some(Key::F6),
        0x76 => Some(Key::F7),
        0x77 => Some(Key::F8),
        0x78 => Some(Key::F9),
        0x79 => Some(Key::F10),
        0x7A => Some(Key::F11),
        0x7B => Some(Key::F12),
        0x7C => Some(Key::F13),
        0x7D => Some(Key::F14),
        0x7E => Some(Key::F15),
        0x7F => Some(Key::F16),
        0x80 => Some(Key::F17),
        0x81 => Some(Key::F18),
        0x82 => Some(Key::F19),
        0x83 => Some(Key::F20),
        0x84 => Some(Key::F21),
        0x85 => Some(Key::F22),
        0x86 => Some(Key::F23),
        0x87 => Some(Key::F24),
        0x90 => Some(Key::NumLock),
        0x91 => Some(Key::ScrollLock),
        0xA0 => Some(Key::LShift),
        0xA1 => Some(Key::RShift),
        0xA2 => Some(Key::LControl),
        0xA3 => Some(Key::RControl),
        0xA4 => Some(Key::LAlt),
        0xA5 => Some(Key::RAlt),
        0xA6 => Some(Key::BrowserBack),
        0xA7 => Some(Key::BrowserForward),
        0xA8 => Some(Key::BrowserRefresh),
        0xA9 => Some(Key::BrowserStop),
        0xAA => Some(Key::BrowserSearch),
        0xAB => Some(Key::BrowserFavourites),
        0xAC => Some(Key::BrowserHome),
        0xAD => Some(Key::VolumeMute),
        0xAE => Some(Key::VolumeDown),
        0xAF => Some(Key::VolumeUp),
        0xB0 => Some(Key::MediaNextTrack),
        0xB1 => Some(Key::MediaPreviousTrack),
        0xB2 => Some(Key::MediaStop),
        0xB3 => Some(Key::MediaPlayPause),
        0xB4 => Some(Key::LaunchMail),
        0xB5 => Some(Key::LaunchMediaSelect),
        0xB6 => Some(Key::LaunchApplication1),
        0xB7 => Some(Key::LaunchApplication2),
        0xBA => Some(Key::Oem1),
        0xBB => Some(Key::Plus),
        0xBC => Some(Key::Comma),
        0xBD => Some(Key::Minus),
        0xBE => Some(Key::Period),
        0xBF => Some(Key::Oem2),
        0xC0 => Some(Key::Oem3),
        0xDB => Some(Key::Oem4),
        0xDC => Some(Key::Oem5),
        0xDD => Some(Key::Oem6),
        0xDE => Some(Key::Oem7),
        0xDF => Some(Key::Oem8),
        0xE2 => Some(Key::Oem102),
        0xE5 => Some(Key::ImeProcess),
        0xF6 => Some(Key::Attn),
        0xF7 => Some(Key::CrSel),
        0xF8 => Some(Key::ExSel),
        0xF9 => Some(Key::EraseEof),
        0xFA => Some(Key::Play),
        0xFB => Some(Key::Zoom),
        0xFD => Some(Key::Pa1),
        0xFE => Some(Key::OemClear),
        _ => None,
    }
}

/// Translates a key message's wParam into a logical key.
pub fn translate_vk(wparam: usize) -> (r: Option<Key>)
    ensures
        r == spec_translate_vk((wparam & 0xFF) as u8),
{
    let vk: u8 = (wparam & 0xFF) as u8;
    match vk {
        0x08 => Some(Key::Backspace),
        0x09 => Some(Key::Tab),
        0x0C => Some(Key::Clear),
        0x0D => Some(Key::Enter),
        0x10 => Some(Key::LShift),
        0x11 => Some(Key::LControl),
        0x12 => Some(Key::LAlt),
        0x13 => Some(Key::Pause),
        0x14 => Some(Key::CapsLock),
        0x15 => Some(Key::ImeKana),
        0x16 => Some(Key::ImeOn),
        0x17 => Some(Key::ImeJunja),
        0x18 => Some(Key::ImeFinal),
        0x19 => Some(Key::ImeKanji),
        0x1A => Some(Key::ImeOff),
        0x1B => Some(Key::Escape),
        0x1C => Some(Key::ImeConvert),
        0x1D => Some(Key::ImeNonConvert),
        0x1E => Some(Key::ImeAccept),
        0x1F => Some(Key::ImeModeChange),
        0x20 => Some(Key::Space),
        0x21 => Some(Key::PageUp),
        0x22 => Some(Key::PageDown),
        0x23 => Some(Key::End),
        0x24 => Some(Key::Home),
        0x25 => Some(Key::Left),
        0x26 => Some(Key::Up),
        0x27 => Some(Key::Right),
        0x28 => Some(Key::Down),
        0x29 => Some(Key::Select),
        0x2A => Some(Key::Print),
        0x2B => Some(Key::Execute),
        0x2C => Some(Key::PrintScreen),
        0x2D => Some(Key::Insert),
        0x2E => Some(Key::Delete),
        0x2F => Some(Key::Help),
        0x30 => Some(Key::Num0),
        0x31 => Some(Key::Num1),
        0x32 => Some(Key::Num2),
        0x33 => Some(Key::Num3),
        0x34 => Some(Key::Num4),
        0x35 => Some(Key::Num5),
        0x36 => Some(Key::Num6),
        0x37 => Some(Key::Num7),
        0x38 => Some(Key::Num8),
        0x39 => Some(Key::Num9),
        0x41 => Some(Key::A),
        0x42 => Some(Key::B),
        0x43 => Some(Key::C),
        0x44 => Some(Key::D),
        0x45 => Some(Key::E),
        0x46 => Some(Key::F),
        0x47 => Some(Key::G),
        0x48 => Some(Key::H),
        0x49 => Some(Key::I),
        0x4A => Some(Key::J),
        0x4B => Some(Key::K),
        0x4C => Some(Key::L),
        0x4D => Some(Key::M),
        0x4E => Some(Key::N),
        0x4F => Some(Key::O),
        0x50 => Some(Key::P),
        0x51 => Some(Key::Q),
        0x52 => Some(Key::R),
        0x53 => Some(Key::S),
        0x54 => Some(Key::T),
        0x55 => Some(Key::U),
        0x56 => Some(Key::V),
        0x57 => Some(Key::W),
        0x58 => Some(Key::X),
        0x59 => Some(Key::Y),
        0x5A => Some(Key::Z),
        0x5B => Some(Key::LSuper),
        0x5C => Some(Key::RSuper),
        0x5D => Some(Key::Applications),
        0x5F => Some(Key::Sleep),
        0x60 => Some(Key::Numpad0),
        0x61 => Some(Key::Numpad1),
        0x62 => Some(Key::Numpad2),
        0x63 => Some(Key::Numpad3),
        0x64 => Some(Key::Numpad4),
        0x65 => Some(Key::Numpad5),
        0x66 => Some(Key::Numpad6),
        0x67 => Some(Key::Numpad7),
        0x68 => Some(Key::Numpad8),
        0x69 => Some(Key::Numpad9),
        0x6A => Some(Key::Multiply),
        0x6B => Some(Key::Add),
        0x6C => Some(Key::Separator),
        0x6D => Some(Key::Subtract),
        0x6E => Some(Key::Decimal),
        0x6F => Some(Key::Divide),
        0x70 => Some(Key::F1),
        0x71 => Some(Key::F2),
        0x72 => Some(Key::F3),
        0x73 => Some(Key::F4),
        0x74 => Some(Key::F5),
        0x75 => Some(Key::F6),
        0x76 => Some(Key::F7),
        0x77 => Some(Key::F8),
        0x78 => Some(Key::F9),
        0x79 => Some(Key::F10),
        0x7A => Some(Key::F11),
        0x7B => Some(Key::F12),
        0x7C => Some(Key::F13),
        0x7D => Some(Key::F14),
        0x7E => Some(Key::F15),
        0x7F => Some(Key::F16),
        0x80 => Some(Key::F17),
        0x81 => Some(Key::F18),
        0x82 => Some(Key::F19),
        0x83 => Some(Key::F20),
        0x84 => Some(Key::F21),
        0x85 => Some(Key::F22),
        0x86 => Some(Key::F23),
        0x87 => Some(Key::F24),
        0x90 => Some(Key::NumLock),
        0x91 => Some(Key::ScrollLock),
        0xA0 => Some(Key::LShift),
        0xA1 => Some(Key::RShift),
        0xA2 => Some(Key::LControl),
        0xA3 => Some(Key::RControl),
        0xA4 => Some(Key::LAlt),
        0xA5 => Some(Key::RAlt),
        0xA6 => Some(Key::BrowserBack),
        0xA7 => Some(Key::BrowserForward),
        0xA8 => Some(Key::BrowserRefresh),
        0xA9 => Some(Key::BrowserStop),
        0xAA => Some(Key::BrowserSearch),
        0xAB => Some(Key::BrowserFavourites),
        0xAC => Some(Key::BrowserHome),
        0xAD => Some(Key::VolumeMute),
        0xAE => Some(Key::VolumeDown),
        0xAF => Some(Key::VolumeUp),
        0xB0 => Some(Key::MediaNextTrack),
        0xB1 => Some(Key::MediaPreviousTrack),
        0xB2 => Some(Key::MediaStop),
        0xB3 => Some(Key::MediaPlayPause),
        0xB4 => Some(Key::LaunchMail),
        0xB5 => Some(Key::LaunchMediaSelect),
        0xB6 => Some(Key::LaunchApplication1),
        0xB7 => Some(Key::LaunchApplication2),
        0xBA => Some(Key::Oem1),
        0xBB => Some(Key::Plus),
        0xBC => Some(Key::Comma),
        0xBD => Some(Key::Minus),
        0xBE => Some(Key::Period),
        0xBF => Some(Key::Oem2),
        0xC0 => Some(Key::Oem3),
        0xDB => Some(Key::Oem4),
        0xDC => Some(Key::Oem5),
        0xDD => Some(Key::Oem6),
        0xDE => Some(Key::Oem7),
        0xDF => Some(Key::Oem8),
        0xE2 => Some(Key::Oem102),
        0xE5 => Some(Key::ImeProcess),
        0xF6 => Some(Key::Attn),
        0xF7 => Some(Key::CrSel),
        0xF8 => Some(Key::ExSel),
        0xF9 => Some(Key::EraseEof),
        0xFA => Some(Key::Play),
        0xFB => Some(Key::Zoom),
        0xFD => Some(Key::Pa1),
        0xFE => Some(Key::OemClear),
        _ => None,
    }
}

/// What [`extend_key`] returns: the left-hand shift, control and alt keys
/// re-read as their right-hand siblings when the scancode or the extended
/// bit of lParam says so.
pub open spec fn spec_extend_key(key: Key, lparam: isize) -> Key {
    let scancode = (lparam & 0x00FF0000isize) >> 16;
    let extended_bit = (lparam & (1isize << 24)) != 0;
    match key {
        Key::LShift => if scancode == 54 { Key::RShift } else { Key::LShift },
        Key::LControl => if extended_bit { Key::RControl } else { Key::LControl },
        Key::LAlt => if extended_bit { Key::RAlt } else { Key::LAlt },
        x => x,
    }
}

/// Disambiguates left/right shift, control and alt from lParam's scancode
/// and extended-key bit; all other keys pass through unchanged.
pub fn extend_key(key: Key, lparam: isize) -> (r: Key)
    ensures
        r == spec_extend_key(key, lparam),
{
    let scancode: isize = (lparam & 0x00FF0000isize) >> 16;
    let extended_bit: bool = (lparam & (1isize << 24)) != 0;
    match key {
        Key::LShift => if scancode == 54 { Key::RShift } else { Key::LShift },
        Key::LControl => if extended_bit { Key::RControl } else { Key::LControl },
        Key::LAlt => if extended_bit { Key::RAlt } else { Key::LAlt },
        x => x,
    }
}

/// What [`map_tr_state`] returns: lParam bit 31 tells press from release,
/// and bit 30 tells a fresh press from an auto-repeat.
pub open spec fn spec_map_tr_state(key: Key, lparam: isize) -> Event {
    if (lparam & (1isize << 31)) == 0 {
        if (lparam & (1isize << 30)) != 0 {
            Event::KeyboardRepeat(key)
        } else {
            Event::KeyboardDown(key)
        }
    } else {
        Event::KeyboardUp(key)
    }
}

/// Wraps a key into the keyboard event lParam's transition bits call for.
pub fn map_tr_state(key: Key, lparam: isize) -> (r: Event)
    ensures
        r == spec_map_tr_state(key, lparam),
{
    if (lparam & (1isize << 31)) == 0 {
        if (lparam & (1isize << 30)) != 0 {
            Event::KeyboardRepeat(key)
        } else {
            Event::KeyboardDown(key)
        }
    } else {
        Event::KeyboardUp(key)
    }
}

/// What [`sys_key_event`] returns. A system key message is emitted both for
/// genuine Alt/F10 chords and, for legacy reasons, when no window has the
/// keyboard focus; only the former produce an event. Bit 29 of lParam is the
/// Alt-down flag, but it is clear when the Alt key itself is released, and
/// F10 sets no bit at all, so wParam and the transition bit are consulted
/// too.
pub open spec fn spec_sys_key_event(wparam: usize, lparam: isize) -> Option<Event> {
    let alt_bit = (lparam & (1isize << 29)) != 0;
    let transition_state = (lparam & (1isize << 31)) != 0;
    if (wparam & 0xFF) != 0x79 && !alt_bit && !transition_state {
        None
    } else {
        match spec_translate_vk((wparam & 0xFF) as u8) {
            Some(virtual_key) => Some(
                spec_map_tr_state(spec_extend_key(virtual_key, lparam), lparam),
            ),
            None => None,
        }
    }
}

/// Translates a system key message (`WM_SYSKEYDOWN`/`WM_SYSKEYUP`) into a
/// keyboard event, filtering out the messages that were not sent by a key.
pub fn sys_key_event(wparam: usize, lparam: isize) -> (r: Option<Event>)
    ensures
        r == spec_sys_key_event(wparam, lparam),
{
    let alt_bit: bool = (lparam & (1isize << 29)) != 0;
    let transition_state: bool = (lparam & (1isize << 31)) != 0;
    if (wparam & 0xFF) != (crate::win32::ffi::VK_F10 as usize) && !alt_bit && !transition_state {
        return None;
    }
    match translate_vk(wparam) {
        Some(virtual_key) => Some(map_tr_state(extend_key(virtual_key, lparam), lparam)),
        None => None,
    }
}

} // verus!
