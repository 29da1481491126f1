//! The platform tables: style packing, key translation, DPI mode selection,
//! wide-string encoding, and the geometry helpers.

use ramen::event::{Event, Key};
use ramen::monitor::{scale_down, scale_up, Point, Scale, Size};
use ramen::util::{str_has_nulls, str_sweep_nulls, FixedVec};
use ramen::win32::ffi::{rect_to_size2d, RECT};
use ramen::win32::imp::{
    cursor_to_int_resource, is_hookproc_marked, str_to_wstr, style_as_win32, style_as_win32_ex,
    Win32DpiMode, Win32State, HOOKPROC_MARKER,
};
use ramen::win32::keyboard::{extend_key, map_tr_state, sys_key_event, translate_vk};
use ramen::window::{Controls, Cursor, Style, Window};

#[test]
fn default_style_packs_to_the_expected_bits() {
    let b = Window::builder();
    assert_eq!(style_as_win32(&b.style), 0x10CF_0000);
    assert_eq!(style_as_win32_ex(&b.style), 0);
}

#[test]
fn style_bits_reflect_each_attribute() {
    let style = Style {
        borderless: true,
        resizable: false,
        visible: false,
        controls: None,
        rtl_layout: true,
        tool_window: true,
    };
    // Borderless is popup plus thick frame; no controls, no visibility.
    assert_eq!(style_as_win32(&style), 0x8004_0000);
    assert_eq!(style_as_win32_ex(&style), 0x0040_0080);
    let no_max = Style {
        controls: Some(Controls::no_maximize()),
        ..Window::builder().style
    };
    // The maximize box bit is absent, the minimize box and menu are present.
    assert_eq!(style_as_win32(&no_max), 0x10CE_0000);
}

#[test]
fn stock_cursors_map_to_their_resources() {
    assert_eq!(cursor_to_int_resource(Cursor::Arrow), 32512);
    assert_eq!(cursor_to_int_resource(Cursor::Wait), 32514);
    assert_eq!(cursor_to_int_resource(Cursor::Blank), 0);
}

#[test]
fn virtual_keys_translate() {
    assert_eq!(translate_vk(0x41), Some(Key::A));
    assert_eq!(translate_vk(0x30), Some(Key::Num0));
    assert_eq!(translate_vk(0x79), Some(Key::F10));
    assert_eq!(translate_vk(0xA5), Some(Key::RAlt));
    // Only the low byte matters.
    assert_eq!(translate_vk(0x141), Some(Key::A));
    // Not a key / undefined codes.
    assert_eq!(translate_vk(0x01), None);
    assert_eq!(translate_vk(0x07), None);
    assert_eq!(translate_vk(0xFF), None);
}

#[test]
fn extended_keys_disambiguate() {
    // Scancode 54 in bits 16..24 marks the right shift key.
    assert_eq!(extend_key(Key::LShift, 54 << 16), Key::RShift);
    assert_eq!(extend_key(Key::LShift, 53 << 16), Key::LShift);
    // The extended bit (24) marks the right-hand control and alt keys.
    assert_eq!(extend_key(Key::LControl, 1 << 24), Key::RControl);
    assert_eq!(extend_key(Key::LAlt, 1 << 24), Key::RAlt);
    assert_eq!(extend_key(Key::LControl, 0), Key::LControl);
    // Other keys pass through whatever the bits say.
    assert_eq!(extend_key(Key::Space, 1 << 24), Key::Space);
}

#[test]
fn transition_bits_pick_the_event() {
    assert_eq!(map_tr_state(Key::A, 0), Event::KeyboardDown(Key::A));
    assert_eq!(map_tr_state(Key::A, 1 << 30), Event::KeyboardRepeat(Key::A));
    assert_eq!(map_tr_state(Key::A, 1 << 31), Event::KeyboardUp(Key::A));
}

#[test]
fn system_keys_filter_non_key_messages() {
    // F10 pressed: a genuine key even without the Alt bit.
    assert_eq!(sys_key_event(0x79, 0), Some(Event::KeyboardDown(Key::F10)));
    // Not F10, no Alt bit, not a release: not sent by a key.
    assert_eq!(sys_key_event(0x41, 0), None);
    // With the Alt bit it is a chord.
    assert_eq!(
        sys_key_event(0x41, 1 << 29),
        Some(Event::KeyboardDown(Key::A))
    );
    // A release is trusted even without the Alt bit (releasing Alt itself
    // clears it).
    assert_eq!(
        sys_key_event(0x12, 1isize << 31),
        Some(Event::KeyboardUp(Key::LAlt))
    );
}

#[test]
fn dpi_mode_picks_the_newest_available() {
    assert_eq!(
        Win32State::new(true, true, true, true).dpi_mode,
        Win32DpiMode::PerMonitorV2
    );
    assert_eq!(
        Win32State::new(true, true, true, false).dpi_mode,
        Win32DpiMode::PerMonitorV1
    );
    assert_eq!(
        Win32State::new(true, false, false, false).dpi_mode,
        Win32DpiMode::System
    );
    assert_eq!(
        Win32State::new(false, false, false, false).dpi_mode,
        Win32DpiMode::Unsupported
    );
}

#[test]
fn nonclient_scaling_needs_v2_or_updated_v1() {
    assert!(Win32State::new(true, true, true, true).nonclient_scaling_dpi_aware());
    assert!(Win32State::new(true, true, true, false).nonclient_scaling_dpi_aware());
    assert!(!Win32State::new(true, true, false, false).nonclient_scaling_dpi_aware());
    assert!(!Win32State::new(true, false, false, false).nonclient_scaling_dpi_aware());
}

#[test]
fn hookproc_marker_is_recognized() {
    assert!(is_hookproc_marked(HOOKPROC_MARKER));
    assert_eq!(HOOKPROC_MARKER, u32::from_le_bytes(*b"viri"));
    assert!(!is_hookproc_marked(0));
}

#[test]
fn wide_strings_encode_utf16_with_terminator() {
    assert_eq!(str_to_wstr(""), vec![0]);
    assert_eq!(str_to_wstr("A"), vec![0x41, 0]);
    assert_eq!(str_to_wstr("ab"), vec![0x61, 0x62, 0]);
    // The euro sign is one unit; the musical G clef needs a surrogate pair.
    assert_eq!(str_to_wstr("\u{20AC}"), vec![0x20AC, 0]);
    assert_eq!(str_to_wstr("\u{1D11E}"), vec![0xD834, 0xDD1E, 0]);
}

#[test]
fn null_detection_and_sweeping() {
    assert!(!str_has_nulls("hello"));
    assert!(str_has_nulls("he\0llo"));
    assert!(!str_has_nulls(""));
    let mut s = String::from("a\0b\0c");
    str_sweep_nulls(&mut s);
    assert_eq!(s, "a b c");
    let mut t = String::from("clean");
    str_sweep_nulls(&mut t);
    assert_eq!(t, "clean");
}

#[test]
fn scaling_is_exact_integer_math() {
    // 100 logical at 144 DPI is 150 physical (factor 1.5).
    assert_eq!(scale_up(100, 144), 150);
    assert_eq!(scale_down(150, 144), 100);
    // Division truncates.
    assert_eq!(scale_down(151, 144), 100);
    // Saturation at the top of the range.
    assert_eq!(scale_up(u32::MAX, u32::MAX), u32::MAX);
    let s = Scale { dpi: 144 };
    assert_eq!(Size::Logical(100, 50).as_physical(s), (150, 75));
    assert_eq!(Size::Physical(150, 75).as_logical(s), (100, 50));
    assert_eq!(Size::Logical(100, 50).as_logical(s), (100, 50));
    assert_eq!(Size::Physical(150, 75).to_logical(s), Size::Logical(100, 50));
    assert_eq!(Size::Logical(100, 50).to_physical(s), Size::Physical(150, 75));
    assert_eq!(Size::Logical(100, 50).scale_if_logical(s), (150, 75));
    assert_eq!(Size::Physical(150, 75).scale_if_logical(s), (150, 75));
    assert_eq!(Point::Physical(96, 48).as_logical(Scale { dpi: 96 }), (96, 48));
    assert_eq!(Point::Logical(10, 20).as_physical(Scale { dpi: 192 }), (20, 40));
    assert_eq!(Point::Logical(10, 20).to_physical(Scale { dpi: 192 }), Point::Physical(20, 40));
    assert_eq!(Point::Physical(20, 40).to_logical(Scale { dpi: 192 }), Point::Logical(10, 20));
    assert_eq!(Point::Physical(20, 40).scale_if_logical(Scale { dpi: 192 }), (20, 40));
    assert_eq!(Scale::new(120).dpi, 120);
    assert_eq!(Scale::identity().dpi, 96);
}

#[test]
fn rects_measure_their_span() {
    let r = RECT { left: -5, top: 10, right: 15, bottom: 40 };
    assert_eq!(rect_to_size2d(&r), (20, 30));
}

#[test]
fn fixed_vec_respects_its_capacity() {
    let mut v: FixedVec<u32, 2> = FixedVec::new();
    assert!(v.push(&1));
    assert!(v.push(&2));
    assert!(!v.push(&3));
    assert_eq!(v.slice(), &[1, 2]);
    v.clear();
    assert_eq!(v.slice(), &[] as &[u32]);
    assert!(v.push_many(&[7, 8]));
    assert!(!v.push_many(&[9]));
    assert_eq!(v.slice(), &[7, 8]);
}
