//! The builder facade: defaults, setters, null sweeping, and the commands a
//! live window serves.

use ramen::monitor::{Scale, Size};
use ramen::window::{Controls, Cursor, Window, WindowBuilderExt};

#[test]
fn builder_defaults() {
    let b = Window::builder();
    assert_eq!(b.class_name, "ramen_window");
    assert_eq!(b.title, "a nice window");
    assert_eq!(b.cursor, Cursor::Arrow);
    assert_eq!(b.inner_size, Size::Logical(800, 608));
    assert!(!b.style.borderless);
    assert!(b.style.resizable);
    assert!(b.style.visible);
    assert_eq!(b.style.controls, Some(Controls::enabled()));
    assert!(!b.style.rtl_layout);
    assert!(!b.style.tool_window);
}

#[test]
fn builder_setters_chain() {
    let mut b = Window::builder();
    b.borderless(true)
        .resizable(false)
        .visible(false)
        .rtl_layout(true)
        .cursor(Cursor::Wait)
        .inner_size(Size::Physical(640, 480))
        .controls(None)
        .tool_window(true);
    assert!(b.style.borderless);
    assert!(!b.style.resizable);
    assert!(!b.style.visible);
    assert!(b.style.rtl_layout);
    assert!(b.style.tool_window);
    assert_eq!(b.cursor, Cursor::Wait);
    assert_eq!(b.inner_size, Size::Physical(640, 480));
    assert_eq!(b.style.controls, None);
}

#[test]
fn builder_sweeps_nulls_out_of_names() {
    let mut b = Window::builder();
    b.class_name(String::from("my\0class"));
    b.title(String::from("a\0b\0"));
    assert_eq!(b.class_name, "my class");
    assert_eq!(b.title, "a b ");
}

#[test]
fn build_hands_out_the_snapshot() {
    let mut b = Window::builder();
    b.cursor(Cursor::Cross);
    b.inner_size(Size::Physical(320, 200));
    let w = b.build().unwrap();
    assert!(w.is_live());
    assert!(!w.is_dpi_logical());
    assert_eq!(w.inner_size(), (Size::Physical(320, 200), Scale { dpi: 96 }));
    assert_eq!(w.style(), b.style);
    assert_eq!(
        w.title_wide(),
        &ramen::win32::imp::str_to_wstr("a nice window")
    );
}

#[test]
fn set_controls_round_trips_through_the_wire_bits() {
    let mut w = Window::builder().build().unwrap();
    let c = Controls::no_maximize();
    w.set_controls(Some(c));
    assert_eq!(w.style().controls, Some(c));
    w.set_controls(None);
    assert_eq!(w.style().controls, None);
    w.set_controls_async(Some(Controls::enabled()));
    assert_eq!(w.style().controls, Some(Controls::enabled()));
}

#[test]
fn set_window_attributes() {
    let mut w = Window::builder().build().unwrap();
    w.set_resizable(false);
    assert!(!w.style().resizable);
    w.set_resizable_async(true);
    assert!(w.style().resizable);
    w.set_visible(false);
    assert!(!w.style().visible);
    w.set_visible_async(true);
    assert!(w.style().visible);
    w.set_cursor(Cursor::Hand);
    w.set_cursor_async(Cursor::IBeam);
    w.set_inner_size(Size::Logical(500, 400));
    assert!(w.is_dpi_logical());
    assert_eq!(w.inner_size(), (Size::Logical(500, 400), Scale { dpi: 96 }));
    w.set_inner_size(Size::Physical(777, 555));
    assert!(!w.is_dpi_logical());
    assert_eq!(w.inner_size(), (Size::Physical(777, 555), Scale { dpi: 96 }));
}

#[test]
fn execute_runs_the_function_against_the_window() {
    let w = Window::builder().build().unwrap();
    let n = w.execute(|win| {
        assert!(win.is_live());
        1702
    });
    assert_eq!(n, 1702);
}

#[test]
fn controls_bits_round_trip() {
    assert_eq!(Controls::enabled().to_bits(), 7);
    assert_eq!(Controls::no_maximize().to_bits(), 5);
    assert_eq!(Controls::new(false, true, false).to_bits(), 2);
    for bits in 0..8u32 {
        assert_eq!(Controls::from_bits(bits).to_bits(), bits);
    }
    assert_eq!(Controls::from_bits(5), Controls::no_maximize());
    assert_eq!(Controls::default(), Controls::enabled());
}

#[test]
fn cursor_codes_round_trip() {
    let cursors = [
        Cursor::Arrow,
        Cursor::Blank,
        Cursor::Cross,
        Cursor::Hand,
        Cursor::Help,
        Cursor::IBeam,
        Cursor::Progress,
        Cursor::ResizeNESW,
        Cursor::ResizeNS,
        Cursor::ResizeNWSE,
        Cursor::ResizeWE,
        Cursor::ResizeAll,
        Cursor::Unavailable,
        Cursor::Wait,
    ];
    for c in cursors {
        assert_eq!(Cursor::from_code(c.to_code()), Some(c));
    }
    assert_eq!(Cursor::from_code(14), None);
}

#[test]
fn set_maximized_reports_the_transition() {
    let mut w = Window::builder().build().unwrap();
    w.set_maximized(true);
    // Repeating the state is not a transition and reports nothing.
    w.set_maximized(true);
    w.set_maximized_async(false);
    w.swap_events();
    assert_eq!(
        w.events(),
        &[
            ramen::event::Event::Maximize(true),
            ramen::event::Event::Maximize(false),
        ]
    );
}
