//! The message-pump state machine driven through a window handle: focus and
//! size events, close reasons, destroy exclusivity, and the two scenarios
//! from the design: title ordering and the focus-then-resize poll.

use ramen::error::Error;
use ramen::event::{CloseReason, Event, Key, MouseButton};
use ramen::monitor::{Point, Scale, Size};
use ramen::win32::ffi::{
    HCBT_DESTROYWND, SIZE_MAXIMIZED, SIZE_MINIMIZED, SIZE_RESTORED, WM_CLOSE, WM_DESTROY,
    WM_KEYDOWN, WM_LBUTTONDOWN, WM_MOUSEMOVE, WM_RBUTTONUP, WM_SETCURSOR, WM_SETFOCUS, WM_SIZE,
    WM_SYSCOMMAND, WM_SYSKEYDOWN, WM_XBUTTONDOWN,
};
use ramen::win32::imp::{
    hcbt_destroywnd_hookproc, spawn_window, str_to_wstr, HookDecision, NativeAction,
};
use ramen::window::{Window, WindowExt};

fn fresh_window() -> Window {
    Window::builder().build().unwrap()
}

#[test]
fn construction_failure_yields_no_window() {
    let builder = Window::builder();
    let result = spawn_window(&builder, Err(Error::Creation));
    match result {
        Err(Error::Creation) => {}
        Ok(_) => panic!("a failed construction must not produce a window"),
    }
}

#[test]
fn focus_then_resize_polls_in_order_then_empty() {
    let mut w = fresh_window();
    let (_, delivered) = w.pump_message(WM_SETFOCUS, 0, 0);
    assert!(delivered);
    // Client area starts at the logical default 800 x 608; report 400 x 300.
    let lparam: isize = (300 << 16) | 400;
    let (_, delivered) = w.pump_message(WM_SIZE, SIZE_RESTORED, lparam);
    assert!(delivered);
    w.swap_events();
    assert_eq!(
        w.events(),
        &[
            Event::Focus(true),
            Event::Resize(Size::Logical(400, 300), Scale { dpi: 96 }),
        ]
    );
    w.swap_events();
    assert_eq!(w.events(), &[] as &[Event]);
}

#[test]
fn async_then_sync_title_leaves_the_sync_title() {
    let mut w = fresh_window();
    assert!(w.style().resizable);
    assert!(w.style().visible);
    assert!(w.style().controls.is_some());
    w.set_title_async("X");
    w.set_title("Y");
    assert_eq!(w.title_wide(), &str_to_wstr("Y"));
    assert_eq!(w.title_wide(), &vec![0x59u16, 0]);
}

#[test]
fn focus_is_edge_triggered() {
    let mut w = fresh_window();
    w.pump_message(WM_SETFOCUS, 0, 0);
    w.pump_message(WM_SETFOCUS, 0, 0);
    w.swap_events();
    assert_eq!(w.events(), &[Event::Focus(true)]);
}

#[test]
fn close_reason_defaults_to_unknown() {
    let mut w = fresh_window();
    w.pump_message(WM_CLOSE, 0, 0);
    w.swap_events();
    assert_eq!(w.events(), &[Event::CloseRequest(CloseReason::Unknown)]);
}

#[test]
fn close_via_system_menu_reports_its_reason_once() {
    let mut w = fresh_window();
    // SC_CLOSE stores the reason; the close message consumes it.
    w.pump_message(WM_SYSCOMMAND, 0xF060, 0);
    w.pump_message(WM_CLOSE, 0, 0);
    w.pump_message(WM_CLOSE, 0, 0);
    w.swap_events();
    assert_eq!(
        w.events(),
        &[
            Event::CloseRequest(CloseReason::SystemMenu),
            Event::CloseRequest(CloseReason::Unknown),
        ]
    );
}

#[test]
fn alt_f4_requests_close_with_keyboard_reason() {
    let mut w = fresh_window();
    // F4 with the Alt bit (bit 29 of lParam) set.
    w.pump_message(WM_SYSKEYDOWN, 0x73, 1 << 29);
    w.swap_events();
    assert_eq!(
        w.events(),
        &[
            Event::CloseRequest(CloseReason::KeyboardShortcut),
            Event::KeyboardDown(Key::F4),
        ]
    );
}

#[test]
fn minimize_suppresses_spurious_zero_size() {
    let mut w = fresh_window();
    // Minimize reports a confusing (0, 0) client size, which is ignored.
    w.pump_message(WM_SIZE, SIZE_MINIMIZED, 0);
    w.swap_events();
    assert_eq!(w.events(), &[Event::Minimize(true)]);
    // Restore at the previous size: only the transition is reported.
    let lparam: isize = (608 << 16) | 800;
    w.pump_message(WM_SIZE, SIZE_RESTORED, lparam);
    w.swap_events();
    assert_eq!(w.events(), &[Event::Minimize(false)]);
}

#[test]
fn maximize_reports_transition_and_new_size() {
    let mut w = fresh_window();
    let lparam: isize = (1080 << 16) | 1920;
    w.pump_message(WM_SIZE, SIZE_MAXIMIZED, lparam);
    w.swap_events();
    assert_eq!(
        w.events(),
        &[
            Event::Maximize(true),
            Event::Resize(Size::Logical(1920, 1080), Scale { dpi: 96 }),
        ]
    );
}

#[test]
fn mouse_buttons_and_moves_become_events() {
    let mut w = fresh_window();
    w.pump_message(WM_LBUTTONDOWN, 0, 0);
    w.pump_message(WM_RBUTTONUP, 0, 0);
    // X button 1 rides in the high word of wParam.
    w.pump_message(WM_XBUTTONDOWN, 1 << 16, 0);
    // A move at (10, 20), inside the client area.
    w.pump_message(WM_MOUSEMOVE, 0, (20 << 16) | 10);
    // A move outside the client area is dropped.
    w.pump_message(WM_MOUSEMOVE, 0, (20 << 16) | 3000);
    w.swap_events();
    assert_eq!(
        w.events(),
        &[
            Event::MouseDown(MouseButton::Left),
            Event::MouseUp(MouseButton::Right),
            Event::MouseDown(MouseButton::Mouse4),
            Event::MouseMove(Point::Logical(10, 20), Scale { dpi: 96 }),
        ]
    );
}

#[test]
fn keydown_translates_the_virtual_key() {
    let mut w = fresh_window();
    w.pump_message(WM_KEYDOWN, 0x41, 0);
    w.swap_events();
    assert_eq!(w.events(), &[Event::KeyboardDown(Key::A)]);
}

#[test]
fn setcursor_in_client_area_sets_the_arrow() {
    let mut w = fresh_window();
    let hwnd = w.hwnd();
    let (d, _) = w.pump_message(WM_SETCURSOR, hwnd, 1);
    assert_eq!(d.reply, 1);
    assert_eq!(d.actions, vec![NativeAction::SetCursorIcon(32512)]);
    // Outside the client area the message is forwarded instead.
    let (d, _) = w.pump_message(WM_SETCURSOR, hwnd, 2);
    assert_eq!(d.reply, 0);
    assert_eq!(d.actions, vec![NativeAction::RunDefault]);
}

#[test]
fn external_destroy_attempt_is_rejected() {
    // A destroy attempt against one of this library's windows while the
    // destroy flag is clear must be refused; unrelated windows and events
    // are forwarded.
    assert_eq!(
        hcbt_destroywnd_hookproc(HCBT_DESTROYWND, true, false),
        HookDecision::Prevent
    );
    assert_eq!(
        hcbt_destroywnd_hookproc(HCBT_DESTROYWND, true, true),
        HookDecision::Allow
    );
    assert_eq!(
        hcbt_destroywnd_hookproc(HCBT_DESTROYWND, false, false),
        HookDecision::Forward
    );
    assert_eq!(
        hcbt_destroywnd_hookproc(0, true, false),
        HookDecision::Forward
    );
}

#[test]
fn destroy_message_posts_quit_only_when_authorized() {
    let mut w = fresh_window();
    // Without the destroy flag the destroy message posts no quit signal.
    let (d, _) = w.pump_message(WM_DESTROY, 0, 0);
    assert_eq!(d.actions, vec![]);
    assert!(w.is_live());
    // The authoritative teardown terminates the window.
    w.destroy();
    assert!(!w.is_live());
}
