//! The Win32 window model: process-wide DPI capability selection, style
//! packing, the wide-string encoding for native text, the destroy-hook
//! policy, the typed command channel, and the message-pump state machine.

use vstd::prelude::*;
use vstd::string::StrSliceExecFns;
use crate::window::{Controls, Cursor, Style};
use crate::win32::ffi::{
    HCBT_DESTROYWND, IDC_APPSTARTING, IDC_ARROW, IDC_CROSS, IDC_HAND, IDC_HELP, IDC_IBEAM,
    IDC_NO, IDC_SIZEALL, IDC_SIZENESW, IDC_SIZENS, IDC_SIZENWSE, IDC_SIZEWE, IDC_WAIT,
    WS_BORDER, WS_CAPTION, WS_EX_LAYOUTRTL, WS_EX_TOOLWINDOW, WS_MAXIMIZEBOX, WS_MINIMIZEBOX,
    WS_OVERLAPPED, WS_POPUP, WS_SYSMENU, WS_THICKFRAME, WS_VISIBLE,
};

verus! {

/// How many events fit in each half of a window's double buffer.
pub const MAX_EVENTS_PER_SWAP: usize = 4096;

/// The marker stored in class data to recognize this library's windows from
/// hook procedures (the bytes `viri` read as a little-endian word).
pub const HOOKPROC_MARKER: u32 = 0x69726976;

/// The DPI awareness mode enabled process-wide; the newest available one is
/// selected once at process start.
#[derive(Copy, Clone, Debug, Eq, PartialEq, Structural)]
pub enum Win32DpiMode {
    /// The system predates DPI awareness.
    Unsupported,
    /// One scale for the whole session.
    System,
    /// Per-monitor scaling, first revision.
    PerMonitorV1,
    /// Per-monitor scaling, second revision.
    PerMonitorV2,
}

/// What [`Win32State::new`] selects, given which platform capability levels
/// were detected: the newest available mode.
pub open spec fn spec_select_dpi_mode(
    at_least_vista: bool,
    at_least_8_point_1: bool,
    at_least_creators_update: bool,
) -> Win32DpiMode {
    if at_least_creators_update {
        Win32DpiMode::PerMonitorV2
    } else if at_least_8_point_1 {
        Win32DpiMode::PerMonitorV1
    } else if at_least_vista {
        Win32DpiMode::System
    } else {
        Win32DpiMode::Unsupported
    }
}

/// The once-computed, immutable process-wide platform capability snapshot:
/// the native shell consults it when sizing window frames, instead of any
/// hidden global state.
#[derive(Copy, Clone, Debug, Eq, PartialEq, Structural)]
pub struct Win32State {
    /// Whether the system has the update that lets per-monitor V1 scale the
    /// non-client frame.
    pub at_least_anniversary_update: bool,
    /// The DPI mode enabled process-wide.
    pub dpi_mode: Win32DpiMode,
}

impl Win32State {
    /// Selects the DPI mode from the detected capability levels. The version
    /// probes themselves are native calls; their results come in as flags.
    pub fn new(
        at_least_vista: bool,
        at_least_8_point_1: bool,
        at_least_anniversary_update: bool,
        at_least_creators_update: bool,
    ) -> (r: Win32State)
        ensures
            r.at_least_anniversary_update == at_least_anniversary_update,
            r.dpi_mode == spec_select_dpi_mode(
                at_least_vista,
                at_least_8_point_1,
                at_least_creators_update,
            ),
    {
        let dpi_mode = if at_least_creators_update {
            Win32DpiMode::PerMonitorV2
        } else if at_least_8_point_1 {
            Win32DpiMode::PerMonitorV1
        } else if at_least_vista {
            Win32DpiMode::System
        } else {
            Win32DpiMode::Unsupported
        };
        Win32State { at_least_anniversary_update, dpi_mode }
    }

    /// Whether the non-client frame is scaled by the DPI mode, which decides
    /// whether outer-size adjustment must use the DPI-aware native call or
    /// the legacy one. True for per-monitor V2 always, and for per-monitor V1
    /// from the anniversary update on.
    pub fn nonclient_scaling_dpi_aware(&self) -> (r: bool)
        ensures
            r == (self.dpi_mode == Win32DpiMode::PerMonitorV2 || (self.dpi_mode
                == Win32DpiMode::PerMonitorV1 && self.at_least_anniversary_update)),
    {
        match self.dpi_mode {
            Win32DpiMode::PerMonitorV1 => self.at_least_anniversary_update,
            Win32DpiMode::PerMonitorV2 => true,
            _ => false,
        }
    }
}

/// What [`cursor_to_int_resource`] returns: the stock-cursor integer
/// resource, or zero for the blank cursor (which loads no resource).
pub open spec fn spec_cursor_to_int_resource(cursor: Cursor) -> u32 {
    match cursor {
        Cursor::Arrow => IDC_ARROW,
        Cursor::Blank => 0,
        Cursor::Cross => IDC_CROSS,
        Cursor::Hand => IDC_HAND,
        Cursor::Help => IDC_HELP,
        Cursor::IBeam => IDC_IBEAM,
        Cursor::Progress => IDC_APPSTARTING,
        Cursor::ResizeNESW => IDC_SIZENESW,
        Cursor::ResizeNS => IDC_SIZENS,
        Cursor::ResizeNWSE => IDC_SIZENWSE,
        Cursor::ResizeWE => IDC_SIZEWE,
        Cursor::ResizeAll => IDC_SIZEALL,
        Cursor::Unavailable => IDC_NO,
        Cursor::Wait => IDC_WAIT,
    }
}

/// Maps a cursor to the integer resource the native image loader takes;
/// zero stands for no resource (the blank cursor).
pub fn cursor_to_int_resource(cursor: Cursor) -> (r: u32)
    ensures
        r == spec_cursor_to_int_resource(cursor),
{
    match cursor {
        Cursor::Arrow => IDC_ARROW,
        Cursor::Blank => 0,
        Cursor::Cross => IDC_CROSS,
        Cursor::Hand => IDC_HAND,
        Cursor::Help => IDC_HELP,
        Cursor::IBeam => IDC_IBEAM,
        Cursor::Progress => IDC_APPSTARTING,
        Cursor::ResizeNESW => IDC_SIZENESW,
        Cursor::ResizeNS => IDC_SIZENS,
        Cursor::ResizeNWSE => IDC_SIZENWSE,
        Cursor::ResizeWE => IDC_SIZEWE,
        Cursor::ResizeAll => IDC_SIZEALL,
        Cursor::Unavailable => IDC_NO,
        Cursor::Wait => IDC_WAIT,
    }
}

/// What [`style_as_win32`] packs: the window style bitfield. Note that it
/// does not include the close button, which is a menu property rather than a
/// window style.
pub open spec fn spec_style_as_win32(style: Style) -> u32 {
    let base: u32 = if style.borderless {
        WS_POPUP | WS_THICKFRAME
    } else {
        WS_OVERLAPPED | WS_BORDER | WS_CAPTION
    };
    let with_frame: u32 = if style.resizable {
        base | WS_THICKFRAME
    } else {
        base
    };
    let with_visible: u32 = if style.visible {
        with_frame | WS_VISIBLE
    } else {
        with_frame
    };
    match style.controls {
        Some(controls) => {
            let with_min: u32 = if controls.minimize {
                with_visible | WS_MINIMIZEBOX
            } else {
                with_visible
            };
            let with_max: u32 = if controls.maximize {
                with_min | WS_MAXIMIZEBOX
            } else {
                with_min
            };
            with_max | WS_SYSMENU
        },
        None => with_visible,
    }
}

/// Packs the style snapshot into the native window style bitfield.
pub fn style_as_win32(style: &Style) -> (r: u32)
    ensures
        r == spec_style_as_win32(*style),
{
    let mut dword: u32 = if style.borderless {
        WS_POPUP | WS_THICKFRAME
    } else {
        WS_OVERLAPPED | WS_BORDER | WS_CAPTION
    };
    if style.resizable {
        dword = dword | WS_THICKFRAME;
    }
    if style.visible {
        dword = dword | WS_VISIBLE;
    }
    match style.controls {
        Some(controls) => {
            if controls.minimize {
                dword = dword | WS_MINIMIZEBOX;
            }
            if controls.maximize {
                dword = dword | WS_MAXIMIZEBOX;
            }
            dword = dword | WS_SYSMENU;
        },
        None => {},
    }
    dword
}

/// What [`style_as_win32_ex`] packs: the extended window style bitfield.
pub open spec fn spec_style_as_win32_ex(style: Style) -> u32 {
    let base: u32 = if style.rtl_layout {
        WS_EX_LAYOUTRTL
    } else {
        0
    };
    if style.tool_window {
        base | WS_EX_TOOLWINDOW
    } else {
        base
    }
}

/// Packs the style snapshot into the extended window style bitfield.
pub fn style_as_win32_ex(style: &Style) -> (r: u32)
    ensures
        r == spec_style_as_win32_ex(*style),
{
    let mut dword: u32 = if style.rtl_layout {
        WS_EX_LAYOUTRTL
    } else {
        0
    };
    if style.tool_window {
        dword = dword | WS_EX_TOOLWINDOW;
    }
    dword
}

/// Whether a window's class data carries this library's marker, which is how
/// hook procedures recognize the library's own windows among unrelated ones.
pub fn is_hookproc_marked(class_data: u32) -> (r: bool)
    ensures
        r == (class_data == HOOKPROC_MARKER),
{
    class_data == HOOKPROC_MARKER
}

/// What a hook procedure may tell the system about an intercepted action.
#[derive(Copy, Clone, Debug, Eq, PartialEq, Structural)]
pub enum HookDecision {
    /// Let the action proceed.
    Allow,
    /// Refuse the action.
    Prevent,
    /// Not our business: forward to the next hook.
    Forward,
}

/// What [`hcbt_destroywnd_hookproc`] decides: a destroy of one of this
/// library's windows is allowed only when the window's own teardown set the
/// destroy flag first; an externally-triggered destroy is refused. Anything
/// else is forwarded.
pub open spec fn spec_hcbt_destroywnd(
    code: i32,
    is_marked_window: bool,
    destroy_flag: bool,
) -> HookDecision {
    if code == HCBT_DESTROYWND {
        if is_marked_window {
            if destroy_flag {
                HookDecision::Allow
            } else {
                HookDecision::Prevent
            }
        } else {
            HookDecision::Forward
        }
    } else {
        HookDecision::Forward
    }
}

/// Decides whether an intercepted window destruction may proceed. Nothing is
/// forwarded for this library's own windows: the destroy flag alone decides.
pub fn hcbt_destroywnd_hookproc(code: i32, is_marked_window: bool, destroy_flag: bool) -> (r:
    HookDecision)
    ensures
        r == spec_hcbt_destroywnd(code, is_marked_window, destroy_flag),
{
    if code == HCBT_DESTROYWND {
        if is_marked_window {
            if destroy_flag {
                HookDecision::Allow
            } else {
                HookDecision::Prevent
            }
        } else {
            HookDecision::Forward
        }
    } else {
        HookDecision::Forward
    }
}

/// The UTF-16 code units encoding one character.
pub open spec fn spec_utf16_units(c: char) -> Seq<u16> {
    let v = c as u32;
    if v < 0x10000 {
        seq![v as u16]
    } else {
        let off = (v - 0x10000) as u32;
        seq![(0xD800 + (off >> 10)) as u16, (0xDC00 + (off & 0x3FF)) as u16]
    }
}

/// The UTF-16 encoding of a string, character by character.
pub open spec fn spec_utf16(s: Seq<char>) -> Seq<u16>
    decreases s.len(),
{
    if s.len() == 0 {
        Seq::<u16>::empty()
    } else {
        spec_utf16(s.drop_last()) + spec_utf16_units(s.last())
    }
}

/// What [`str_to_wstr`] returns: the UTF-16 encoding with a NUL terminator,
/// which is the form the native text calls take.
pub open spec fn spec_wstr(s: Seq<char>) -> Seq<u16> {
    spec_utf16(s) + seq![0u16]
}

/// Converts a string to a NUL-terminated wide string for the native layer.
pub fn str_to_wstr(src: &str) -> (r: Vec<u16>)
    ensures
        r@ == spec_wstr(src@),
        r@.len() >= 1,
{
    let mut buf: Vec<u16> = Vec::new();
    let len = src.unicode_len();
    let mut i: usize = 0;
    while i < len
        invariant
            i <= len,
            len == src@.len(),
            buf@ == spec_utf16(src@.subrange(0, i as int)),
        decreases len - i,
    {
        let c = src.get_char(i);
        let v: u32 = c as u32;
        proof {
            assert(src@.subrange(0, i + 1).drop_last() =~= src@.subrange(0, i as int));
            assert(src@.subrange(0, i + 1).last() == src@[i as int]);
        }
        if v < 0x10000 {
            buf.push(v as u16);
            proof {
                assert(buf@ =~= spec_utf16(src@.subrange(0, i + 1)));
            }
        } else {
            let off: u32 = v - 0x10000;
            assert(off >> 10 <= 0x3FF && off & 0x3FF <= 0x3FF) by (bit_vector)
                requires
                    off <= 0xFFFFF,
            ;
            buf.push((0xD800 + (off >> 10)) as u16);
            buf.push((0xDC00 + (off & 0x3FF)) as u16);
            proof {
                assert(buf@ =~= spec_utf16(src@.subrange(0, i + 1)));
            }
        }
        i += 1;
    }
    buf.push(0u16);
    proof {
        assert(src@.subrange(0, len as int) =~= src@);
        assert(buf@ =~= spec_wstr(src@));
    }
    buf
}

} // verus!

use crate::event::{CloseReason, Event};
use crate::monitor::{Scale, Size};
use crate::win32::ffi::{
    SC_CLOSE, SC_MAXIMIZE, SC_RESTORE, SIZE_MAXIMIZED, SIZE_MINIMIZED, SIZE_RESTORED, VK_F4,
    WM_ACTIVATE, WM_ACTIVATEAPP, WM_CLOSE, WM_CREATE, WM_DESTROY, WM_ENABLE, WM_ERASEBKGND,
    WM_KEYDOWN, WM_KEYUP, WM_KILLFOCUS, WM_LBUTTONDOWN, WM_LBUTTONUP, WM_MBUTTONDOWN,
    WM_MBUTTONUP, WM_MOUSEMOVE, WM_MOUSEWHEEL, WM_NULL, WM_PAINT, WM_RBUTTONDOWN, WM_RBUTTONUP,
    WM_SETCURSOR, WM_SETFOCUS, WM_SETREDRAW, WM_SHOWWINDOW, WM_SIZE, WM_SYSCOMMAND,
    WM_SYSKEYDOWN, WM_SYSKEYUP, WM_XBUTTONDOWN, WM_XBUTTONUP, XBUTTON1, XBUTTON2,
};
use crate::win32::keyboard::{
    extend_key, map_tr_state, spec_extend_key, spec_map_tr_state, spec_sys_key_event,
    spec_translate_vk, sys_key_event, translate_vk,
};
use crate::event::{Key, MouseButton};
use crate::monitor::Point;

verus! {

/// The state the window thread owns for one window. The destroy flag and the
/// event buffer are the only parts ever shared with other threads in a live
/// system; here the buffer is held next to this record by the window handle.
pub struct WindowImplData {
    /// Current physical size of the client (inner) area.
    pub client_area_size: (u32, u32),
    /// Reason the next close request will report (consumed by the close
    /// message).
    pub close_reason: Option<CloseReason>,
    /// The monitor DPI the window currently lives at.
    pub current_dpi: u32,
    /// The cursor shown inside the client area.
    pub cursor: Cursor,
    /// Whether sizes are reported scaled to DPI (logical units).
    pub is_dpi_logical: bool,
    /// Whether the window should be closing and destroying. Only the
    /// authoritative teardown path sets this; a native destroy attempt is
    /// rejected while it is clear.
    pub destroy_flag: bool,
    /// The current style, which both native style bitfields are packed from.
    pub style: Style,
    /// The NUL-terminated wide string the native title storage holds.
    pub title_wide: Vec<u16>,
    /// Whether the window has keyboard focus.
    pub is_focused: bool,
    /// Whether the window is maximized.
    pub is_maximized: bool,
    /// Whether the window is minimized.
    pub is_minimized: bool,
}

impl WindowImplData {
    /// The DPI is a positive dot density.
    pub open spec fn wf(&self) -> bool {
        self.current_dpi >= 1
    }

    /// What [`WindowImplData::inner_size`] returns: the cached client size,
    /// in logical units if the window is in logical DPI mode, with the scale
    /// that converts between the two.
    pub open spec fn spec_inner_size(self) -> (Size, Scale) {
        let scale = Scale { dpi: self.current_dpi };
        let physical = Size::Physical(self.client_area_size.0, self.client_area_size.1);
        if self.is_dpi_logical {
            (
                Size::Logical(
                    physical.spec_as_logical(scale).0,
                    physical.spec_as_logical(scale).1,
                ),
                scale,
            )
        } else {
            (physical, scale)
        }
    }

    /// Reads the inner size and the current scale factor.
    pub fn inner_size(&self) -> (r: (Size, Scale))
        requires
            self.wf(),
        ensures
            r == self.spec_inner_size(),
    {
        let scale = Scale { dpi: self.current_dpi };
        let physical = Size::Physical(self.client_area_size.0, self.client_area_size.1);
        if self.is_dpi_logical {
            (physical.to_logical(scale), scale)
        } else {
            (physical, scale)
        }
    }
}

/// A native call the state machine asks the outside shell to perform. The
/// decisions stay here; the calls that carry them out do not.
#[derive(Copy, Clone, Debug, Eq, PartialEq, Structural)]
pub enum NativeAction {
    /// Hand the message to default native handling.
    RunDefault,
    /// Post the thread's quit signal, ending the message loop.
    PostQuit,
    /// Ask the native layer to destroy the window.
    DestroyWindow,
    /// Store the two style bitfields on the window and refresh its frame.
    SetWindowStyle(u32, u32),
    /// Enable or disable the close item of the window menu.
    SetCloseButton(bool),
    /// Load and show the cursor with this integer resource; zero means no
    /// cursor.
    SetCursorIcon(u32),
    /// Resize the window so its client area gets this physical size.
    SetClientSize(u32, u32),
    /// Apply the stored wide title to the native title storage.
    ApplyTitle,
    /// Re-issue a system command (maximize or restore).
    SysCommand(usize),
}

/// A typed request another thread sends to the window thread, which performs
/// it synchronously between messages. This is the command half of the
/// channel; the arguments ride inside the value rather than behind erased
/// pointers.
pub enum Command {
    /// The authoritative destroy signal from the handle's teardown.
    Drop,
    /// Set the control buttons: the packed bitfield, or all bits set for no
    /// control menu at all.
    SetControls(u32),
    /// Set the client-area cursor, by its wire code.
    SetCursor(u32),
    /// Set the title, blocking until applied.
    SetText(Vec<u16>),
    /// Set the title without blocking; the buffer was defensively copied
    /// into the message by the sender.
    SetTextAsync(Vec<u16>),
    /// Set whether the window is resizable.
    SetThickFrame(bool),
    /// Set the inner size.
    SetInnerSize(Size),
    /// Maximize or restore the window.
    SetMaximized(bool),
}

/// What the state machine hands back for one message or command: the native
/// reply value, the events to deliver to the consumer, and the native calls
/// to perform.
pub struct Dispatch {
    /// The value the window procedure returns to the native caller. Where the
    /// actions include [`NativeAction::RunDefault`], the native default's
    /// reply takes its place.
    pub reply: isize,
    /// The events to append to the window's event buffer, in order.
    pub events: Vec<Event>,
    /// The native calls to perform, in order.
    pub actions: Vec<NativeAction>,
}

} // verus!

verus! {

/// Exec-side equality on optional controls (the derived equality on
/// `Option` is opaque to the verifier, so the fields are compared directly).
fn controls_opt_eq(a: &Option<Controls>, b: &Option<Controls>) -> (r: bool)
    ensures
        r == (a == b),
{
    match (a, b) {
        (Option::None, Option::None) => true,
        (Option::Some(x), Option::Some(y)) => x == y,
        _ => false,
    }
}

/// What the size message does: re-derive the maximize/minimize/restore
/// transition from the reason code (the codes are not mutually exclusive
/// with focus state, so a single boolean cannot be trusted), and report the
/// new client size — except on minimize, whose spurious zero size is
/// suppressed.
pub open spec fn spec_on_size(data: WindowImplData, wparam: usize, lparam: isize) -> (
    WindowImplData,
    Seq<Event>,
) {
    let restored = wparam == SIZE_RESTORED;
    let minimized = wparam == SIZE_MINIMIZED;
    let maximized = wparam == SIZE_MAXIMIZED;
    let transition = restored || minimized || maximized;
    let tmax = maximized;
    let tmin = minimized;
    let evs1 = if transition && data.is_maximized != tmax {
        seq![Event::Maximize(tmax)]
    } else {
        Seq::<Event>::empty()
    };
    let evs2 = if transition && data.is_minimized != tmin {
        evs1.push(Event::Minimize(tmin))
    } else {
        evs1
    };
    let d1 = if transition {
        WindowImplData { is_maximized: tmax, is_minimized: tmin, ..data }
    } else {
        data
    };
    if !minimized {
        let w = (lparam & 0xFFFF) as u32;
        let h = ((lparam >> 16) & 0xFFFF) as u32;
        if w != d1.client_area_size.0 || h != d1.client_area_size.1 {
            let scale = Scale { dpi: d1.current_dpi };
            let physical = Size::Physical(w, h);
            let size = if d1.is_dpi_logical {
                Size::Logical(
                    physical.spec_as_logical(scale).0,
                    physical.spec_as_logical(scale).1,
                )
            } else {
                physical
            };
            (
                WindowImplData { client_area_size: (w, h), ..d1 },
                evs2.push(Event::Resize(size, scale)),
            )
        } else {
            (d1, evs2)
        }
    } else {
        (d1, evs2)
    }
}

/// What the mouse-move message reports: the position, bounds-checked against
/// the client area because some systems report border padding as client
/// space, in logical units if the window is in logical DPI mode.
pub open spec fn spec_on_mousemove(data: WindowImplData, lparam: isize) -> Seq<Event> {
    let x = (lparam & 0xFFFF) as i16;
    let y = ((lparam >> 16) & 0xFFFF) as i16;
    if x >= 0 && (x as u32) < data.client_area_size.0 && y >= 0 && (y as u32)
        < data.client_area_size.1 {
        let scale = Scale { dpi: data.current_dpi };
        let physical = Point::Physical(x as u32, y as u32);
        let point = if data.is_dpi_logical {
            Point::Logical(physical.spec_as_logical(scale).0, physical.spec_as_logical(scale).1)
        } else {
            physical
        };
        seq![Event::MouseMove(point, scale)]
    } else {
        Seq::<Event>::empty()
    }
}

/// The message-pump transition function: for the window state and one native
/// message, the new state, the events to enqueue, the native calls to make,
/// and the reply. Every decision of the window procedure is here; the native
/// calls themselves are not.
pub open spec fn spec_process_message(
    data: WindowImplData,
    hwnd: usize,
    msg: u32,
    wparam: usize,
    lparam: isize,
) -> (WindowImplData, Seq<Event>, Seq<NativeAction>, isize) {
    let no_events = Seq::<Event>::empty();
    let no_actions = Seq::<NativeAction>::empty();
    let forward = seq![NativeAction::RunDefault];
    if msg == WM_NULL {
        (data, no_events, no_actions, 0)
    } else if msg == WM_CREATE {
        (data, no_events, no_actions, 0)
    } else if msg == WM_DESTROY {
        if data.destroy_flag {
            (data, no_events, seq![NativeAction::PostQuit], 0)
        } else {
            (data, no_events, no_actions, 0)
        }
    } else if msg == WM_SIZE {
        let (d1, evs) = spec_on_size(data, wparam, lparam);
        (d1, evs, no_actions, 0)
    } else if msg == WM_ACTIVATE {
        // Focus is derived from the dedicated focus messages instead: this
        // one conflates "activated while minimized" with focus loss.
        (data, no_events, no_actions, 0)
    } else if msg == WM_SETFOCUS {
        if !data.is_focused {
            (
                WindowImplData { is_focused: true, ..data },
                seq![Event::Focus(true)],
                no_actions,
                0,
            )
        } else {
            (data, no_events, no_actions, 0)
        }
    } else if msg == WM_KILLFOCUS {
        if data.is_focused {
            (
                WindowImplData { is_focused: false, ..data },
                seq![Event::Focus(false)],
                no_actions,
                0,
            )
        } else {
            (data, no_events, no_actions, 0)
        }
    } else if msg == WM_ENABLE || msg == WM_SETREDRAW || msg == WM_PAINT || msg
        == WM_ACTIVATEAPP || msg == WM_MOUSEWHEEL {
        (data, no_events, no_actions, 0)
    } else if msg == WM_CLOSE {
        let reason = match data.close_reason {
            Some(r) => r,
            None => CloseReason::Unknown,
        };
        (
            WindowImplData { close_reason: None, ..data },
            seq![Event::CloseRequest(reason)],
            no_actions,
            0,
        )
    } else if msg == WM_ERASEBKGND {
        (data, no_events, no_actions, 1)
    } else if msg == WM_SHOWWINDOW {
        if lparam == 0 {
            (
                WindowImplData {
                    style: Style { visible: wparam != 0, ..data.style },
                    ..data
                },
                no_events,
                forward,
                0,
            )
        } else {
            (data, no_events, forward, 0)
        }
    } else if msg == WM_SETCURSOR {
        if wparam == hwnd && (lparam & 0xFFFF) as u16 == 1u16 {
            (
                data,
                no_events,
                seq![NativeAction::SetCursorIcon(spec_cursor_to_int_resource(data.cursor))],
                1,
            )
        } else {
            (data, no_events, forward, 0)
        }
    } else if msg == WM_KEYDOWN || msg == WM_KEYUP {
        match spec_translate_vk((wparam & 0xFF) as u8) {
            Some(key) => (
                data,
                seq![spec_map_tr_state(spec_extend_key(key, lparam), lparam)],
                no_actions,
                0,
            ),
            None => (data, no_events, no_actions, 0),
        }
    } else if msg == WM_SYSKEYDOWN || msg == WM_SYSKEYUP {
        let alt_f4 = wparam & 0xFF == VK_F4 as usize && lparam & (1isize << 29) != 0;
        let evs0 = if alt_f4 {
            seq![Event::CloseRequest(CloseReason::KeyboardShortcut)]
        } else {
            Seq::<Event>::empty()
        };
        let d1 = if alt_f4 {
            WindowImplData { close_reason: None, ..data }
        } else {
            data
        };
        let evs = match spec_sys_key_event(wparam, lparam) {
            Some(e) => evs0.push(e),
            None => evs0,
        };
        (d1, evs, no_actions, 0)
    } else if msg == WM_SYSCOMMAND {
        let d1 = if wparam == SC_CLOSE {
            WindowImplData { close_reason: Some(CloseReason::SystemMenu), ..data }
        } else {
            data
        };
        (d1, no_events, forward, 0)
    } else if msg == WM_MOUSEMOVE {
        (data, spec_on_mousemove(data, lparam), no_actions, 0)
    } else if msg == WM_LBUTTONDOWN {
        (data, seq![Event::MouseDown(MouseButton::Left)], no_actions, 0)
    } else if msg == WM_LBUTTONUP {
        (data, seq![Event::MouseUp(MouseButton::Left)], no_actions, 0)
    } else if msg == WM_RBUTTONDOWN {
        (data, seq![Event::MouseDown(MouseButton::Right)], no_actions, 0)
    } else if msg == WM_RBUTTONUP {
        (data, seq![Event::MouseUp(MouseButton::Right)], no_actions, 0)
    } else if msg == WM_MBUTTONDOWN {
        (data, seq![Event::MouseDown(MouseButton::Middle)], no_actions, 0)
    } else if msg == WM_MBUTTONUP {
        (data, seq![Event::MouseUp(MouseButton::Middle)], no_actions, 0)
    } else if msg == WM_XBUTTONDOWN || msg == WM_XBUTTONUP {
        let hi = (wparam >> 16) & 0xFFFF;
        let down = msg == WM_XBUTTONDOWN;
        if hi == XBUTTON1 {
            let e = if down {
                Event::MouseDown(MouseButton::Mouse4)
            } else {
                Event::MouseUp(MouseButton::Mouse4)
            };
            (data, seq![e], no_actions, 0)
        } else if hi == XBUTTON2 {
            let e = if down {
                Event::MouseDown(MouseButton::Mouse5)
            } else {
                Event::MouseUp(MouseButton::Mouse5)
            };
            (data, seq![e], no_actions, 0)
        } else {
            (data, no_events, no_actions, 0)
        }
    } else {
        (data, no_events, forward, 0)
    }
}

} // verus!

verus! {

/// Runs one native message through the state machine: updates the window
/// state and returns the reply, the events to enqueue and the native calls
/// to perform, exactly as [`spec_process_message`] says.
pub fn process_message(
    data: &mut WindowImplData,
    hwnd: usize,
    msg: u32,
    wparam: usize,
    lparam: isize,
) -> (r: Dispatch)
    requires
        old(data).wf(),
    ensures
        final(data).wf(),
        ({
            let t = spec_process_message(*old(data), hwnd, msg, wparam, lparam);
            *final(data) == t.0 && r.events@ == t.1 && r.actions@ == t.2 && r.reply == t.3
        }),
{
    let mut events: Vec<Event> = Vec::new();
    let mut actions: Vec<NativeAction> = Vec::new();
    let mut reply: isize = 0;
    if msg == WM_NULL {
    } else if msg == WM_CREATE {
    } else if msg == WM_DESTROY {
        if data.destroy_flag {
            actions.push(NativeAction::PostQuit);
        }
    } else if msg == WM_SIZE {
        let restored = wparam == SIZE_RESTORED;
        let minimized = wparam == SIZE_MINIMIZED;
        let maximized = wparam == SIZE_MAXIMIZED;
        let transition = restored || minimized || maximized;
        if transition {
            let tmax = maximized;
            let tmin = minimized;
            if data.is_maximized != tmax {
                events.push(Event::Maximize(tmax));
            }
            if data.is_minimized != tmin {
                events.push(Event::Minimize(tmin));
            }
            data.is_maximized = tmax;
            data.is_minimized = tmin;
        }
        if !minimized {
            let w: u32 = #[verifier::truncate] ((lparam & 0xFFFF) as u32);
            let h: u32 = #[verifier::truncate] (((lparam >> 16) & 0xFFFF) as u32);
            if w != data.client_area_size.0 || h != data.client_area_size.1 {
                let scale = Scale { dpi: data.current_dpi };
                let physical = Size::Physical(w, h);
                let size = if data.is_dpi_logical {
                    physical.to_logical(scale)
                } else {
                    physical
                };
                events.push(Event::Resize(size, scale));
                data.client_area_size = (w, h);
            }
        }
    } else if msg == WM_ACTIVATE {
        // Focus comes from the dedicated focus messages; see the spec.
    } else if msg == WM_SETFOCUS {
        if !data.is_focused {
            data.is_focused = true;
            events.push(Event::Focus(true));
        }
    } else if msg == WM_KILLFOCUS {
        if data.is_focused {
            data.is_focused = false;
            events.push(Event::Focus(false));
        }
    } else if msg == WM_ENABLE || msg == WM_SETREDRAW || msg == WM_PAINT || msg == WM_ACTIVATEAPP
        || msg == WM_MOUSEWHEEL {
    } else if msg == WM_CLOSE {
        let reason = match data.close_reason {
            Some(r) => r,
            None => CloseReason::Unknown,
        };
        data.close_reason = None;
        events.push(Event::CloseRequest(reason));
    } else if msg == WM_ERASEBKGND {
        reply = 1;
    } else if msg == WM_SHOWWINDOW {
        if lparam == 0 {
            data.style.visible = wparam != 0;
        }
        actions.push(NativeAction::RunDefault);
    } else if msg == WM_SETCURSOR {
        let hit: u16 = #[verifier::truncate] ((lparam & 0xFFFF) as u16);
        if wparam == hwnd && hit == 1u16 {
            actions.push(NativeAction::SetCursorIcon(cursor_to_int_resource(data.cursor)));
            reply = 1;
        } else {
            actions.push(NativeAction::RunDefault);
        }
    } else if msg == WM_KEYDOWN || msg == WM_KEYUP {
        match translate_vk(wparam) {
            Some(key) => {
                events.push(map_tr_state(extend_key(key, lparam), lparam));
            },
            None => {},
        }
    } else if msg == WM_SYSKEYDOWN || msg == WM_SYSKEYUP {
        if wparam & 0xFF == (VK_F4 as usize) && lparam & (1isize << 29) != 0 {
            // Alt+F4 is re-implemented: handling system keys overrides it,
            // and it is usually expected to work. The close request is
            // emitted at once with its reason consumed, as if the close
            // message had been sent synchronously.
            events.push(Event::CloseRequest(CloseReason::KeyboardShortcut));
            data.close_reason = None;
        }
        match sys_key_event(wparam, lparam) {
            Some(e) => {
                events.push(e);
            },
            None => {},
        }
    } else if msg == WM_SYSCOMMAND {
        if wparam == SC_CLOSE {
            data.close_reason = Some(CloseReason::SystemMenu);
        }
        actions.push(NativeAction::RunDefault);
    } else if msg == WM_MOUSEMOVE {
        let x: i16 = #[verifier::truncate] ((lparam & 0xFFFF) as i16);
        let y: i16 = #[verifier::truncate] (((lparam >> 16) & 0xFFFF) as i16);
        let cw = data.client_area_size.0;
        let ch = data.client_area_size.1;
        if x >= 0 && (x as u32) < cw && y >= 0 && (y as u32) < ch {
            let scale = Scale { dpi: data.current_dpi };
            let physical = Point::Physical(x as u32, y as u32);
            let point = if data.is_dpi_logical {
                physical.to_logical(scale)
            } else {
                physical
            };
            events.push(Event::MouseMove(point, scale));
        }
    } else if msg == WM_LBUTTONDOWN {
        events.push(Event::MouseDown(MouseButton::Left));
    } else if msg == WM_LBUTTONUP {
        events.push(Event::MouseUp(MouseButton::Left));
    } else if msg == WM_RBUTTONDOWN {
        events.push(Event::MouseDown(MouseButton::Right));
    } else if msg == WM_RBUTTONUP {
        events.push(Event::MouseUp(MouseButton::Right));
    } else if msg == WM_MBUTTONDOWN {
        events.push(Event::MouseDown(MouseButton::Middle));
    } else if msg == WM_MBUTTONUP {
        events.push(Event::MouseUp(MouseButton::Middle));
    } else if msg == WM_XBUTTONDOWN || msg == WM_XBUTTONUP {
        let hi = (wparam >> 16) & 0xFFFF;
        let down = msg == WM_XBUTTONDOWN;
        if hi == XBUTTON1 {
            if down {
                events.push(Event::MouseDown(MouseButton::Mouse4));
            } else {
                events.push(Event::MouseUp(MouseButton::Mouse4));
            }
        } else if hi == XBUTTON2 {
            if down {
                events.push(Event::MouseDown(MouseButton::Mouse5));
            } else {
                events.push(Event::MouseUp(MouseButton::Mouse5));
            }
        }
    } else {
        actions.push(NativeAction::RunDefault);
    }
    Dispatch { reply, events, actions }
}

} // verus!

verus! {

/// The command transition function: for the window state and one typed
/// command from the channel, the new state, the events to enqueue, the
/// native calls to make, and the reply. Commands never fail: an argument
/// that decodes to nothing (an unknown cursor code) is tolerated as a no-op,
/// the same way soft native failures are.
pub open spec fn spec_apply_command(data: WindowImplData, cmd: Command) -> (
    WindowImplData,
    Seq<Event>,
    Seq<NativeAction>,
    isize,
) {
    let no_events = Seq::<Event>::empty();
    let no_actions = Seq::<NativeAction>::empty();
    match cmd {
        Command::Drop => (
            WindowImplData { destroy_flag: true, ..data },
            no_events,
            seq![NativeAction::DestroyWindow],
            0,
        ),
        Command::SetControls(bits) => {
            let controls = if bits != 0xFFFFFFFFu32 {
                Some(Controls::spec_from_bits(bits))
            } else {
                None
            };
            if data.style.controls != controls {
                let style = Style { controls, ..data.style };
                let d1 = WindowImplData { style, ..data };
                let restyle = NativeAction::SetWindowStyle(
                    spec_style_as_win32(style),
                    spec_style_as_win32_ex(style),
                );
                match controls {
                    Some(c) => (
                        d1,
                        no_events,
                        seq![NativeAction::SetCloseButton(c.close), restyle],
                        0,
                    ),
                    None => (d1, no_events, seq![restyle], 0),
                }
            } else {
                (data, no_events, no_actions, 0)
            }
        },
        Command::SetCursor(code) => {
            match Cursor::spec_from_code(code) {
                Some(cursor) => (
                    WindowImplData { cursor, ..data },
                    no_events,
                    seq![NativeAction::SetCursorIcon(spec_cursor_to_int_resource(cursor))],
                    0,
                ),
                None => (data, no_events, no_actions, 0),
            }
        },
        Command::SetText(wstr) => (
            WindowImplData { title_wide: wstr, ..data },
            no_events,
            seq![NativeAction::ApplyTitle],
            0,
        ),
        Command::SetTextAsync(wstr) => (
            WindowImplData { title_wide: wstr, ..data },
            no_events,
            seq![NativeAction::ApplyTitle],
            0,
        ),
        Command::SetThickFrame(resizable) => {
            if data.style.resizable != resizable {
                let style = Style { resizable, ..data.style };
                (
                    WindowImplData { style, ..data },
                    no_events,
                    seq![NativeAction::SetWindowStyle(
                        spec_style_as_win32(style),
                        spec_style_as_win32_ex(style),
                    )],
                    0,
                )
            } else {
                (data, no_events, no_actions, 0)
            }
        },
        Command::SetInnerSize(size) => {
            let scale = Scale { dpi: data.current_dpi };
            let (w, h) = size.spec_as_physical(scale);
            (
                WindowImplData {
                    client_area_size: (w, h),
                    is_dpi_logical: size is Logical,
                    ..data
                },
                no_events,
                seq![NativeAction::SetClientSize(w, h)],
                0,
            )
        },
        Command::SetMaximized(maximized) => {
            if data.is_maximized != maximized {
                let sys = if maximized {
                    SC_MAXIMIZE
                } else {
                    SC_RESTORE
                };
                (
                    WindowImplData { is_maximized: maximized, ..data },
                    seq![Event::Maximize(maximized)],
                    seq![NativeAction::SysCommand(sys)],
                    0,
                )
            } else {
                (data, no_events, no_actions, 0)
            }
        },
    }
}

/// Performs one typed command against the window state, exactly as
/// [`spec_apply_command`] says. The window thread runs this while the
/// requesting thread blocks on the synchronous send.
#[verifier::rlimit(60)]
pub fn apply_command(data: &mut WindowImplData, cmd: Command) -> (r: Dispatch)
    requires
        old(data).wf(),
    ensures
        final(data).wf(),
        ({
            let t = spec_apply_command(*old(data), cmd);
            *final(data) == t.0 && r.events@ == t.1 && r.actions@ == t.2 && r.reply == t.3
        }),
{
    let mut events: Vec<Event> = Vec::new();
    let mut actions: Vec<NativeAction> = Vec::new();
    match cmd {
        Command::Drop => {
            data.destroy_flag = true;
            actions.push(NativeAction::DestroyWindow);
        },
        Command::SetControls(bits) => {
            let controls = if bits != u32::MAX {
                Some(Controls::from_bits(bits))
            } else {
                None
            };
            if !controls_opt_eq(&data.style.controls, &controls) {
                data.style.controls = controls;
                match controls {
                    Some(c) => {
                        actions.push(NativeAction::SetCloseButton(c.close));
                    },
                    None => {},
                }
                actions.push(
                    NativeAction::SetWindowStyle(
                        style_as_win32(&data.style),
                        style_as_win32_ex(&data.style),
                    ),
                );
            }
        },
        Command::SetCursor(code) => {
            match Cursor::from_code(code) {
                Some(cursor) => {
                    data.cursor = cursor;
                    actions.push(NativeAction::SetCursorIcon(cursor_to_int_resource(cursor)));
                },
                None => {},
            }
        },
        Command::SetText(wstr) => {
            data.title_wide = wstr;
            actions.push(NativeAction::ApplyTitle);
        },
        Command::SetTextAsync(wstr) => {
            data.title_wide = wstr;
            actions.push(NativeAction::ApplyTitle);
        },
        Command::SetThickFrame(resizable) => {
            if data.style.resizable != resizable {
                data.style.resizable = resizable;
                actions.push(
                    NativeAction::SetWindowStyle(
                        style_as_win32(&data.style),
                        style_as_win32_ex(&data.style),
                    ),
                );
            }
        },
        Command::SetInnerSize(size) => {
            let scale = Scale { dpi: data.current_dpi };
            let (w, h) = size.as_physical(scale);
            data.client_area_size = (w, h);
            data.is_dpi_logical = matches!(size, Size::Logical(..));
            actions.push(NativeAction::SetClientSize(w, h));
        },
        Command::SetMaximized(maximized) => {
            if data.is_maximized != maximized {
                let sys = if maximized {
                    SC_MAXIMIZE
                } else {
                    SC_RESTORE
                };
                data.is_maximized = maximized;
                events.push(Event::Maximize(maximized));
                actions.push(NativeAction::SysCommand(sys));
            }
        },
    }
    Dispatch { reply: 0, events, actions }
}

} // verus!

use crate::buffer::EventBuffer;
use crate::error::Error;
use crate::monitor::BASE_DPI;
use crate::window::WindowBuilder;

verus! {

/// Implementation container behind the public window handle: the native
/// handle (an opaque integer here), the window state, and the event buffer
/// it shares with the consumer.
pub struct WindowImpl {
    /// The native window handle's value.
    pub hwnd: usize,
    /// The state the window thread owns.
    pub data: WindowImplData,
    /// The double-buffered event queue between the window thread and the
    /// consumer.
    pub buffer: EventBuffer<MAX_EVENTS_PER_SWAP>,
    /// Whether the window and its thread are still running; cleared by the
    /// authoritative teardown, after which the handle must not be used.
    pub alive: bool,
}

/// Whether a window state is the one a fresh spawn hands out for this
/// builder snapshot: the builder's attributes at the base DPI, unfocused,
/// with no close reason and the destroy flag clear.
pub open spec fn spec_initial_data(builder: WindowBuilder, w: WindowImplData) -> bool {
    &&& w.client_area_size == builder.inner_size.spec_as_physical(Scale { dpi: BASE_DPI })
    &&& w.close_reason is None
    &&& w.current_dpi == BASE_DPI
    &&& w.cursor == builder.cursor
    &&& w.is_dpi_logical == (builder.inner_size is Logical)
    &&& !w.destroy_flag
    &&& w.style == builder.style
    &&& w.title_wide@ == spec_wstr(builder.title@)
    &&& !w.is_focused
    &&& !w.is_maximized
    &&& !w.is_minimized
}

/// Publishes the outcome of native window construction: on success, the
/// window handle with its fresh state and an empty event queue; on failure,
/// the error and nothing else — no handle exists that could be used.
pub fn spawn_window(builder: &WindowBuilder, creation: Result<usize, Error>) -> (r: Result<
    WindowImpl,
    Error,
>)
    ensures
        creation is Err ==> r is Err && r->Err_0 == creation->Err_0,
        creation is Ok ==> r is Ok && ({
            let w = r->Ok_0;
            &&& w.hwnd == creation->Ok_0
            &&& w.alive
            &&& w.data.wf()
            &&& spec_initial_data(*builder, w.data)
            &&& w.buffer.wf()
            &&& w.buffer.write_seq() == Seq::<Event>::empty()
            &&& w.buffer.read_seq() == Seq::<Event>::empty()
        }),
{
    match creation {
        Result::Err(e) => Result::Err(e),
        Result::Ok(hwnd) => {
            let scale = Scale { dpi: BASE_DPI };
            let (w, h) = builder.inner_size.as_physical(scale);
            let data = WindowImplData {
                client_area_size: (w, h),
                close_reason: None,
                current_dpi: BASE_DPI,
                cursor: builder.cursor,
                is_dpi_logical: matches!(builder.inner_size, Size::Logical(..)),
                destroy_flag: false,
                style: builder.style,
                title_wide: str_to_wstr(builder.title.as_str()),
                is_focused: false,
                is_maximized: false,
                is_minimized: false,
            };
            Result::Ok(WindowImpl { hwnd, data, buffer: EventBuffer::new(), alive: true })
        },
    }
}

/// Law: a destroy attempt against one of this library's windows is refused
/// while the destroy flag is clear, and the window posts no quit signal. The
/// authoritative teardown — the drop command, then the now-allowed native
/// destroy, then the destroy message — sets the flag, passes the hook, and
/// posts exactly the quit signal that ends the message loop.
pub proof fn law_destroy_exclusivity(data: WindowImplData, hwnd: usize)
    ensures
        spec_hcbt_destroywnd(HCBT_DESTROYWND, true, false) == HookDecision::Prevent,
        !data.destroy_flag ==> spec_process_message(data, hwnd, WM_DESTROY, 0, 0).2
            == Seq::<NativeAction>::empty(),
        ({
            let dropped = spec_apply_command(data, Command::Drop);
            &&& dropped.0.destroy_flag
            &&& dropped.2 == seq![NativeAction::DestroyWindow]
            &&& spec_hcbt_destroywnd(HCBT_DESTROYWND, true, dropped.0.destroy_flag)
                == HookDecision::Allow
            &&& spec_process_message(dropped.0, hwnd, WM_DESTROY, 0, 0).2
                == seq![NativeAction::PostQuit]
        }),
{
}

} // verus!
