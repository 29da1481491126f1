//! The public window types: control-button availability, cursors, the style
//! snapshot, the builder, and the window handle itself.

use vstd::prelude::*;
use crate::error::Error;
use crate::event::Event;
use crate::monitor::{Scale, Size};

verus! {

/// Represents the availability of the minimize, maximize, and close buttons
/// on a window.
#[derive(Copy, Clone, Debug, Eq, PartialEq, Structural)]
pub struct Controls {
    pub minimize: bool,
    pub maximize: bool,
    pub close: bool,
}

impl Controls {
    /// Creates window controls from the provided values.
    pub fn new(minimize: bool, maximize: bool, close: bool) -> (r: Controls)
        ensures
            r == (Controls { minimize, maximize, close }),
    {
        Controls { minimize, maximize, close }
    }

    /// Creates window controls with all 3 buttons enabled.
    pub fn enabled() -> (r: Controls)
        ensures
            r == (Controls { minimize: true, maximize: true, close: true }),
    {
        Controls::new(true, true, true)
    }

    /// Creates window controls with the minimize & close buttons available.
    pub fn no_maximize() -> (r: Controls)
        ensures
            r == (Controls { minimize: true, maximize: false, close: true }),
    {
        Controls::new(true, false, true)
    }

    /// The bitfield the command channel carries: minimize, maximize and close
    /// on bits 2, 1 and 0.
    pub open spec fn spec_to_bits(self) -> u32 {
        ((if self.minimize {
            4u32
        } else {
            0u32
        }) + (if self.maximize {
            2u32
        } else {
            0u32
        }) + (if self.close {
            1u32
        } else {
            0u32
        })) as u32
    }

    /// Packs the three buttons into the command channel's bitfield.
    pub fn to_bits(&self) -> (r: u32)
        ensures
            r == self.spec_to_bits(),
    {
        (if self.minimize {
            4u32
        } else {
            0u32
        }) + (if self.maximize {
            2u32
        } else {
            0u32
        }) + (if self.close {
            1u32
        } else {
            0u32
        })
    }

    /// What [`Controls::from_bits`] reads out of a bitfield.
    pub open spec fn spec_from_bits(x: u32) -> Controls {
        Controls { minimize: x & 4 != 0, maximize: x & 2 != 0, close: x & 1 != 0 }
    }

    /// Unpacks a command channel bitfield into the three buttons.
    pub fn from_bits(x: u32) -> (r: Controls)
        ensures
            r == Controls::spec_from_bits(x),
    {
        Controls { minimize: x & 4 != 0, maximize: x & 2 != 0, close: x & 1 != 0 }
    }
}

impl Default for Controls {
    /// Same as [`Controls::enabled`].
    fn default() -> (r: Controls)
        ensures
            r == (Controls { minimize: true, maximize: true, close: true }),
    {
        Controls::enabled()
    }
}

/// Law: packing controls into the command bitfield and unpacking them again
/// loses nothing.
pub proof fn law_controls_bits_roundtrip(c: Controls)
    ensures
        Controls::spec_from_bits(c.spec_to_bits()) == c,
{
    let m: u32 = if c.minimize { 4 } else { 0 };
    let a: u32 = if c.maximize { 2 } else { 0 };
    let cl: u32 = if c.close { 1 } else { 0 };
    assert((((m + a + cl) as u32) & 4 != 0) == (m == 4) && (((m + a + cl) as u32) & 2 != 0) == (a
        == 2) && (((m + a + cl) as u32) & 1 != 0) == (cl == 1)) by (bit_vector)
        requires
            (m == 0 || m == 4) && (a == 0 || a == 2) && (cl == 0 || cl == 1),
    ;
}

/// The cursor shown while the mouse is inside the window's inner area.
#[derive(Copy, Clone, Debug, Eq, PartialEq, Structural)]
pub enum Cursor {
    /// The normal arrow pointer.
    Arrow,
    /// No cursor at all.
    Blank,
    /// A crosshair.
    Cross,
    /// A pointing hand.
    Hand,
    /// The arrow with a question mark.
    Help,
    /// The text I-beam.
    IBeam,
    /// The arrow with a busy indicator.
    Progress,
    /// Diagonal resize, north-east to south-west.
    ResizeNESW,
    /// Vertical resize.
    ResizeNS,
    /// Diagonal resize, north-west to south-east.
    ResizeNWSE,
    /// Horizontal resize.
    ResizeWE,
    /// Four-way move.
    ResizeAll,
    /// The action is unavailable.
    Unavailable,
    /// Busy.
    Wait,
}

impl Cursor {
    /// The code the command channel carries for this cursor.
    pub open spec fn spec_code(self) -> u32 {
        match self {
            Cursor::Arrow => 0,
            Cursor::Blank => 1,
            Cursor::Cross => 2,
            Cursor::Hand => 3,
            Cursor::Help => 4,
            Cursor::IBeam => 5,
            Cursor::Progress => 6,
            Cursor::ResizeNESW => 7,
            Cursor::ResizeNS => 8,
            Cursor::ResizeNWSE => 9,
            Cursor::ResizeWE => 10,
            Cursor::ResizeAll => 11,
            Cursor::Unavailable => 12,
            Cursor::Wait => 13,
        }
    }

    /// Encodes this cursor for the command channel.
    pub fn to_code(&self) -> (r: u32)
        ensures
            r == self.spec_code(),
    {
        match self {
            Cursor::Arrow => 0,
            Cursor::Blank => 1,
            Cursor::Cross => 2,
            Cursor::Hand => 3,
            Cursor::Help => 4,
            Cursor::IBeam => 5,
            Cursor::Progress => 6,
            Cursor::ResizeNESW => 7,
            Cursor::ResizeNS => 8,
            Cursor::ResizeNWSE => 9,
            Cursor::ResizeWE => 10,
            Cursor::ResizeAll => 11,
            Cursor::Unavailable => 12,
            Cursor::Wait => 13,
        }
    }

    /// What [`Cursor::from_code`] reads out of a command code: `None` for a
    /// code no cursor carries.
    pub open spec fn spec_from_code(x: u32) -> Option<Cursor> {
        match x {
            0u32 => Some(Cursor::Arrow),
            1u32 => Some(Cursor::Blank),
            2u32 => Some(Cursor::Cross),
            3u32 => Some(Cursor::Hand),
            4u32 => Some(Cursor::Help),
            5u32 => Some(Cursor::IBeam),
            6u32 => Some(Cursor::Progress),
            7u32 => Some(Cursor::ResizeNESW),
            8u32 => Some(Cursor::ResizeNS),
            9u32 => Some(Cursor::ResizeNWSE),
            10u32 => Some(Cursor::ResizeWE),
            11u32 => Some(Cursor::ResizeAll),
            12u32 => Some(Cursor::Unavailable),
            13u32 => Some(Cursor::Wait),
            _ => None,
        }
    }

    /// Decodes a command channel code back into a cursor.
    pub fn from_code(x: u32) -> (r: Option<Cursor>)
        ensures
            r == Cursor::spec_from_code(x),
    {
        match x {
            0u32 => Some(Cursor::Arrow),
            1u32 => Some(Cursor::Blank),
            2u32 => Some(Cursor::Cross),
            3u32 => Some(Cursor::Hand),
            4u32 => Some(Cursor::Help),
            5u32 => Some(Cursor::IBeam),
            6u32 => Some(Cursor::Progress),
            7u32 => Some(Cursor::ResizeNESW),
            8u32 => Some(Cursor::ResizeNS),
            9u32 => Some(Cursor::ResizeNWSE),
            10u32 => Some(Cursor::ResizeWE),
            11u32 => Some(Cursor::ResizeAll),
            12u32 => Some(Cursor::Unavailable),
            13u32 => Some(Cursor::Wait),
            _ => None,
        }
    }
}

/// Law: encoding a cursor for the command channel and decoding it again
/// yields the same cursor.
pub proof fn law_cursor_code_roundtrip(c: Cursor)
    ensures
        Cursor::spec_from_code(c.spec_code()) == Some(c),
{
}

/// A plain record of the window attributes that the native style bitfields
/// are packed from.
#[derive(Copy, Clone, Debug, Eq, PartialEq, Structural)]
pub struct Style {
    /// Whether the window has no border.
    pub borderless: bool,
    /// Whether the window is resizable by dragging the edges.
    pub resizable: bool,
    /// Whether the window is visible.
    pub visible: bool,
    /// The available control buttons; `None` means no control menu at all.
    pub controls: Option<Controls>,
    /// Whether the controls and titlebar have a right-to-left layout.
    pub rtl_layout: bool,
    /// Whether the window is a floating toolbar-style window.
    pub tool_window: bool,
}

} // verus!

use vstd::string::StringExecFns;
use crate::util::{lemma_sweep_removes_nulls, spec_sweep_nulls};
use crate::win32::imp::{
    spec_apply_command, spec_initial_data, spec_process_message, spec_wstr, Command, Dispatch,
    NativeAction, WindowImpl, WindowImplData, MAX_EVENTS_PER_SWAP,
};
use crate::buffer::spec_push_many;
use crate::win32::ffi::WM_SHOWWINDOW;

verus! {

/// Builder for creating [`Window`] instances.
///
/// To create a builder, use [`Window::builder`].
#[derive(Clone, Debug)]
pub struct WindowBuilder {
    /// The native window class name.
    pub class_name: String,
    /// The initial client-area cursor.
    pub cursor: Cursor,
    /// The initial inner size.
    pub inner_size: Size,
    /// The initial style snapshot.
    pub style: Style,
    /// The initial title.
    pub title: String,
}

/// The style a fresh builder starts from: a resizable, visible window with
/// all controls enabled.
pub open spec fn spec_default_style() -> Style {
    Style {
        borderless: false,
        resizable: true,
        visible: true,
        controls: Some(Controls { minimize: true, maximize: true, close: true }),
        rtl_layout: false,
        tool_window: false,
    }
}

impl WindowBuilder {
    /// The defaults: class `ramen_window`, an arrow cursor, a logical
    /// 800 x 608 inner size, the default style, and a placeholder title.
    pub fn new() -> (r: WindowBuilder)
        ensures
            r.class_name@ == "ramen_window"@,
            r.cursor == Cursor::Arrow,
            r.inner_size == Size::Logical(800, 608),
            r.style == spec_default_style(),
            r.title@ == "a nice window"@,
    {
        WindowBuilder {
            class_name: String::from_str("ramen_window"),
            cursor: Cursor::Arrow,
            inner_size: Size::Logical(800, 608),
            style: Style {
                borderless: false,
                resizable: true,
                visible: true,
                controls: Some(Controls::enabled()),
                rtl_layout: false,
                tool_window: false,
            },
            title: String::from_str("a nice window"),
        }
    }

    /// Builds the window from this snapshot. In this model backend the
    /// native construction step always succeeds; a failing native outcome is
    /// published through [`crate::win32::imp::spawn_window`], which then
    /// hands out no window at all.
    pub fn build(&self) -> (r: Result<Window, Error>)
        ensures
            r is Ok,
            ({
                let w = r->Ok_0;
                &&& w.wf()
                &&& w.alive()
                &&& spec_initial_data(*self, w.data())
                &&& w.pending() == Seq::<Event>::empty()
                &&& w.polled() == Seq::<Event>::empty()
            }),
    {
        match crate::win32::imp::spawn_window(self, Result::Ok(1)) {
            Result::Ok(imp) => Result::Ok(Window(imp)),
            Result::Err(e) => Result::Err(e),
        }
    }

    /// Sets whether the window is initially without a border.
    ///
    /// Defaults to `false`.
    pub fn borderless(&mut self, borderless: bool) -> (r: &mut Self)
        ensures
            *r == (WindowBuilder { style: Style { borderless, ..old(self).style }, ..*old(self) }),
            *final(self) == *final(r),
    {
        self.style.borderless = borderless;
        self
    }

    /// Sets the native window class name; NUL characters are replaced by
    /// spaces, since the native layer reads NUL as a terminator.
    ///
    /// Defaults to `"ramen_window"`.
    pub fn class_name(&mut self, class_name: String) -> (r: &mut Self)
        ensures
            r.class_name@ == spec_sweep_nulls(class_name@),
            !r.class_name@.contains('\0'),
            r.cursor == old(self).cursor,
            r.inner_size == old(self).inner_size,
            r.style == old(self).style,
            r.title == old(self).title,
            *final(self) == *final(r),
    {
        let mut clean = class_name;
        if crate::util::str_has_nulls(clean.as_str()) {
            crate::util::str_sweep_nulls(&mut clean);
        } else {
            proof {
                assert(clean@ =~= spec_sweep_nulls(clean@));
            }
        }
        proof {
            lemma_sweep_removes_nulls(class_name@);
        }
        self.class_name = clean;
        self
    }

    /// Sets the initial window controls; `None` means no control menu.
    ///
    /// Defaults to all controls enabled.
    pub fn controls(&mut self, controls: Option<Controls>) -> (r: &mut Self)
        ensures
            *r == (WindowBuilder { style: Style { controls, ..old(self).style }, ..*old(self) }),
            *final(self) == *final(r),
    {
        self.style.controls = controls;
        self
    }

    /// Sets the initial cursor shown in the window.
    ///
    /// Defaults to [`Cursor::Arrow`].
    pub fn cursor(&mut self, cursor: Cursor) -> (r: &mut Self)
        ensures
            *r == (WindowBuilder { cursor, ..*old(self) }),
            *final(self) == *final(r),
    {
        self.cursor = cursor;
        self
    }

    /// Sets the initial inner size. A logical size scales with the monitor
    /// DPI; a physical size is an exact pixel value.
    ///
    /// Defaults to `Size::Logical(800, 608)`.
    pub fn inner_size(&mut self, inner_size: Size) -> (r: &mut Self)
        ensures
            *r == (WindowBuilder { inner_size, ..*old(self) }),
            *final(self) == *final(r),
    {
        self.inner_size = inner_size;
        self
    }

    /// Sets whether the window is initially resizable.
    ///
    /// Defaults to `true`.
    pub fn resizable(&mut self, resizable: bool) -> (r: &mut Self)
        ensures
            *r == (WindowBuilder { style: Style { resizable, ..old(self).style }, ..*old(self) }),
            *final(self) == *final(r),
    {
        self.style.resizable = resizable;
        self
    }

    /// Sets whether the window controls and titlebar have a right-to-left
    /// layout.
    ///
    /// Defaults to `false`.
    pub fn rtl_layout(&mut self, rtl_layout: bool) -> (r: &mut Self)
        ensures
            *r == (WindowBuilder { style: Style { rtl_layout, ..old(self).style }, ..*old(self) }),
            *final(self) == *final(r),
    {
        self.style.rtl_layout = rtl_layout;
        self
    }

    /// Sets the initial window title; NUL characters are replaced by spaces.
    ///
    /// Defaults to `"a nice window"`.
    pub fn title(&mut self, title: String) -> (r: &mut Self)
        ensures
            r.title@ == spec_sweep_nulls(title@),
            !r.title@.contains('\0'),
            r.cursor == old(self).cursor,
            r.inner_size == old(self).inner_size,
            r.style == old(self).style,
            r.class_name == old(self).class_name,
            *final(self) == *final(r),
    {
        let mut clean = title;
        if crate::util::str_has_nulls(clean.as_str()) {
            crate::util::str_sweep_nulls(&mut clean);
        } else {
            proof {
                assert(clean@ =~= spec_sweep_nulls(clean@));
            }
        }
        proof {
            lemma_sweep_removes_nulls(title@);
        }
        self.title = clean;
        self
    }

    /// Sets whether the window is initially visible.
    ///
    /// Defaults to `true`.
    pub fn visible(&mut self, visible: bool) -> (r: &mut Self)
        ensures
            *r == (WindowBuilder { style: Style { visible, ..old(self).style }, ..*old(self) }),
            *final(self) == *final(r),
    {
        self.style.visible = visible;
        self
    }

    /// Sets whether the window is a floating toolbar-style window, with the
    /// shorter title bar, absent from the taskbar and the window switcher.
    ///
    /// Defaults to `false`.
    pub fn tool_window(&mut self, tool_window: bool) -> (r: &mut Self)
        ensures
            *r == (WindowBuilder { style: Style { tool_window, ..old(self).style }, ..*old(self) }),
            *final(self) == *final(r),
    {
        self.style.tool_window = tool_window;
        self
    }
}

} // verus!

use crate::win32::ffi::{HCBT_DESTROYWND, WM_DESTROY};
use crate::win32::imp::{
    apply_command, hcbt_destroywnd_hookproc, process_message, str_to_wstr, HookDecision,
};

verus! {

/// Represents an open window. The handle owns the window's state machine and
/// its event queue; [`Window::destroy`] is the authoritative teardown, after
/// which the handle refuses further use.
pub struct Window(pub(crate) WindowImpl);

impl Window {
    /// The window-thread state behind this handle.
    pub closed spec fn data(self) -> WindowImplData {
        self.0.data
    }

    /// The native handle's value.
    pub closed spec fn spec_hwnd(self) -> usize {
        self.0.hwnd
    }

    /// Whether the window has not been torn down yet.
    pub closed spec fn alive(self) -> bool {
        self.0.alive
    }

    /// The events accumulated since the last swap (the write buffer).
    pub closed spec fn pending(self) -> Seq<Event> {
        self.0.buffer.write_seq()
    }

    /// The batch the last swap retired (the read buffer).
    pub closed spec fn polled(self) -> Seq<Event> {
        self.0.buffer.read_seq()
    }

    /// The state and the queue are well formed.
    pub closed spec fn wf(self) -> bool {
        self.0.data.wf() && self.0.buffer.wf()
    }

    /// Creates a builder with the default attributes.
    pub fn builder() -> (r: WindowBuilder)
        ensures
            r.class_name@ == "ramen_window"@,
            r.cursor == Cursor::Arrow,
            r.inner_size == Size::Logical(800, 608),
            r.style == spec_default_style(),
            r.title@ == "a nice window"@,
    {
        WindowBuilder::new()
    }

    /// Borrows the batch retired by the most recent [`Window::swap_events`].
    /// Never blocks, and never observes events pushed after that swap.
    pub fn events(&self) -> (r: &[Event])
        ensures
            r@ == self.polled(),
    {
        self.0.buffer.events()
    }

    /// Retires the write buffer: everything queued since the previous swap
    /// becomes the batch [`Window::events`] exposes, and the queue is ready
    /// for new events.
    pub fn swap_events(&mut self)
        requires
            old(self).wf(),
        ensures
            final(self).wf(),
            final(self).polled() == old(self).pending(),
            final(self).pending() == Seq::<Event>::empty(),
            final(self).data() == old(self).data(),
            final(self).spec_hwnd() == old(self).spec_hwnd(),
            final(self).alive() == old(self).alive(),
    {
        self.0.buffer.swap_events();
    }

    /// Runs one native message through the state machine and queues the
    /// events it produced. Returns the native reply, the native calls to
    /// perform, and whether the events fit in the queue — when they did not,
    /// nothing was queued, and the owning side must wait for a swap and
    /// retry (backpressure).
    pub fn pump_message(&mut self, msg: u32, wparam: usize, lparam: isize) -> (r: (
        Dispatch,
        bool,
    ))
        requires
            old(self).wf(),
        ensures
            final(self).wf(),
            final(self).spec_hwnd() == old(self).spec_hwnd(),
            final(self).alive() == old(self).alive(),
            final(self).polled() == old(self).polled(),
            ({
                let t = spec_process_message(
                    old(self).data(),
                    old(self).spec_hwnd(),
                    msg,
                    wparam,
                    lparam,
                );
                &&& final(self).data() == t.0
                &&& r.0.events@ == t.1
                &&& r.0.actions@ == t.2
                &&& r.0.reply == t.3
                &&& final(self).pending() == spec_push_many(
                    old(self).pending(),
                    t.1,
                    MAX_EVENTS_PER_SWAP as nat,
                )
                &&& r.1 == (old(self).pending().len() + t.1.len() <= MAX_EVENTS_PER_SWAP)
                &&& (t.1 == Seq::<Event>::empty() ==> final(self).pending() == old(self).pending())
            }),
    {
        let hwnd = self.0.hwnd;
        let d = process_message(&mut self.0.data, hwnd, msg, wparam, lparam);
        let delivered = self.0.buffer.push_events(d.events.as_slice());
        proof {
            let t = spec_process_message(old(self).data(), old(self).spec_hwnd(), msg, wparam, lparam);
            if t.1 == Seq::<Event>::empty() {
                assert(old(self).pending() + t.1 =~= old(self).pending());
            }
        }
        (d, delivered)
    }

    /// Appends a batch of events to the queue if the whole batch fits, else
    /// appends nothing; the owning side retries after the consumer swaps.
    pub fn push_events(&mut self, events: &[Event]) -> (r: bool)
        requires
            old(self).wf(),
        ensures
            final(self).wf(),
            final(self).spec_hwnd() == old(self).spec_hwnd(),
            final(self).alive() == old(self).alive(),
            final(self).polled() == old(self).polled(),
            final(self).data() == old(self).data(),
            final(self).pending() == spec_push_many(
                old(self).pending(),
                events@,
                MAX_EVENTS_PER_SWAP as nat,
            ),
            r == (old(self).pending().len() + events@.len() <= MAX_EVENTS_PER_SWAP),
    {
        self.0.buffer.push_events(events)
    }

    /// Performs one typed command against the window state and queues any
    /// events it produced, returning the reply, the native calls, and
    /// whether the events fit.
    fn run_command(&mut self, cmd: Command) -> (r: (isize, Vec<NativeAction>, bool))
        requires
            old(self).wf(),
        ensures
            final(self).wf(),
            final(self).spec_hwnd() == old(self).spec_hwnd(),
            final(self).alive() == old(self).alive(),
            final(self).polled() == old(self).polled(),
            ({
                let t = spec_apply_command(old(self).data(), cmd);
                &&& final(self).data() == t.0
                &&& r.1@ == t.2
                &&& r.0 == t.3
                &&& final(self).pending() == spec_push_many(
                    old(self).pending(),
                    t.1,
                    MAX_EVENTS_PER_SWAP as nat,
                )
                &&& r.2 == (old(self).pending().len() + t.1.len() <= MAX_EVENTS_PER_SWAP)
                &&& (t.1 == Seq::<Event>::empty() ==> final(self).pending() == old(self).pending())
            }),
    {
        let ghost cmd0 = cmd;
        let d = apply_command(&mut self.0.data, cmd);
        let delivered = self.0.buffer.push_events(d.events.as_slice());
        proof {
            let t = spec_apply_command(old(self).data(), cmd0);
            if t.1 == Seq::<Event>::empty() {
                assert(old(self).pending() + t.1 =~= old(self).pending());
            }
        }
        (d.reply, d.actions, delivered)
    }

    /// Executes an arbitrary function against the window, yielding its
    /// result. In a live system this runs in the window's own thread while
    /// the caller blocks; the function's contract carries over unchanged.
    pub fn execute<T, F: FnOnce(&Window) -> T>(&self, f: F) -> (r: T)
        requires
            f.requires((self,)),
        ensures
            f.ensures((self,), r),
    {
        f(self)
    }

    /// Gets the inner size of the window and the scale that converts it
    /// between logical and physical units.
    pub fn inner_size(&self) -> (r: (Size, Scale))
        requires
            self.wf(),
        ensures
            r == self.data().spec_inner_size(),
    {
        self.0.data.inner_size()
    }

    /// Sets the availability of the window controls; `None` indicates that
    /// no control menu is desired.
    pub fn set_controls(&mut self, controls: Option<Controls>)
        requires
            old(self).wf(),
            old(self).alive(),
        ensures
            final(self).wf(),
            final(self).alive(),
            final(self).spec_hwnd() == old(self).spec_hwnd(),
            final(self).data() == (WindowImplData {
                style: Style { controls, ..old(self).data().style },
                ..old(self).data()
            }),
            final(self).pending() == old(self).pending(),
            final(self).polled() == old(self).polled(),
    {
        let bits: u32 = match controls {
            Some(c) => c.to_bits(),
            None => u32::MAX,
        };
        proof {
            match controls {
                Some(c) => {
                    law_controls_bits_roundtrip(c);
                    assert(c.spec_to_bits() <= 7);
                },
                None => {},
            }
        }
        let _ = self.run_command(Command::SetControls(bits));
    }

    /// Non-blocking variant of [`Window::set_controls`]: the same state
    /// transition, delivered without waiting for the window thread.
    pub fn set_controls_async(&mut self, controls: Option<Controls>)
        requires
            old(self).wf(),
            old(self).alive(),
        ensures
            final(self).wf(),
            final(self).alive(),
            final(self).spec_hwnd() == old(self).spec_hwnd(),
            final(self).data() == (WindowImplData {
                style: Style { controls, ..old(self).data().style },
                ..old(self).data()
            }),
            final(self).pending() == old(self).pending(),
            final(self).polled() == old(self).polled(),
    {
        self.set_controls(controls);
    }

    /// Sets the cursor shown when the mouse is inside the window's inner
    /// area.
    pub fn set_cursor(&mut self, cursor: Cursor)
        requires
            old(self).wf(),
            old(self).alive(),
        ensures
            final(self).wf(),
            final(self).alive(),
            final(self).spec_hwnd() == old(self).spec_hwnd(),
            final(self).data() == (WindowImplData { cursor, ..old(self).data() }),
            final(self).pending() == old(self).pending(),
            final(self).polled() == old(self).polled(),
    {
        proof {
            law_cursor_code_roundtrip(cursor);
        }
        let code = cursor.to_code();
        let _ = self.run_command(Command::SetCursor(code));
    }

    /// Non-blocking variant of [`Window::set_cursor`].
    pub fn set_cursor_async(&mut self, cursor: Cursor)
        requires
            old(self).wf(),
            old(self).alive(),
        ensures
            final(self).wf(),
            final(self).alive(),
            final(self).spec_hwnd() == old(self).spec_hwnd(),
            final(self).data() == (WindowImplData { cursor, ..old(self).data() }),
            final(self).pending() == old(self).pending(),
            final(self).polled() == old(self).polled(),
    {
        self.set_cursor(cursor);
    }

    /// Sets the inner size. A logical size scales with the monitor DPI; a
    /// physical size is an exact pixel value.
    pub fn set_inner_size(&mut self, size: Size)
        requires
            old(self).wf(),
            old(self).alive(),
        ensures
            final(self).wf(),
            final(self).alive(),
            final(self).spec_hwnd() == old(self).spec_hwnd(),
            final(self).data() == (WindowImplData {
                client_area_size: size.spec_as_physical(
                    Scale { dpi: old(self).data().current_dpi },
                ),
                is_dpi_logical: size is Logical,
                ..old(self).data()
            }),
            final(self).pending() == old(self).pending(),
            final(self).polled() == old(self).polled(),
    {
        let _ = self.run_command(Command::SetInnerSize(size));
    }

    /// Sets whether the window is resizable by dragging the edges.
    pub fn set_resizable(&mut self, resizable: bool)
        requires
            old(self).wf(),
            old(self).alive(),
        ensures
            final(self).wf(),
            final(self).alive(),
            final(self).spec_hwnd() == old(self).spec_hwnd(),
            final(self).data() == (WindowImplData {
                style: Style { resizable, ..old(self).data().style },
                ..old(self).data()
            }),
            final(self).pending() == old(self).pending(),
            final(self).polled() == old(self).polled(),
    {
        let _ = self.run_command(Command::SetThickFrame(resizable));
    }

    /// Non-blocking variant of [`Window::set_resizable`].
    pub fn set_resizable_async(&mut self, resizable: bool)
        requires
            old(self).wf(),
            old(self).alive(),
        ensures
            final(self).wf(),
            final(self).alive(),
            final(self).spec_hwnd() == old(self).spec_hwnd(),
            final(self).data() == (WindowImplData {
                style: Style { resizable, ..old(self).data().style },
                ..old(self).data()
            }),
            final(self).pending() == old(self).pending(),
            final(self).polled() == old(self).polled(),
    {
        self.set_resizable(resizable);
    }

    /// Sets the text that appears in the title bar, blocking until the
    /// window thread has applied it. If the window currently has no title
    /// bar the change is not visible, but it persists for when the style
    /// later includes one.
    pub fn set_title(&mut self, title: &str)
        requires
            old(self).wf(),
            old(self).alive(),
        ensures
            final(self).wf(),
            final(self).alive(),
            final(self).spec_hwnd() == old(self).spec_hwnd(),
            final(self).data() == (WindowImplData {
                title_wide: final(self).data().title_wide,
                ..old(self).data()
            }),
            final(self).data().title_wide@ == spec_wstr(title@),
            final(self).pending() == old(self).pending(),
            final(self).polled() == old(self).polled(),
    {
        let wstr = str_to_wstr(title);
        let _ = self.run_command(Command::SetText(wstr));
    }

    /// Non-blocking variant of [`Window::set_title`]. The text is copied
    /// into the command itself, so the buffer outlives the send no matter
    /// when the window thread picks it up; the receiving side frees it after
    /// applying it.
    pub fn set_title_async(&mut self, title: &str)
        requires
            old(self).wf(),
            old(self).alive(),
        ensures
            final(self).wf(),
            final(self).alive(),
            final(self).spec_hwnd() == old(self).spec_hwnd(),
            final(self).data() == (WindowImplData {
                title_wide: final(self).data().title_wide,
                ..old(self).data()
            }),
            final(self).data().title_wide@ == spec_wstr(title@),
            final(self).pending() == old(self).pending(),
            final(self).polled() == old(self).polled(),
    {
        let wstr = str_to_wstr(title);
        let _ = self.run_command(Command::SetTextAsync(wstr));
    }

    /// Sets whether the window is hidden (`false`) or visible (`true`). The
    /// change goes through the show-window message, so the style snapshot
    /// stays in step and a later style change cannot re-hide the window.
    pub fn set_visible(&mut self, visible: bool)
        requires
            old(self).wf(),
            old(self).alive(),
        ensures
            final(self).wf(),
            final(self).alive(),
            final(self).spec_hwnd() == old(self).spec_hwnd(),
            final(self).data() == (WindowImplData {
                style: Style { visible, ..old(self).data().style },
                ..old(self).data()
            }),
            final(self).pending() == old(self).pending(),
            final(self).polled() == old(self).polled(),
    {
        let wparam: usize = if visible {
            1
        } else {
            0
        };
        let _ = self.pump_message(WM_SHOWWINDOW, wparam, 0);
    }

    /// Non-blocking variant of [`Window::set_visible`].
    pub fn set_visible_async(&mut self, visible: bool)
        requires
            old(self).wf(),
            old(self).alive(),
        ensures
            final(self).wf(),
            final(self).alive(),
            final(self).spec_hwnd() == old(self).spec_hwnd(),
            final(self).data() == (WindowImplData {
                style: Style { visible, ..old(self).data().style },
                ..old(self).data()
            }),
            final(self).pending() == old(self).pending(),
            final(self).polled() == old(self).polled(),
    {
        self.set_visible(visible);
    }

    /// The authoritative teardown: signals the destroy flag, performs the
    /// now-permitted native destroy, and runs the destroy message, whose
    /// quit signal ends the message loop. Afterwards the handle is dead and
    /// refuses further use.
    pub fn destroy(&mut self)
        requires
            old(self).wf(),
            old(self).alive(),
        ensures
            final(self).wf(),
            !final(self).alive(),
            final(self).spec_hwnd() == old(self).spec_hwnd(),
            final(self).data() == (WindowImplData { destroy_flag: true, ..old(self).data() }),
            final(self).pending() == old(self).pending(),
            final(self).polled() == old(self).polled(),
    {
        let (_, _, _) = self.run_command(Command::Drop);
        // The destroy flag is set, so the hook lets the native destroy pass.
        let decision = hcbt_destroywnd_hookproc(HCBT_DESTROYWND, true, true);
        assert(decision == HookDecision::Allow);
        // Native destruction delivers the destroy message; with the flag set
        // it posts the quit signal that ends the loop.
        let hwnd = self.0.hwnd;
        let d = process_message(&mut self.0.data, hwnd, WM_DESTROY, 0, 0);
        assert(d.actions@ == seq![NativeAction::PostQuit]);
        self.0.alive = false;
    }
}

impl Window {
    /// Reads the current style snapshot.
    pub fn style(&self) -> (r: Style)
        ensures
            r == self.data().style,
    {
        self.0.data.style
    }

    /// Borrows the NUL-terminated wide string the native title storage
    /// holds.
    pub fn title_wide(&self) -> (r: &Vec<u16>)
        ensures
            r@ == self.data().title_wide@,
    {
        &self.0.data.title_wide
    }

    /// Whether sizes are currently reported in logical units.
    pub fn is_dpi_logical(&self) -> (r: bool)
        ensures
            r == self.data().is_dpi_logical,
    {
        self.0.data.is_dpi_logical
    }

    /// Whether the window has not been torn down yet.
    pub fn is_live(&self) -> (r: bool)
        ensures
            r == self.alive(),
    {
        self.0.alive
    }
}

/// Win32-specific extensions to the [`Window`] API.
pub trait WindowExt {
    /// Gets the native window handle's value.
    fn hwnd(&self) -> usize;
}

impl WindowExt for Window {
    fn hwnd(&self) -> usize {
        self.0.hwnd
    }
}

/// Win32-specific extensions to the [`WindowBuilder`] API.
pub trait WindowBuilderExt {
    /// Sets whether the window uses the native tool-window style.
    fn tool_window(&mut self, tool_window: bool) -> &mut Self;
}

impl WindowBuilderExt for WindowBuilder {
    fn tool_window(&mut self, tool_window: bool) -> &mut WindowBuilder {
        self.style.tool_window = tool_window;
        self
    }
}

} // verus!


verus! {

impl Window {
    /// Maximizes or restores the window. The transition is reported through
    /// the event queue, like a native size message would report it; when the
    /// queue is full the event is dropped rather than stalling the caller,
    /// matching the soft-failure policy for commands.
    pub fn set_maximized(&mut self, maximized: bool)
        requires
            old(self).wf(),
            old(self).alive(),
        ensures
            final(self).wf(),
            final(self).alive(),
            final(self).spec_hwnd() == old(self).spec_hwnd(),
            final(self).data() == (WindowImplData { is_maximized: maximized, ..old(self).data() }),
            final(self).polled() == old(self).polled(),
            old(self).data().is_maximized == maximized ==> final(self).pending() == old(
                self,
            ).pending(),
            old(self).data().is_maximized != maximized ==> final(self).pending()
                == spec_push_many(
                old(self).pending(),
                seq![Event::Maximize(maximized)],
                MAX_EVENTS_PER_SWAP as nat,
            ),
    {
        let (_, _, _) = self.run_command(Command::SetMaximized(maximized));
    }

    /// Non-blocking variant of [`Window::set_maximized`].
    pub fn set_maximized_async(&mut self, maximized: bool)
        requires
            old(self).wf(),
            old(self).alive(),
        ensures
            final(self).wf(),
            final(self).alive(),
            final(self).spec_hwnd() == old(self).spec_hwnd(),
            final(self).data() == (WindowImplData { is_maximized: maximized, ..old(self).data() }),
            final(self).polled() == old(self).polled(),
            old(self).data().is_maximized == maximized ==> final(self).pending() == old(
                self,
            ).pending(),
            old(self).data().is_maximized != maximized ==> final(self).pending()
                == spec_push_many(
                old(self).pending(),
                seq![Event::Maximize(maximized)],
                MAX_EVENTS_PER_SWAP as nat,
            ),
    {
        self.set_maximized(maximized);
    }
}

} // verus!
