//! Win32 constant tables and the two plain geometry records, as the native
//! headers define them. Messages are `u32` codes; a message's `WPARAM` is
//! carried as `usize` and its `LPARAM` as `isize`, matching the native ABI.

use vstd::prelude::*;

verus! {

// Window messages.
pub const WM_NULL: u32 = 0x0000;
pub const WM_CREATE: u32 = 0x0001;
pub const WM_DESTROY: u32 = 0x0002;
pub const WM_MOVE: u32 = 0x0003;
pub const WM_SIZE: u32 = 0x0005;
pub const WM_ACTIVATE: u32 = 0x0006;
pub const WM_SETFOCUS: u32 = 0x0007;
pub const WM_KILLFOCUS: u32 = 0x0008;
pub const WM_ENABLE: u32 = 0x000A;
pub const WM_SETREDRAW: u32 = 0x000B;
pub const WM_SETTEXT: u32 = 0x000C;
pub const WM_PAINT: u32 = 0x000F;
pub const WM_CLOSE: u32 = 0x0010;
pub const WM_ERASEBKGND: u32 = 0x0014;
pub const WM_SHOWWINDOW: u32 = 0x0018;
pub const WM_ACTIVATEAPP: u32 = 0x001C;
pub const WM_SETCURSOR: u32 = 0x0020;
pub const WM_NCCREATE: u32 = 0x0081;
pub const WM_NCDESTROY: u32 = 0x0082;
pub const WM_KEYDOWN: u32 = 0x0100;
pub const WM_KEYUP: u32 = 0x0101;
pub const WM_SYSKEYDOWN: u32 = 0x0104;
pub const WM_SYSKEYUP: u32 = 0x0105;
pub const WM_SYSCOMMAND: u32 = 0x0112;
pub const WM_MOUSEMOVE: u32 = 0x0200;
pub const WM_LBUTTONDOWN: u32 = 0x0201;
pub const WM_LBUTTONUP: u32 = 0x0202;
pub const WM_RBUTTONDOWN: u32 = 0x0204;
pub const WM_RBUTTONUP: u32 = 0x0205;
pub const WM_MBUTTONDOWN: u32 = 0x0207;
pub const WM_MBUTTONUP: u32 = 0x0208;
pub const WM_MOUSEWHEEL: u32 = 0x020A;
pub const WM_XBUTTONDOWN: u32 = 0x020B;
pub const WM_XBUTTONUP: u32 = 0x020C;
pub const WM_USER: u32 = 0x0400;

// `WM_SIZE` reason codes (wParam).
pub const SIZE_RESTORED: usize = 0;
pub const SIZE_MINIMIZED: usize = 1;
pub const SIZE_MAXIMIZED: usize = 2;
pub const SIZE_MAXSHOW: usize = 3;
pub const SIZE_MAXHIDE: usize = 4;

// System-menu command identifiers (`WM_SYSCOMMAND` wParam).
pub const SC_CLOSE: usize = 0xF060;
pub const SC_MAXIMIZE: usize = 0xF030;
pub const SC_RESTORE: usize = 0xF120;

// Hit-test result for the client area (`WM_SETCURSOR` low word of lParam).
pub const HTCLIENT: usize = 1;

// X-button sub-codes (`WM_XBUTTONDOWN`/`UP` high word of wParam).
pub const XBUTTON1: usize = 0x0001;
pub const XBUTTON2: usize = 0x0002;

// Window style bits.
pub const WS_BORDER: u32 = 0x00800000;
pub const WS_CAPTION: u32 = 0x00C00000;
pub const WS_MAXIMIZEBOX: u32 = 0x00010000;
pub const WS_MINIMIZEBOX: u32 = 0x00020000;
pub const WS_OVERLAPPED: u32 = 0x00000000;
pub const WS_POPUP: u32 = 0x80000000;
pub const WS_SYSMENU: u32 = 0x00080000;
pub const WS_THICKFRAME: u32 = 0x00040000;
pub const WS_VISIBLE: u32 = 0x10000000;

// Extended window style bits.
pub const WS_EX_LAYOUTRTL: u32 = 0x00400000;
pub const WS_EX_TOOLWINDOW: u32 = 0x00000080;

// Integer resource identifiers for the stock cursors.
pub const IDC_ARROW: u32 = 32512;
pub const IDC_IBEAM: u32 = 32513;
pub const IDC_WAIT: u32 = 32514;
pub const IDC_CROSS: u32 = 32515;
pub const IDC_SIZENWSE: u32 = 32642;
pub const IDC_SIZENESW: u32 = 32643;
pub const IDC_SIZEWE: u32 = 32644;
pub const IDC_SIZENS: u32 = 32645;
pub const IDC_SIZEALL: u32 = 32646;
pub const IDC_NO: u32 = 32648;
pub const IDC_HAND: u32 = 32649;
pub const IDC_APPSTARTING: u32 = 32650;
pub const IDC_HELP: u32 = 32651;

// The computer-based-training hook code observed when a window is about to
// be destroyed.
pub const HCBT_DESTROYWND: i32 = 4;

// Virtual-key codes (the ones the key translation recognizes).
pub const VK_LBUTTON: u8 = 0x01;
pub const VK_RBUTTON: u8 = 0x02;
pub const VK_CANCEL: u8 = 0x03;
pub const VK_MBUTTON: u8 = 0x04;
pub const VK_XBUTTON1: u8 = 0x05;
pub const VK_XBUTTON2: u8 = 0x06;
pub const VK_BACK: u8 = 0x08;
pub const VK_TAB: u8 = 0x09;
pub const VK_CLEAR: u8 = 0x0C;
pub const VK_RETURN: u8 = 0x0D;
pub const VK_SHIFT: u8 = 0x10;
pub const VK_CONTROL: u8 = 0x11;
pub const VK_MENU: u8 = 0x12;
pub const VK_PAUSE: u8 = 0x13;
pub const VK_CAPITAL: u8 = 0x14;
pub const VK_KANA: u8 = 0x15;
pub const VK_IME_ON: u8 = 0x16;
pub const VK_JUNJA: u8 = 0x17;
pub const VK_FINAL: u8 = 0x18;
pub const VK_KANJI: u8 = 0x19;
pub const VK_IME_OFF: u8 = 0x1A;
pub const VK_ESCAPE: u8 = 0x1B;
pub const VK_CONVERT: u8 = 0x1C;
pub const VK_NONCONVERT: u8 = 0x1D;
pub const VK_ACCEPT: u8 = 0x1E;
pub const VK_MODECHANGE: u8 = 0x1F;
pub const VK_SPACE: u8 = 0x20;
pub const VK_PRIOR: u8 = 0x21;
pub const VK_NEXT: u8 = 0x22;
pub const VK_END: u8 = 0x23;
pub const VK_HOME: u8 = 0x24;
pub const VK_LEFT: u8 = 0x25;
pub const VK_UP: u8 = 0x26;
pub const VK_RIGHT: u8 = 0x27;
pub const VK_DOWN: u8 = 0x28;
pub const VK_SELECT: u8 = 0x29;
pub const VK_PRINT: u8 = 0x2A;
pub const VK_EXECUTE: u8 = 0x2B;
pub const VK_SNAPSHOT: u8 = 0x2C;
pub const VK_INSERT: u8 = 0x2D;
pub const VK_DELETE: u8 = 0x2E;
pub const VK_HELP: u8 = 0x2F;
pub const VK_LWIN: u8 = 0x5B;
pub const VK_RWIN: u8 = 0x5C;
pub const VK_APPS: u8 = 0x5D;
pub const VK_SLEEP: u8 = 0x5F;
pub const VK_NUMPAD0: u8 = 0x60;
pub const VK_NUMPAD1: u8 = 0x61;
pub const VK_NUMPAD2: u8 = 0x62;
pub const VK_NUMPAD3: u8 = 0x63;
pub const VK_NUMPAD4: u8 = 0x64;
pub const VK_NUMPAD5: u8 = 0x65;
pub const VK_NUMPAD6: u8 = 0x66;
pub const VK_NUMPAD7: u8 = 0x67;
pub const VK_NUMPAD8: u8 = 0x68;
pub const VK_NUMPAD9: u8 = 0x69;
pub const VK_MULTIPLY: u8 = 0x6A;
pub const VK_ADD: u8 = 0x6B;
pub const VK_SEPARATOR: u8 = 0x6C;
pub const VK_SUBTRACT: u8 = 0x6D;
pub const VK_DECIMAL: u8 = 0x6E;
pub const VK_DIVIDE: u8 = 0x6F;
pub const VK_F1: u8 = 0x70;
pub const VK_F2: u8 = 0x71;
pub const VK_F3: u8 = 0x72;
pub const VK_F4: u8 = 0x73;
pub const VK_F5: u8 = 0x74;
pub const VK_F6: u8 = 0x75;
pub const VK_F7: u8 = 0x76;
pub const VK_F8: u8 = 0x77;
pub const VK_F9: u8 = 0x78;
pub const VK_F10: u8 = 0x79;
pub const VK_F11: u8 = 0x7A;
pub const VK_F12: u8 = 0x7B;
pub const VK_F13: u8 = 0x7C;
pub const VK_F14: u8 = 0x7D;
pub const VK_F15: u8 = 0x7E;
pub const VK_F16: u8 = 0x7F;
pub const VK_F17: u8 = 0x80;
pub const VK_F18: u8 = 0x81;
pub const VK_F19: u8 = 0x82;
pub const VK_F20: u8 = 0x83;
pub const VK_F21: u8 = 0x84;
pub const VK_F22: u8 = 0x85;
pub const VK_F23: u8 = 0x86;
pub const VK_F24: u8 = 0x87;
pub const VK_NUMLOCK: u8 = 0x90;
pub const VK_SCROLL: u8 = 0x91;
pub const VK_LSHIFT: u8 = 0xA0;
pub const VK_RSHIFT: u8 = 0xA1;
pub const VK_LCONTROL: u8 = 0xA2;
pub const VK_RCONTROL: u8 = 0xA3;
pub const VK_LMENU: u8 = 0xA4;
pub const VK_RMENU: u8 = 0xA5;
pub const VK_BROWSER_BACK: u8 = 0xA6;
pub const VK_BROWSER_FORWARD: u8 = 0xA7;
pub const VK_BROWSER_REFRESH: u8 = 0xA8;
pub const VK_BROWSER_STOP: u8 = 0xA9;
pub const VK_BROWSER_SEARCH: u8 = 0xAA;
pub const VK_BROWSER_FAVORITES: u8 = 0xAB;
pub const VK_BROWSER_HOME: u8 = 0xAC;
pub const VK_VOLUME_MUTE: u8 = 0xAD;
pub const VK_VOLUME_DOWN: u8 = 0xAE;
pub const VK_VOLUME_UP: u8 = 0xAF;
pub const VK_MEDIA_NEXT_TRACK: u8 = 0xB0;
pub const VK_MEDIA_PREV_TRACK: u8 = 0xB1;
pub const VK_MEDIA_STOP: u8 = 0xB2;
pub const VK_MEDIA_PLAY_PAUSE: u8 = 0xB3;
pub const VK_LAUNCH_MAIL: u8 = 0xB4;
pub const VK_LAUNCH_MEDIA_SELECT: u8 = 0xB5;
pub const VK_LAUNCH_APP1: u8 = 0xB6;
pub const VK_LAUNCH_APP2: u8 = 0xB7;
pub const VK_OEM_1: u8 = 0xBA;
pub const VK_OEM_PLUS: u8 = 0xBB;
pub const VK_OEM_COMMA: u8 = 0xBC;
pub const VK_OEM_MINUS: u8 = 0xBD;
pub const VK_OEM_PERIOD: u8 = 0xBE;
pub const VK_OEM_2: u8 = 0xBF;
pub const VK_OEM_3: u8 = 0xC0;
pub const VK_OEM_4: u8 = 0xDB;
pub const VK_OEM_5: u8 = 0xDC;
pub const VK_OEM_6: u8 = 0xDD;
pub const VK_OEM_7: u8 = 0xDE;
pub const VK_OEM_8: u8 = 0xDF;
pub const VK_OEM_102: u8 = 0xE2;
pub const VK_PROCESSKEY: u8 = 0xE5;
pub const VK_PACKET: u8 = 0xE7;
pub const VK_ATTN: u8 = 0xF6;
pub const VK_CRSEL: u8 = 0xF7;
pub const VK_EXSEL: u8 = 0xF8;
pub const VK_EREOF: u8 = 0xF9;
pub const VK_PLAY: u8 = 0xFA;
pub const VK_ZOOM: u8 = 0xFB;
pub const VK_NONAME: u8 = 0xFC;
pub const VK_PA1: u8 = 0xFD;
pub const VK_OEM_CLEAR: u8 = 0xFE;

/// A point in screen coordinates.
#[derive(Copy, Clone, Debug, Eq, PartialEq, Structural)]
pub struct POINT {
    pub x: i32,
    pub y: i32,
}

/// A rectangle in screen coordinates, given by its edges.
#[derive(Copy, Clone, Debug, Eq, PartialEq, Structural)]
pub struct RECT {
    pub left: i32,
    pub top: i32,
    pub right: i32,
    pub bottom: i32,
}

/// The width and height spanned by a rectangle.
pub fn rect_to_size2d(rect: &RECT) -> (r: (i32, i32))
    requires
        i32::MIN <= rect.right - rect.left <= i32::MAX,
        i32::MIN <= rect.bottom - rect.top <= i32::MAX,
    ensures
        r.0 == rect.right - rect.left,
        r.1 == rect.bottom - rect.top,
{
    (rect.right - rect.left, rect.bottom - rect.top)
}

} // verus!
