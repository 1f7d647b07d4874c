use vstd::prelude::*;
use crate::words::{LParam, WParam, GET_X_LPARAM, GET_Y_LPARAM, lparam_x, lparam_y};

verus! {

/// Sent once when a window is being created.
pub const WM_CREATE: u32 = 0x0001u32;

/// Sent when a window is being destroyed.
pub const WM_DESTROY: u32 = 0x0002u32;

/// Sent when a window's client area has to be painted.
pub const WM_PAINT: u32 = 0x000fu32;

/// Posted to end the message loop.
pub const WM_QUIT: u32 = 0x0012u32;

/// A key was pressed.
pub const WM_KEYDOWN: u32 = 0x0100u32;

/// A key was released.
pub const WM_KEYUP: u32 = 0x0101u32;

/// The mouse moved over the client area.
pub const WM_MOUSEMOVE: u32 = 0x0200u32;

/// The left mouse button was pressed over the client area.
pub const WM_LBUTTONDOWN: u32 = 0x0201u32;

/// The left mouse button was released over the client area.
pub const WM_LBUTTONUP: u32 = 0x0202u32;

/// A window message that the drawing handler reacts to, with the values it carries.
#[derive(Clone, Copy, Debug, PartialEq, Eq, Structural)]
pub enum WindowEvent {
    /// A key went down; the key code is the low byte of `wParam`.
    KeyDown(u8),
    /// A key went up; the key code is the low byte of `wParam`.
    KeyUp(u8),
    /// The left button went down at client coordinates `x`, `y`.
    LeftButtonDown { x: i32, y: i32 },
    /// The left button went up at client coordinates `x`, `y`.
    LeftButtonUp { x: i32, y: i32 },
    /// The mouse moved to client coordinates `x`, `y`.
    MouseMove { x: i32, y: i32 },
    /// The client area has to be painted.
    Paint,
}

/// The key code that a keyboard message carries: the low byte of `wParam`.
pub open spec fn key_code(wparam: usize) -> u8 {
    (wparam % 0x100) as u8
}

/// The event that a message stands for, or `None` for a message that the
/// drawing handler does not handle.
pub open spec fn decoded_event(message: u32, wparam: usize, lparam: isize) -> Option<WindowEvent> {
    let x = lparam_x(lparam) as i32;
    let y = lparam_y(lparam) as i32;
    if message == WM_KEYDOWN {
        Some(WindowEvent::KeyDown(key_code(wparam)))
    } else if message == WM_KEYUP {
        Some(WindowEvent::KeyUp(key_code(wparam)))
    } else if message == WM_LBUTTONDOWN {
        Some(WindowEvent::LeftButtonDown { x, y })
    } else if message == WM_LBUTTONUP {
        Some(WindowEvent::LeftButtonUp { x, y })
    } else if message == WM_MOUSEMOVE {
        Some(WindowEvent::MouseMove { x, y })
    } else if message == WM_PAINT {
        Some(WindowEvent::Paint)
    } else {
        None
    }
}

/// The low byte of `wParam`, which keyboard messages use as the key code.
fn key_code_of(wparam: WParam) -> (k: u8)
    ensures
        k == key_code(wparam.0),
{
    let w = wparam.0;
    assert((w as u8) == ((w % 256) as u8)) by (bit_vector);
    w as u8
}

/// Decodes a window message for the drawing handler: `Some` event when the
/// message is one the handler reacts to (the message is then handled), `None`
/// when it is left to the default window procedure.
pub fn polyd_wndproc(message: u32, wparam: WParam, lparam: LParam) -> (e: Option<WindowEvent>)
    ensures
        e == decoded_event(message, wparam.0, lparam.0),
        e is Some <==> (message == WM_KEYDOWN || message == WM_KEYUP || message == WM_LBUTTONDOWN
            || message == WM_LBUTTONUP || message == WM_MOUSEMOVE || message == WM_PAINT),
{
    if message == WM_KEYDOWN {
        Some(WindowEvent::KeyDown(key_code_of(wparam)))
    } else if message == WM_KEYUP {
        Some(WindowEvent::KeyUp(key_code_of(wparam)))
    } else if message == WM_LBUTTONDOWN {
        Some(WindowEvent::LeftButtonDown { x: GET_X_LPARAM(lparam), y: GET_Y_LPARAM(lparam) })
    } else if message == WM_LBUTTONUP {
        Some(WindowEvent::LeftButtonUp { x: GET_X_LPARAM(lparam), y: GET_Y_LPARAM(lparam) })
    } else if message == WM_MOUSEMOVE {
        Some(WindowEvent::MouseMove { x: GET_X_LPARAM(lparam), y: GET_Y_LPARAM(lparam) })
    } else if message == WM_PAINT {
        Some(WindowEvent::Paint)
    } else {
        None
    }
}

/// Whether signed 16-bit coordinates `x`, `y` are the ones held in the low
/// 32 bits of `lp`: `x` in the low word and `y` in the high word, each read
/// as a two's-complement 16-bit number.
pub open spec fn holds_point(lp: isize, x: i32, y: i32) -> bool {
    &&& -0x8000 <= x < 0x8000
    &&& -0x8000 <= y < 0x8000
    &&& (x as int) % 0x10000 == (lp as u32) % 0x10000
    &&& (y as int) % 0x10000 == (lp as u32) / 0x10000
}

/// The coordinates read from an `lParam` are the signed 16-bit numbers whose
/// bit patterns are its low and high words.
pub proof fn lemma_lparam_point(lp: isize)
    ensures
        holds_point(lp, lparam_x(lp) as i32, lparam_y(lp) as i32),
{
    let u = lp as u32;
    let lo = u % 0x10000;
    let hi = u / 0x10000;
    assert(0 <= hi < 0x10000);
    let x = lparam_x(lp);
    let y = lparam_y(lp);
    assert(x == (if lo < 0x8000 { lo as int } else { lo - 0x10000 }));
    assert(y == (if hi < 0x8000 { hi as int } else { hi - 0x10000 }));
    assert(x % 0x10000 == lo);
    assert(y % 0x10000 == hi);
}

/// What each handled message carries: a keyboard message the low byte of
/// `wParam` as the key code, whatever `lParam` holds; a mouse message the
/// point held in `lParam`, in a variant that names the message; a paint
/// message nothing.
pub proof fn lemma_decoded_events(wparam: usize, lparam: isize)
    ensures
        decoded_event(WM_KEYDOWN, wparam, lparam) == Some(WindowEvent::KeyDown((wparam % 256) as u8)),
        decoded_event(WM_KEYUP, wparam, lparam) == Some(WindowEvent::KeyUp((wparam % 256) as u8)),
        decoded_event(WM_LBUTTONDOWN, wparam, lparam) matches Some(WindowEvent::LeftButtonDown { x, y })
            && holds_point(lparam, x, y),
        decoded_event(WM_LBUTTONUP, wparam, lparam) matches Some(WindowEvent::LeftButtonUp { x, y })
            && holds_point(lparam, x, y),
        decoded_event(WM_MOUSEMOVE, wparam, lparam) matches Some(WindowEvent::MouseMove { x, y })
            && holds_point(lparam, x, y),
        decoded_event(WM_PAINT, wparam, lparam) == Some(WindowEvent::Paint),
{
    lemma_lparam_point(lparam);
}

} // verus!
