use polydraw::messages::{
    polyd_wndproc, WindowEvent, WM_CREATE, WM_DESTROY, WM_KEYDOWN, WM_KEYUP, WM_LBUTTONDOWN,
    WM_LBUTTONUP, WM_MOUSEMOVE, WM_PAINT, WM_QUIT,
};
use polydraw::words::{LParam, WParam};
use windows::Win32::UI::WindowsAndMessaging as wm;

#[test]
fn message_codes_are_those_of_the_windows_api() {
    assert_eq!(WM_CREATE, wm::WM_CREATE);
    assert_eq!(WM_DESTROY, wm::WM_DESTROY);
    assert_eq!(WM_PAINT, wm::WM_PAINT);
    assert_eq!(WM_QUIT, wm::WM_QUIT);
    assert_eq!(WM_KEYDOWN, wm::WM_KEYDOWN);
    assert_eq!(WM_KEYUP, wm::WM_KEYUP);
    assert_eq!(WM_MOUSEMOVE, wm::WM_MOUSEMOVE);
    assert_eq!(WM_LBUTTONDOWN, wm::WM_LBUTTONDOWN);
    assert_eq!(WM_LBUTTONUP, wm::WM_LBUTTONUP);
}

#[test]
fn keyboard_messages_carry_the_low_byte_of_wparam() {
    assert_eq!(polyd_wndproc(WM_KEYDOWN, WParam(0x41), LParam(0)), Some(WindowEvent::KeyDown(0x41)));
    assert_eq!(polyd_wndproc(WM_KEYUP, WParam(0x1_0d), LParam(7)), Some(WindowEvent::KeyUp(0x0d)));
}

#[test]
fn mouse_messages_carry_the_coordinates() {
    let lp = LParam(0x0032_0014);
    assert_eq!(
        polyd_wndproc(WM_LBUTTONDOWN, WParam(1), lp),
        Some(WindowEvent::LeftButtonDown { x: 20, y: 50 })
    );
    assert_eq!(
        polyd_wndproc(WM_LBUTTONUP, WParam(0), lp),
        Some(WindowEvent::LeftButtonUp { x: 20, y: 50 })
    );
    assert_eq!(
        polyd_wndproc(WM_MOUSEMOVE, WParam(0), LParam(0xfff6_fffb)),
        Some(WindowEvent::MouseMove { x: -5, y: -10 })
    );
}

#[test]
fn paint_is_handled_and_other_messages_are_not() {
    assert_eq!(polyd_wndproc(WM_PAINT, WParam(0), LParam(0)), Some(WindowEvent::Paint));
    for m in [WM_CREATE, WM_DESTROY, WM_QUIT, 0x0000, 0x0010, 0x0204, 0xffff_ffff] {
        assert_eq!(polyd_wndproc(m, WParam(1), LParam(1)), None);
    }
}
