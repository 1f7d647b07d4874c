use polydraw::messages::{WindowEvent, WM_CREATE, WM_DESTROY, WM_KEYDOWN, WM_MOUSEMOVE, WM_QUIT};
use polydraw::window::{message_loop_step, window_extent, window_rect, wndproc, LoopStep, Rect, WndAction};
use polydraw::words::{LParam, WParam};

#[test]
fn creation_and_destruction_are_handled_by_the_window() {
    for attached in [false, true] {
        assert_eq!(wndproc(WM_CREATE, WParam(0), LParam(0), attached), WndAction::StoreInstance);
        assert_eq!(wndproc(WM_DESTROY, WParam(0), LParam(0), attached), WndAction::Destroy);
    }
}

#[test]
fn other_messages_go_to_the_handler_when_one_is_attached() {
    assert_eq!(
        wndproc(WM_MOUSEMOVE, WParam(0), LParam(0x0002_0001), true),
        WndAction::Deliver(WindowEvent::MouseMove { x: 1, y: 2 })
    );
    assert_eq!(wndproc(WM_KEYDOWN, WParam(32), LParam(0), true), WndAction::Deliver(WindowEvent::KeyDown(32)));
    assert_eq!(wndproc(WM_MOUSEMOVE, WParam(0), LParam(0), false), WndAction::Default);
    assert_eq!(wndproc(0x0086, WParam(0), LParam(0), true), WndAction::Default);
}

#[test]
fn the_loop_ends_after_the_quit_message() {
    assert_eq!(message_loop_step(false, 0), LoopStep::Poll);
    assert_eq!(message_loop_step(false, WM_QUIT), LoopStep::Poll);
    assert_eq!(message_loop_step(true, WM_KEYDOWN), LoopStep::Dispatch);
    assert_eq!(message_loop_step(true, WM_QUIT), LoopStep::DispatchAndQuit);
}

#[test]
fn window_rect_has_the_requested_extent() {
    let r = window_rect((640, 480));
    assert_eq!(r, Rect { left: 0, top: 0, right: 640, bottom: 480 });
    assert_eq!(window_extent(&r), (640, 480));
    let adjusted = Rect { left: -8, top: -31, right: 648, bottom: 488 };
    assert_eq!(window_extent(&adjusted), (656, 519));
}
