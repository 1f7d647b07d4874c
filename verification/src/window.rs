use vstd::prelude::*;
use crate::messages::{WindowEvent, WM_CREATE, WM_DESTROY, WM_QUIT, decoded_event, polyd_wndproc};
use crate::words::{LParam, WParam};

verus! {

/// What the window procedure does with one message.
#[derive(Clone, Copy, Debug, PartialEq, Eq, Structural)]
pub enum WndAction {
    /// Remember the drawing handler passed in the creation parameters; the message is handled.
    StoreInstance,
    /// Report the destruction and post the quit message; the message is handled.
    Destroy,
    /// Hand the event to the drawing handler; the message is handled.
    Deliver(WindowEvent),
    /// Leave the message to the default window procedure.
    Default,
}

/// The action for `message`, given whether a drawing handler is attached to the window.
pub open spec fn wndproc_spec(message: u32, wparam: usize, lparam: isize, has_instance: bool) -> WndAction {
    if message == WM_CREATE {
        WndAction::StoreInstance
    } else if message == WM_DESTROY {
        WndAction::Destroy
    } else if !has_instance {
        WndAction::Default
    } else {
        match decoded_event(message, wparam, lparam) {
            Some(e) => WndAction::Deliver(e),
            None => WndAction::Default,
        }
    }
}

/// Decides what the window procedure does with a message: creation and
/// destruction are handled by the window itself; any other message goes to
/// the attached drawing handler when there is one and it handles it, and to
/// the default window procedure otherwise.
pub fn wndproc(message: u32, wparam: WParam, lparam: LParam, has_instance: bool) -> (a: WndAction)
    ensures
        a == wndproc_spec(message, wparam.0, lparam.0, has_instance),
{
    if message == WM_CREATE {
        WndAction::StoreInstance
    } else if message == WM_DESTROY {
        WndAction::Destroy
    } else if !has_instance {
        WndAction::Default
    } else {
        match polyd_wndproc(message, wparam, lparam) {
            Some(e) => WndAction::Deliver(e),
            None => WndAction::Default,
        }
    }
}

/// The window procedure handles a message itself exactly when it is the
/// creation or the destruction of the window, or a message that the attached
/// drawing handler reacts to; everything else goes to the default procedure.
pub proof fn lemma_handled_messages(message: u32, wparam: usize, lparam: isize, has_instance: bool)
    ensures
        (wndproc_spec(message, wparam, lparam, has_instance) != WndAction::Default) <==> (
        message == WM_CREATE || message == WM_DESTROY || (has_instance && decoded_event(
            message,
            wparam,
            lparam,
        ) is Some)),
{
}

/// A message other than creation and destruction that the drawing handler
/// decodes to an event is handed, as that very event, to an attached handler.
pub proof fn lemma_wndproc_delivers(message: u32, wparam: usize, lparam: isize, e: WindowEvent)
    requires
        message != WM_CREATE,
        message != WM_DESTROY,
        decoded_event(message, wparam, lparam) == Some(e),
    ensures
        wndproc_spec(message, wparam, lparam, true) == WndAction::Deliver(e),
{
}

/// What one turn of the message loop does.
#[derive(Clone, Copy, Debug, PartialEq, Eq, Structural)]
pub enum LoopStep {
    /// No message was waiting: poll again.
    Poll,
    /// Translate and dispatch the message, then poll again.
    Dispatch,
    /// Translate and dispatch the message, then leave the loop.
    DispatchAndQuit,
}

/// Decides one turn of the message loop from whether a message was retrieved
/// and, if so, which one: the loop ends after the quit message is dispatched.
pub fn message_loop_step(retrieved: bool, message: u32) -> (s: LoopStep)
    ensures
        !retrieved ==> s == LoopStep::Poll,
        retrieved && message == WM_QUIT ==> s == LoopStep::DispatchAndQuit,
        retrieved && message != WM_QUIT ==> s == LoopStep::Dispatch,
{
    if !retrieved {
        LoopStep::Poll
    } else if message == WM_QUIT {
        LoopStep::DispatchAndQuit
    } else {
        LoopStep::Dispatch
    }
}

/// A rectangle by its edges, in pixels.
#[derive(Clone, Copy, Debug, PartialEq, Eq, Structural)]
pub struct Rect {
    pub left: i32,
    pub top: i32,
    pub right: i32,
    pub bottom: i32,
}

/// The client rectangle of a window of `width` by `height` pixels at the origin.
pub open spec fn client_rect(width: i32, height: i32) -> Rect {
    Rect { left: 0, top: 0, right: width, bottom: height }
}

/// The width and height of a rectangle.
pub open spec fn rect_extent(r: Rect) -> (int, int) {
    (r.right - r.left, r.bottom - r.top)
}

/// The client rectangle, at the origin, of a window of the given size.
pub fn window_rect(size: (i32, i32)) -> (r: Rect)
    ensures
        r == client_rect(size.0, size.1),
{
    Rect { left: 0, top: 0, right: size.0, bottom: size.1 }
}

/// The width and height of `rect`, which the window is created with once the
/// rectangle has been adjusted for the frame.
pub fn window_extent(rect: &Rect) -> (e: (i32, i32))
    requires
        i32::MIN <= rect.right - rect.left <= i32::MAX,
        i32::MIN <= rect.bottom - rect.top <= i32::MAX,
    ensures
        (e.0 as int, e.1 as int) == rect_extent(*rect),
{
    (rect.right - rect.left, rect.bottom - rect.top)
}

/// The client rectangle made for a size has exactly that size.
pub proof fn lemma_client_rect_extent(width: i32, height: i32)
    ensures
        rect_extent(client_rect(width, height)) == (width as int, height as int),
{
}

} // verus!
