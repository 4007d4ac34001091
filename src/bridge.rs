use vstd::prelude::*;

use crate::event::{
    acquire_handler_spec, handler_available, loop_wf, released, set_control_flow_spec, step,
    ActiveState, ControlFlow, EventLoop, LoopAction, LoopState, Phase,
};
use crate::util::{high_word, hiword, loword, low_word};

verus! {

/// Native message: a window is about to be constructed.
pub const WM_NCCREATE: u32 = 0x0081;

/// Native message: a window was resized.
pub const WM_SIZE: u32 = 0x0005;

/// Native message: a window is being destroyed.
pub const WM_DESTROY: u32 = 0x0002;

/// What the window procedure does with one message. Every outcome ends with the
/// native default processing of the message.
#[derive(Debug, Clone, Copy, PartialEq, Eq, Structural)]
pub enum Dispatch {
    /// Nothing more than default processing.
    Default,
    /// The construction handshake recorded the window's back-reference.
    Registered,
    /// Call the handler's `window_resize` with this size, then release the handler.
    Resize { width: u32, height: u32 },
    /// Call the handler's `window_close`, then release the handler.
    Close,
}

/// The decision of the window procedure for message `msg` to `window`, whose
/// packed size parameter is `packed`; `create_context` tells whether the message
/// carries the creation context of a window being built against this loop.
pub open spec fn dispatch_spec(
    s: LoopState,
    window: u64,
    msg: u32,
    packed: u32,
    create_context: bool,
) -> (LoopState, Dispatch) {
    if !s.target.windows.contains(window) {
        if msg == WM_NCCREATE && create_context {
            (
                LoopState {
                    target: ActiveState { windows: s.target.windows.insert(window), ..s.target },
                    ..s
                },
                Dispatch::Registered,
            )
        } else {
            (s, Dispatch::Default)
        }
    } else if !handler_available(s.target) || (msg != WM_SIZE && msg != WM_DESTROY) {
        (s, Dispatch::Default)
    } else if msg == WM_SIZE {
        (
            LoopState { target: acquire_handler_spec(s.target), ..s },
            Dispatch::Resize { width: low_word(packed) as u32, height: high_word(packed) as u32 },
        )
    } else {
        (LoopState { target: acquire_handler_spec(s.target), ..s }, Dispatch::Close)
    }
}

/// Resolves one message delivered to `window`. The construction message of a
/// window with no record yet consumes the creation context and records the
/// back-reference, without involving the handler. A message to a window with a
/// record reaches the handler only when it is available and the message is a
/// resize or a destroy; anything else falls through to default processing.
pub fn dispatch(
    event_loop: &mut EventLoop,
    window: u64,
    msg: u32,
    packed: u32,
    create_context: bool,
) -> (r: Dispatch)
    requires
        old(event_loop).wf(),
    ensures
        (final(event_loop)@, r) == dispatch_spec(old(event_loop)@, window, msg, packed, create_context),
        final(event_loop).wf(),
{
    if !event_loop.has_window(window) {
        if msg == WM_NCCREATE && create_context {
            event_loop.add_window(window);
            return Dispatch::Registered;
        }
        return Dispatch::Default;
    }
    if msg != WM_SIZE && msg != WM_DESTROY {
        return Dispatch::Default;
    }
    if !event_loop.try_acquire_handler() {
        return Dispatch::Default;
    }
    if msg == WM_SIZE {
        Dispatch::Resize { width: loword(packed) as u32, height: hiword(packed) as u32 }
    } else {
        Dispatch::Close
    }
}

/// A resize message whose packed parameter holds `width` in its low word and
/// `height` in its high word reaches an available handler as exactly that size.
pub proof fn lemma_resize_decodes_size(s: LoopState, window: u64, width: u16, height: u16, create_context: bool)
    requires
        s.target.windows.contains(window),
        handler_available(s.target),
    ensures
        dispatch_spec(s, window, WM_SIZE, ((height as u32) * 0x10000 + (width as u32)) as u32, create_context).1
            == (Dispatch::Resize { width: width as u32, height: height as u32 }),
{
    let packed: u32 = ((height as u32) * 0x10000 + (width as u32)) as u32;
    assert(packed % 0x10000 == width as u32 && packed / 0x10000 == height as u32) by (nonlinear_arith)
        requires
            packed == (height as u32) * 0x10000 + (width as u32),
            width < 0x10000,
            height < 0x10000,
    ;
}

/// A destroy message reaches the handler as exactly one close call: a destroy
/// delivered again while that call holds the handler falls through to default
/// processing. If the close call sets `Exit`, the loop's next boundary check ends
/// the run without another drain.
pub proof fn lemma_close_then_exit(s: LoopState, window: u64, packed: u32, create_context: bool)
    requires
        loop_wf(s),
        s.phase == Phase::Polling,
        s.target.windows.contains(window),
        handler_available(s.target),
        !s.target.control_flow_held,
    ensures
        ({
            let (t, d) = dispatch_spec(s, window, WM_DESTROY, packed, create_context);
            let u = released(LoopState { target: set_control_flow_spec(t.target, ControlFlow::Exit), ..t });
            &&& d == Dispatch::Close
            &&& dispatch_spec(t, window, WM_DESTROY, packed, create_context) == (t, Dispatch::Default)
            &&& step(u).1 == LoopAction::CallExiting
        }),
{
}

} // verus!
