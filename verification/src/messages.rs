//! Window messages and the message-routing callback.
//!
//! The callback is a stateless free function: given a message code it decides
//! what the window does — draw its greeting, ask the process to quit, or hand
//! the message back to the platform's default handling. Dispatching is
//! modeled over a pending-message queue of plain codes: the one side effect
//! that matters to the loops, posting the quit message, becomes an explicit
//! append to that queue.

use vstd::prelude::*;

verus! {

/// The paint message: the window must redraw its client area.
pub const MSG_PAINT: u32 = 15;

/// The close message: the platform's default handling destroys the window,
/// and the destroy handling below then posts the quit message.
pub const MSG_CLOSE: u32 = 16;

/// The destroy message: the callback answers it by posting the quit message.
pub const MSG_DESTROY: u32 = 2;

/// The quit/terminate message: retrieving it stops a message loop.
pub const MSG_QUIT: u32 = 18;

/// Retrieving this code ends a message loop.
pub open spec fn is_quit(code: u32) -> bool {
    code == MSG_QUIT
}

/// Dispatching this code ends with the quit message posted to the queue:
/// directly for the destroy message, and through default handling (which
/// destroys the window) for the close message.
pub open spec fn posts_quit(code: u32) -> bool {
    code == MSG_DESTROY || code == MSG_CLOSE
}

/// A single-line text draw, centered in the window's client rectangle.
pub struct TextDraw {
    pub text: String,
    pub single_line: bool,
    pub center_horizontal: bool,
    pub center_vertical: bool,
}

/// The one draw the window ever requests: "Hello world", one line, centered
/// both ways in the client rectangle.
pub open spec fn is_hello_draw(t: TextDraw) -> bool {
    &&& t.text@ == "Hello world"@
    &&& t.single_line
    &&& t.center_horizontal
    &&& t.center_vertical
}

/// What the callback asks of the platform for one message.
pub enum WindowAction {
    /// Begin painting, fetch the client rectangle, draw the text centered in
    /// it, then end painting.
    PaintText(TextDraw),
    /// Post the quit message with the given exit code.
    RequestQuit(i32),
    /// Hand the message to the platform's default handler.
    DefaultHandling,
}

/// The callback's whole contract: paint requests the greeting draw, destroy
/// requests quit with exit code zero, everything else defers to the platform.
pub open spec fn routed_action(code: u32, a: WindowAction) -> bool {
    &&& (code == MSG_PAINT ==> (a matches WindowAction::PaintText(t) && is_hello_draw(t)))
    &&& (code == MSG_DESTROY ==> a == WindowAction::RequestQuit(0))
    &&& (code != MSG_PAINT && code != MSG_DESTROY ==> a == WindowAction::DefaultHandling)
}

/// The message-routing callback, as a stateless free function. All mutable
/// state lives in the structures the frame driver carries; the callback only
/// maps a message code to the action taken for it.
pub fn window_proc(code: u32) -> (r: WindowAction)
    ensures
        routed_action(code, r),
{
    if code == MSG_PAINT {
        WindowAction::PaintText(
            TextDraw {
                text: hello_text(),
                single_line: true,
                center_horizontal: true,
                center_vertical: true,
            },
        )
    } else if code == MSG_DESTROY {
        WindowAction::RequestQuit(0)
    } else {
        WindowAction::DefaultHandling
    }
}

/// The fixed greeting the paint handler draws.
fn hello_text() -> (r: String)
    ensures
        r@ == "Hello world"@,
{
    "Hello world".to_owned()
}

/// Translate and dispatch one retrieved message: run the callback and model
/// the platform's reaction. The quit message is appended to the pending
/// queue exactly when the dispatch posts it (destroy directly, close through
/// default handling destroying the window).
pub fn dispatch_message(code: u32, queue: &mut Vec<u32>) -> (r: WindowAction)
    ensures
        routed_action(code, r),
        posts_quit(code) ==> final(queue)@ == old(queue)@.push(MSG_QUIT),
        !posts_quit(code) ==> final(queue)@ == old(queue)@,
{
    let action = window_proc(code);
    if code == MSG_DESTROY || code == MSG_CLOSE {
        queue.push(MSG_QUIT);
    }
    action
}

} // verus!
