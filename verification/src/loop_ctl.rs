//! The main loop's per-tick decisions: what a window event means given the
//! current modifier state, and the frame-counter bookkeeping.

use vstd::prelude::*;
use crate::input::{Input, Key, KeyState, WindowEvent, update_spec};

verus! {

/// What the loop does in response to one event.
#[derive(Copy, Clone, Debug, PartialEq, Eq, Structural)]
pub enum LoopAction {
    /// Leave the loop (window closed, or quit key with a command key held).
    Exit,
    /// Take a screenshot immediately, on the calling thread.
    CaptureSync,
    /// Issue a deferred GPU capture and enqueue its pickup.
    CaptureAsync,
    /// Nothing to do for this event.
    Continue,
}

/// The action an event calls for, judged against the modifier state that
/// already reflects the event itself: closing the window always exits, the
/// quit key exits only while a command key is held, and the two capture keys
/// request their captures.
pub open spec fn action_spec(i: Input, event: WindowEvent) -> LoopAction {
    match event {
        WindowEvent::Closed => LoopAction::Exit,
        WindowEvent::Keyboard { state: KeyState::Pressed, key: Key::Quit } => if i.lcommand
            || i.rcommand {
            LoopAction::Exit
        } else {
            LoopAction::Continue
        },
        WindowEvent::Keyboard { state: KeyState::Pressed, key: Key::SyncShot } => {
            LoopAction::CaptureSync
        },
        WindowEvent::Keyboard { state: KeyState::Pressed, key: Key::AsyncShot } => {
            LoopAction::CaptureAsync
        },
        _ => LoopAction::Continue,
    }
}

/// Feed one event to the modifier tracker, then decide the loop's response
/// to it, exactly as one iteration of the event-drain does.
pub fn handle_event(input: &mut Input, event: &WindowEvent) -> (r: LoopAction)
    ensures
        *final(input) == update_spec(*old(input), *event),
        r == action_spec(update_spec(*old(input), *event), *event),
{
    input.update(event);
    match *event {
        WindowEvent::Closed => LoopAction::Exit,
        WindowEvent::Keyboard { state: KeyState::Pressed, key: Key::Quit } => {
            if input.command() {
                LoopAction::Exit
            } else {
                LoopAction::Continue
            }
        },
        WindowEvent::Keyboard { state: KeyState::Pressed, key: Key::SyncShot } => {
            LoopAction::CaptureSync
        },
        WindowEvent::Keyboard { state: KeyState::Pressed, key: Key::AsyncShot } => {
            LoopAction::CaptureAsync
        },
        _ => LoopAction::Continue,
    }
}

/// Advance the frame counter at the end of a tick.
pub fn next_frame(frame: u64) -> (r: u64)
    requires
        frame < u64::MAX,
    ensures
        r == frame + 1,
{
    frame + 1
}

/// Pressing the quit key while no command key is held leaves the loop
/// running; pressing it while the left command key is held exits. Stated over
/// one full event-handling step: the modifier update followed by the
/// decision.
pub proof fn lemma_quit_needs_modifier(i: Input)
    ensures
        ({
            let press_quit = WindowEvent::Keyboard { state: KeyState::Pressed, key: Key::Quit };
            let after = update_spec(i, press_quit);
            &&& (!i.lcommand && !i.rcommand) ==> action_spec(after, press_quit)
                == LoopAction::Continue
            &&& i.lcommand ==> action_spec(after, press_quit) == LoopAction::Exit
        }),
{
}

} // verus!
