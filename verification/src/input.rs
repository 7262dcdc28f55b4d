//! Modifier-key tracking: two "command" keys whose held state is maintained
//! from a stream of keyboard events.

use vstd::prelude::*;

verus! {

/// The keys the demo reacts to. `Other` stands for every key it ignores.
#[derive(Copy, Clone, PartialEq, Eq, Structural)]
pub enum Key {
    LCommand,
    RCommand,
    Quit,
    SyncShot,
    AsyncShot,
    Other,
}

/// Whether a key went down or came up.
#[derive(Copy, Clone, PartialEq, Eq, Structural)]
pub enum KeyState {
    Pressed,
    Released,
}

/// A window event, reduced to what the demo's logic reads.
#[derive(Copy, Clone, PartialEq, Eq, Structural)]
pub enum WindowEvent {
    Keyboard { state: KeyState, key: Key },
    Closed,
    Other,
}

/// Held state of the two command-modifier keys.
#[derive(Copy, Clone, PartialEq, Eq, Structural)]
pub struct Input {
    pub lcommand: bool,
    pub rcommand: bool,
}

/// What one event does to the modifier state: a press of a command key sets
/// its flag, a release clears it, and every other event changes nothing.
pub open spec fn update_spec(i: Input, event: WindowEvent) -> Input {
    match event {
        WindowEvent::Keyboard { state: KeyState::Pressed, key: Key::LCommand } => Input {
            lcommand: true,
            ..i
        },
        WindowEvent::Keyboard { state: KeyState::Released, key: Key::LCommand } => Input {
            lcommand: false,
            ..i
        },
        WindowEvent::Keyboard { state: KeyState::Pressed, key: Key::RCommand } => Input {
            rcommand: true,
            ..i
        },
        WindowEvent::Keyboard { state: KeyState::Released, key: Key::RCommand } => Input {
            rcommand: false,
            ..i
        },
        _ => i,
    }
}

/// The combined held state `command` reports: either command key down.
pub open spec fn held_spec(i: Input) -> bool {
    i.lcommand || i.rcommand
}

impl Input {
    /// A tracker with neither command key held.
    pub fn new() -> (r: Self)
        ensures
            !r.lcommand,
            !r.rcommand,
    {
        Input { lcommand: false, rcommand: false }
    }

    /// Apply one event to the modifier state.
    pub fn update(&mut self, event: &WindowEvent)
        ensures
            *final(self) == update_spec(*old(self), *event),
    {
        match *event {
            WindowEvent::Keyboard { state: KeyState::Pressed, key: Key::LCommand } => {
                self.lcommand = true;
            },
            WindowEvent::Keyboard { state: KeyState::Released, key: Key::LCommand } => {
                self.lcommand = false;
            },
            WindowEvent::Keyboard { state: KeyState::Pressed, key: Key::RCommand } => {
                self.rcommand = true;
            },
            WindowEvent::Keyboard { state: KeyState::Released, key: Key::RCommand } => {
                self.rcommand = false;
            },
            _ => {},
        }
    }

    /// Whether either command key is currently held.
    pub fn command(&self) -> (r: bool)
        ensures
            r == held_spec(*self),
    {
        self.lcommand || self.rcommand
    }
}

/// Releases settle the combined held state: pressing the left command key and
/// then releasing it leaves nothing held unless the right key already was;
/// releasing only one of two held keys keeps the state held; releasing both
/// keys always clears it.
pub proof fn lemma_release_clears(i: Input)
    ensures
        ({
            let press_l = WindowEvent::Keyboard { state: KeyState::Pressed, key: Key::LCommand };
            let release_l = WindowEvent::Keyboard {
                state: KeyState::Released,
                key: Key::LCommand,
            };
            let release_r = WindowEvent::Keyboard {
                state: KeyState::Released,
                key: Key::RCommand,
            };
            &&& !i.rcommand ==> !held_spec(update_spec(update_spec(i, press_l), release_l))
            &&& i.lcommand && i.rcommand ==> held_spec(update_spec(i, release_l)) && held_spec(
                update_spec(i, release_r),
            )
            &&& !held_spec(update_spec(update_spec(i, release_l), release_r))
        }),
{
}

} // verus!
