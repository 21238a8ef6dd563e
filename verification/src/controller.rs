//! Controller: the per-tick "what does the player want" record. It owns an
//! input snapshot, the key-binding table, the walk-rate scalar and the
//! delta time of the last tick, and folds window events into them.

use vstd::prelude::*;

use crate::input::{Command, Input};
use crate::input::input_idle;
use crate::input::with_command;

verus! {

/// Keyboard code of the W key in the binding table.
pub const KEY_W: u32 = 119;

/// Keyboard code of the A key in the binding table.
pub const KEY_A: u32 = 97;

/// Keyboard code of the S key in the binding table.
pub const KEY_S: u32 = 115;

/// Keyboard code of the D key in the binding table.
pub const KEY_D: u32 = 100;

/// Keyboard code of the K key in the binding table.
pub const KEY_K: u32 = 107;

/// Keyboard code of the space bar in the binding table.
pub const KEY_SPACE: u32 = 32;

/// Keyboard code of the escape key in the binding table.
pub const KEY_ESCAPE: u32 = 27;

/// One window event, reduced to what the controller decides on: an update
/// with the delta time of the tick, or a key press or release. The window
/// layer translates its own event type into this one.
#[derive(Clone, Copy, Debug, PartialEq, Eq, Structural)]
pub enum ControlEvent {
    /// A timing update; `dt_ms` is the time since the last tick in
    /// milliseconds.
    Update { dt_ms: u32 },
    /// A physical key was pressed; `key` is its keyboard code.
    Press { key: u32 },
    /// A physical key was released; `key` is its keyboard code.
    Release { key: u32 },
    /// Any other window event: the controller is unchanged, but the tick
    /// still advances game time and drives the actor.
    Other,
}

/// The command the binding table `bindings` maps `key` to: the first pair
/// with that key, if any. Keys may be bound many-to-one; unbound keys are
/// ignored.
pub open spec fn binding_of(bindings: Seq<(u32, Command)>, key: u32) -> Option<Command>
    decreases bindings.len(),
{
    if bindings.len() == 0 {
        None
    } else if bindings[0].0 == key {
        Some(bindings[0].1)
    } else {
        binding_of(bindings.skip(1), key)
    }
}

/// The input snapshot after a press (`set == true`) or release
/// (`set == false`) of `key` under the table `bindings`: unchanged when the
/// key is unbound, otherwise the bound command's field is set.
pub open spec fn input_after_key(
    bindings: Seq<(u32, Command)>,
    input: Input,
    key: u32,
    set: bool,
) -> Input {
    match binding_of(bindings, key) {
        Some(cmd) => with_command(input, cmd, set),
        None => input,
    }
}

/// The input snapshot and delta time after one window event is folded into a
/// controller with binding table `bindings`, input `input` and delta time
/// `dt_ms`: an update replaces the delta time, a press or release of a bound
/// key sets or clears that command, and an unbound key changes nothing.
pub open spec fn event_result(
    bindings: Seq<(u32, Command)>,
    input: Input,
    dt_ms: u32,
    event: ControlEvent,
) -> (Input, u32) {
    match event {
        ControlEvent::Update { dt_ms: d } => (input, d),
        ControlEvent::Press { key } => (input_after_key(bindings, input, key, true), dt_ms),
        ControlEvent::Release { key } => (input_after_key(bindings, input, key, false), dt_ms),
        ControlEvent::Other => (input, dt_ms),
    }
}

/// The default binding table: W and A walk up, S walks down, D walks right,
/// space attacks, K defends, escape opens the menu.
pub open spec fn spec_default_keybindings() -> Seq<(u32, Command)> {
    seq![
        (KEY_W, Command::Up),
        (KEY_A, Command::Up),
        (KEY_S, Command::Down),
        (KEY_D, Command::Right),
        (KEY_SPACE, Command::Attack),
        (KEY_K, Command::Defend),
        (KEY_ESCAPE, Command::Menu),
    ]
}

fn default_keybindings() -> (r: Vec<(u32, Command)>)
    ensures
        r@ == spec_default_keybindings(),
{
    let mut table: Vec<(u32, Command)> = Vec::new();
    table.push((KEY_W, Command::Up));
    table.push((KEY_A, Command::Up));
    table.push((KEY_S, Command::Down));
    table.push((KEY_D, Command::Right));
    table.push((KEY_SPACE, Command::Attack));
    table.push((KEY_K, Command::Defend));
    table.push((KEY_ESCAPE, Command::Menu));
    proof {
        assert(table@ =~= spec_default_keybindings());
    }
    table
}

pub struct Controller {
    /// Controller input, e.g. walking direction.
    pub input: Input,
    /// Bindings between keyboard codes and input commands.
    pub keybinding: Vec<(u32, Command)>,
    /// Walk-rate multiplier in pixels per second. Normal is 90.
    pub walk_rate: u32,
    /// Time since the last game cycle, in milliseconds.
    pub dt_ms: u32,
}

impl Controller {
    pub fn new() -> (r: Self)
        ensures
            r.input == input_idle(),
            r.keybinding@ == spec_default_keybindings(),
            r.walk_rate == 90u32,
            r.dt_ms == 0u32,
    {
        Controller {
            input: Input::new(),
            keybinding: default_keybindings(),
            walk_rate: 90,
            dt_ms: 0,
        }
    }

    /// Looks `key` up in the binding table: the command of the first pair
    /// with that key, or `None` when the key is unbound.
    fn lookup_binding(&self, key: u32) -> (r: Option<Command>)
        ensures
            r == binding_of(self.keybinding@, key),
    {
        let mut i: usize = 0;
        proof {
            assert(self.keybinding@.skip(0) =~= self.keybinding@);
        }
        while i < self.keybinding.len()
            invariant
                i <= self.keybinding@.len(),
                binding_of(self.keybinding@, key) == binding_of(self.keybinding@.skip(i as int), key),
            decreases self.keybinding@.len() - i,
        {
            let (k, cmd) = self.keybinding[i];
            if k == key {
                assert(self.keybinding@.skip(i as int)[0] == self.keybinding@[i as int]);
                return Some(cmd);
            }
            proof {
                assert(self.keybinding@.skip(i as int).skip(1) =~= self.keybinding@.skip(
                    i as int + 1,
                ));
            }
            i = i + 1;
        }
        proof {
            assert(self.keybinding@.skip(i as int).len() == 0);
        }
        None
    }

    /// Folds one window event into the controller: an update stores the new
    /// delta time, a press or release of a bound key sets or clears that
    /// command, and anything else leaves the controller unchanged.
    pub fn process_event(&mut self, event: &ControlEvent)
        ensures
            final(self).keybinding@ == old(self).keybinding@,
            final(self).walk_rate == old(self).walk_rate,
            (final(self).input, final(self).dt_ms) == event_result(
                old(self).keybinding@,
                old(self).input,
                old(self).dt_ms,
                *event,
            ),
    {
        match *event {
            ControlEvent::Update { dt_ms } => {
                self.dt_ms = dt_ms;
            },
            ControlEvent::Press { key } => {
                if let Some(cmd) = self.lookup_binding(key) {
                    // A key that maps to an input command was pressed.
                    self.input.set_command(&cmd, true);
                }
            },
            ControlEvent::Release { key } => {
                if let Some(cmd) = self.lookup_binding(key) {
                    // A key that maps to an input command was released.
                    self.input.set_command(&cmd, false);
                }
            },
            ControlEvent::Other => {},
        }
    }
}

} // verus!
