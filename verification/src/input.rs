//! Translation of keyboard input into counter commands, and the per-tick step
//! that the render loop takes.
//!
//! The render loop itself lives in the binary, since drawing and polling are
//! terminal work; each tick it hands whatever event it observed to
//! [`loop_step`], which makes every decision: translating the key, applying
//! the command, and chaining the follow-up.

use vstd::prelude::*;

use crate::counter::Command;
use crate::counter::Model;
use crate::counter::apply;
use crate::counter::tick;

verus! {

/// One keyboard event, reduced to what the translation reads: the character
/// on the key and whether the event is a press (as opposed to a release or a
/// repeat).
#[derive(Clone, Copy, Debug, PartialEq, Eq, Structural)]
pub struct KeyEvent {
    pub ch: char,
    pub pressed: bool,
}

/// The key map: 'j' increments, 'k' decrements, 'q' quits; every other key
/// means nothing.
pub open spec fn key_command(key: char) -> Option<Command> {
    if key == 'j' {
        Some(Command::Increment)
    } else if key == 'k' {
        Some(Command::Decrement)
    } else if key == 'q' {
        Some(Command::Quit)
    } else {
        None
    }
}

/// What a whole event translates to: only presses count, and a press
/// translates through the key map.
pub open spec fn event_command(e: KeyEvent) -> Option<Command> {
    if e.pressed {
        key_command(e.ch)
    } else {
        None
    }
}

/// The state a tick ends in, given the event it observed: nothing happens
/// without an event or on an unmapped key; otherwise the translated command
/// is applied together with its follow-up.
pub open spec fn tick_event(m: Model, e: Option<KeyEvent>) -> Model {
    match e {
        Some(ev) => match event_command(ev) {
            Some(c) => tick(m, c),
            None => m,
        },
        None => m,
    }
}

/// Maps a single key character to at most one command.
pub fn handle_key(key: char) -> (cmd: Option<Command>)
    ensures
        cmd == key_command(key),
{
    match key {
        'j' => Some(Command::Increment),
        'k' => Some(Command::Decrement),
        'q' => Some(Command::Quit),
        _ => None,
    }
}

/// Maps a keyboard event to at most one command: releases and repeats are
/// ignored, presses go through the key map.
pub fn handle_event(e: KeyEvent) -> (cmd: Option<Command>)
    ensures
        cmd == event_command(e),
{
    if e.pressed {
        handle_key(e.ch)
    } else {
        None
    }
}

/// One tick of the render loop, after the frame was drawn and input was
/// polled: translates the observed event, if any, and applies the resulting
/// command with its chained follow-up. Keeps the state inside its bounds.
pub fn loop_step(model: &mut Model, event: Option<KeyEvent>)
    requires
        old(model).inv(),
    ensures
        *final(model) == tick_event(*old(model), event),
        final(model).inv(),
{
    if let Some(ev) = event {
        if let Some(cmd) = handle_event(ev) {
            apply(model, cmd);
        }
    }
}

/// Pressing 'q' quits from every state: the translated command is `Quit`,
/// and the tick it drives ends with the run flag cleared and the counter
/// untouched.
pub proof fn lemma_quit_key(m: Model)
    ensures
        key_command('q') == Some(Command::Quit),
        tick_event(m, Some(KeyEvent { ch: 'q', pressed: true })).running == false,
        tick_event(m, Some(KeyEvent { ch: 'q', pressed: true })).counter == m.counter,
{
}

/// A press of any unmapped key translates to no command and leaves the state
/// exactly as it was, with no follow-up to apply.
pub proof fn lemma_unmapped_key(m: Model, key: char)
    requires
        key != 'j',
        key != 'k',
        key != 'q',
    ensures
        key_command(key) is None,
        tick_event(m, Some(KeyEvent { ch: key, pressed: true })) == m,
{
}

/// A release or repeat event changes nothing, whatever key it carries.
pub proof fn lemma_non_press_ignored(m: Model, key: char)
    ensures
        event_command(KeyEvent { ch: key, pressed: false }) is None,
        tick_event(m, Some(KeyEvent { ch: key, pressed: false })) == m,
{
}

} // verus!
