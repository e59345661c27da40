//! The counter state machine.
//!
//! The application state is an integer counter together with a flag that says
//! whether the render loop should keep running. Commands move the state
//! forward; stepping past either bound of the counter produces an immediate
//! follow-up `Reset` command, applied within the same tick, so the counter is
//! always back inside its bounds before the next frame is drawn.

use vstd::prelude::*;

verus! {

/// Largest counter value shown to the user; one step past it resets to zero.
pub const COUNTER_MAX: i32 = 50;

/// Smallest counter value shown to the user; one step past it resets to zero.
pub const COUNTER_MIN: i32 = -50;

/// A single discrete user intent, produced by input translation and consumed
/// immediately by the transition function.
#[derive(Clone, Copy, Debug, PartialEq, Eq, Structural)]
pub enum Command {
    Increment,
    Decrement,
    Reset,
    Quit,
}

/// The whole application state: the counter and the run flag.
#[derive(Clone, Copy, Debug, PartialEq, Eq, Structural)]
pub struct Model {
    pub counter: i32,
    pub running: bool,
}

impl Model {
    /// The state invariant: the counter sits inside its bounds at the start
    /// of every render cycle.
    pub open spec fn inv(self) -> bool {
        COUNTER_MIN <= self.counter <= COUNTER_MAX
    }

    /// The initial state: counter at zero, loop running.
    pub fn new() -> (m: Model)
        ensures
            m.counter == 0,
            m.running,
            m.inv(),
    {
        Model { counter: 0, running: true }
    }
}

/// One application of a command: the new state, and the follow-up command if
/// the step pushed the counter out of bounds. Only `Increment` and
/// `Decrement` can produce a follow-up, and that follow-up is always `Reset`.
pub open spec fn transition(m: Model, c: Command) -> (Model, Option<Command>) {
    match c {
        Command::Increment => {
            let stepped = Model { counter: (m.counter + 1) as i32, running: m.running };
            if stepped.counter > COUNTER_MAX {
                (stepped, Some(Command::Reset))
            } else {
                (stepped, None)
            }
        },
        Command::Decrement => {
            let stepped = Model { counter: (m.counter - 1) as i32, running: m.running };
            if stepped.counter < COUNTER_MIN {
                (stepped, Some(Command::Reset))
            } else {
                (stepped, None)
            }
        },
        Command::Reset => (Model { counter: 0, running: m.running }, None),
        Command::Quit => (Model { counter: m.counter, running: false }, None),
    }
}

/// A full tick of the state machine: the command together with its chained
/// follow-up, if any. Since a follow-up is always `Reset` and `Reset` chains
/// nothing further, the chain ends after at most two applications.
pub open spec fn tick(m: Model, c: Command) -> Model {
    let first = transition(m, c);
    match first.1 {
        Some(follow) => transition(first.0, follow).0,
        None => first.0,
    }
}

/// Applies one command to the state and hands back the follow-up command, if
/// the step produced one.
pub fn update(model: &mut Model, cmd: Command) -> (follow: Option<Command>)
    requires
        cmd is Increment ==> old(model).counter < i32::MAX,
        cmd is Decrement ==> old(model).counter > i32::MIN,
    ensures
        *final(model) == transition(*old(model), cmd).0,
        follow == transition(*old(model), cmd).1,
{
    match cmd {
        Command::Increment => {
            model.counter = model.counter + 1;
            if model.counter > COUNTER_MAX {
                return Some(Command::Reset);
            }
        },
        Command::Decrement => {
            model.counter = model.counter - 1;
            if model.counter < COUNTER_MIN {
                return Some(Command::Reset);
            }
        },
        Command::Reset => {
            model.counter = 0;
        },
        Command::Quit => {
            model.running = false;
        },
    }
    None
}

/// Applies a command and then every chained follow-up within the same tick,
/// so the state handed back is the one the next frame should draw. The chain
/// is a loop rather than recursion; it ends after at most two applications
/// because only `Reset` is ever chained and `Reset` chains nothing.
pub fn apply(model: &mut Model, cmd: Command)
    requires
        cmd is Increment ==> old(model).counter < i32::MAX,
        cmd is Decrement ==> old(model).counter > i32::MIN,
    ensures
        *final(model) == tick(*old(model), cmd),
{
    let mut state = *model;
    let mut pending: Option<Command> = Some(cmd);
    while pending.is_some()
        invariant
            pending matches Some(c) ==> {
                &&& tick(state, c) == tick(*old(model), cmd)
                &&& (c is Increment ==> state.counter < i32::MAX)
                &&& (c is Decrement ==> state.counter > i32::MIN)
            },
            pending is None ==> state == tick(*old(model), cmd),
        decreases
            (if pending is Some { if pending->0 is Reset { 1int } else { 2int } } else { 0int }),
    {
        let next = pending.unwrap();
        pending = update(&mut state, next);
    }
    *model = state;
}

/// Every command keeps the state inside its bounds: the follow-up `Reset`
/// corrects the one transient overshoot before the tick ends.
pub proof fn lemma_tick_preserves_inv(m: Model, c: Command)
    requires
        m.inv(),
    ensures
        tick(m, c).inv(),
{
}

/// An `Increment` adds one to the counter, unless that would pass the upper
/// bound, in which case the counter resets to zero within the same tick. The
/// run flag is untouched either way.
pub proof fn lemma_increment(m: Model)
    requires
        m.inv(),
    ensures
        tick(m, Command::Increment).counter == if m.counter + 1 > COUNTER_MAX {
            0int
        } else {
            m.counter + 1
        },
        tick(m, Command::Increment).running == m.running,
{
}

/// A `Decrement` subtracts one from the counter, unless that would pass the
/// lower bound, in which case the counter resets to zero within the same
/// tick. The run flag is untouched either way.
pub proof fn lemma_decrement(m: Model)
    requires
        m.inv(),
    ensures
        tick(m, Command::Decrement).counter == if m.counter - 1 < COUNTER_MIN {
            0int
        } else {
            m.counter - 1
        },
        tick(m, Command::Decrement).running == m.running,
{
}

/// A `Reset` puts the counter at zero whatever it held before, keeps the run
/// flag, and never chains a further follow-up.
pub proof fn lemma_reset(m: Model)
    ensures
        tick(m, Command::Reset).counter == 0,
        tick(m, Command::Reset).running == m.running,
        transition(m, Command::Reset).1 is None,
{
}

/// A `Quit` clears the run flag and leaves the counter exactly as it was.
pub proof fn lemma_quit(m: Model)
    ensures
        tick(m, Command::Quit).running == false,
        tick(m, Command::Quit).counter == m.counter,
{
}

/// Resetting twice in a row is the same as resetting once.
pub proof fn lemma_reset_idempotent(m: Model)
    ensures
        tick(tick(m, Command::Reset), Command::Reset) == tick(m, Command::Reset),
{
}

} // verus!
