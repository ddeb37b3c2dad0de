//! The harvester's motion controller: it takes queued commands one at a
//! time, turns to face each and steps one cell, each action lasting a fixed
//! time, and reports when the last queued step has completed.

use vstd::prelude::*;

use crate::grid::{command_to_direction, interior, step_from, GridPos, HarvestorCommands};

verus! {

/// How long one turn or one step takes, in nanoseconds.
pub const HARVESTOR_MOVEMENT_TIME_NANOS: u64 = 250_000_000;

/// Where a harvester starts a round.
pub const SPAWN_X: i32 = 0;

/// Where a harvester starts a round.
pub const SPAWN_Y: i32 = -1;

/// The phase of a round.
#[derive(Clone, Copy, Debug, PartialEq, Eq, Structural, Hash)]
pub enum HarvestorState {
    /// The player is queueing commands.
    AcceptingCommands,
    /// The queued commands are being carried out.
    Running,
    /// The last command has been taken from the queue.
    Done,
}

/// A one-shot countdown for the action in flight.
#[derive(Clone, Copy, Debug, PartialEq, Eq, Structural)]
pub struct MoveTimer {
    pub elapsed: u64,
    pub duration: u64,
}

/// One harvester: its cell, its facing, and the action in flight, if any.
/// `turning` tells a turn in place from a step.
#[derive(Clone, Copy, Debug, PartialEq, Eq, Structural)]
pub struct Harvestor {
    pub position: GridPos,
    pub direction: HarvestorCommands,
    pub moving: Option<MoveTimer>,
    pub turning: bool,
}

/// The commands queued for a harvester and whether they are to run.
pub struct InputCommands {
    pub commands: Vec<HarvestorCommands>,
    pub clear: bool,
}

/// The action a harvester begins.
#[derive(Clone, Copy, Debug, PartialEq, Eq, Structural)]
pub enum MoveStart {
    /// One cell forward in the given direction.
    Step(HarvestorCommands),
    /// A turn in place to face the given direction.
    Turn(HarvestorCommands),
}

/// What one call of `move_harvestor` did: the action it began, if any, and
/// whether it took the last command from the queue.
#[derive(Clone, Copy, Debug, PartialEq, Eq, Structural)]
pub struct MoveOutcome {
    pub started: Option<MoveStart>,
    pub done: bool,
}

/// A fresh timer for one action.
pub open spec fn fresh_timer() -> MoveTimer {
    MoveTimer { elapsed: 0, duration: HARVESTOR_MOVEMENT_TIME_NANOS }
}

/// The cell one step from `p` towards `c`, as a `GridPos`.
pub open spec fn stepped(p: GridPos, c: HarvestorCommands) -> GridPos {
    GridPos { x: step_from(p, c).0 as i32, y: step_from(p, c).1 as i32 }
}

/// Whether the action in flight, if any, ends within `delta` more time.
pub open spec fn finishes(h: Harvestor, delta: u64) -> bool {
    h.moving is Some && h.moving->0.elapsed + delta >= h.moving->0.duration
}

/// Whether a step (not a turn) ends within `delta` more time.
pub open spec fn step_finishes(h: Harvestor, delta: u64) -> bool {
    finishes(h, delta) && !h.turning
}

/// The harvester after `delta` more time: a finished step moves it one cell
/// in its facing, a finished turn leaves it in place, and either way it is
/// then idle; an unfinished action just counts the time.
pub open spec fn after_watch(h: Harvestor, delta: u64) -> Harvestor {
    match h.moving {
        None => h,
        Some(t) => if t.elapsed + delta >= t.duration {
            Harvestor {
                position: if h.turning { h.position } else { stepped(h.position, h.direction) },
                moving: None,
                turning: false,
                ..h
            }
        } else {
            Harvestor { moving: Some(MoveTimer { elapsed: (t.elapsed + delta) as u64, ..t }), ..h }
        },
    }
}

/// The "commands cleared" signal: a step ends while the round is `Done`.
pub open spec fn clears_commands(h: Harvestor, delta: u64, state: HarvestorState) -> bool {
    step_finishes(h, delta) && state == HarvestorState::Done
}

/// The queue, execute flag and harvester after one attempt to start the
/// next action, with what was begun and whether the queue was drained.
pub struct MoveStep {
    pub queue: Seq<HarvestorCommands>,
    pub clear: bool,
    pub harvestor: Harvestor,
    pub outcome: MoveOutcome,
}

/// Nothing runs unless the execute flag is set; an empty queue only drops
/// the flag; an action in flight is left alone. Otherwise the front command
/// either starts a step (it matches the facing, and leaves the queue) or a
/// turn towards it (it stays queued). Draining the queue drops the flag and
/// ends the round's running phase.
pub open spec fn after_move(q: Seq<HarvestorCommands>, clear: bool, h: Harvestor) -> MoveStep {
    let idle = MoveOutcome { started: None, done: false };
    if !clear {
        MoveStep { queue: q, clear, harvestor: h, outcome: idle }
    } else if q.len() == 0 {
        MoveStep { queue: q, clear: false, harvestor: h, outcome: idle }
    } else if h.moving is Some {
        MoveStep { queue: q, clear, harvestor: h, outcome: idle }
    } else {
        let cmd = q[0];
        let q2 = if h.direction == cmd { q.drop_first() } else { q };
        let h2 = if h.direction == cmd {
            Harvestor { moving: Some(fresh_timer()), ..h }
        } else {
            Harvestor { direction: cmd, turning: true, moving: Some(fresh_timer()), ..h }
        };
        let started = if h.direction == cmd { MoveStart::Step(cmd) } else { MoveStart::Turn(cmd) };
        MoveStep {
            queue: q2,
            clear: q2.len() != 0,
            harvestor: h2,
            outcome: MoveOutcome { started: Some(started), done: q2.len() == 0 },
        }
    }
}

/// A harvester standing idle at `p`, facing left.
pub open spec fn spawned(p: GridPos) -> Harvestor {
    Harvestor { position: p, direction: HarvestorCommands::Left, moving: None, turning: false }
}

impl Harvestor {
    /// At most one action is in flight, its timer has not run out, and only
    /// an action in flight can be a turn.
    pub open spec fn wf(&self) -> bool {
        match self.moving {
            Some(t) => 0 < t.duration && t.elapsed < t.duration,
            None => !self.turning,
        }
    }

    /// A harvester standing idle at `position`, facing left.
    pub fn spawn(position: GridPos) -> (r: Harvestor)
        ensures
            r.wf(),
            r == spawned(position),
    {
        Harvestor { position, direction: HarvestorCommands::Left, moving: None, turning: false }
    }
}

impl Harvestor {
    /// Whether a step (not a turn) ends within `delta` more time.
    pub fn finishes_step(&self, delta: u64) -> (r: bool)
        requires
            self.wf(),
        ensures
            r == step_finishes(*self, delta),
    {
        match self.moving {
            Some(t) => !self.turning && delta >= t.duration - t.elapsed,
            None => false,
        }
    }
}

impl GridPos {
    /// Whether a step in any direction from here stays addressable.
    pub fn is_interior(&self) -> (r: bool)
        ensures
            r == interior(*self),
    {
        i32::MIN < self.x && self.x < i32::MAX && i32::MIN < self.y && self.y < i32::MAX
    }
}

/// The count-up shown while commands are entered, from the milliseconds
/// spent waiting: whole seconds, and hundredths within the second.
pub fn count_down_parts(elapsed_millis: u64) -> (r: (u64, u64))
    ensures
        r.0 == elapsed_millis / 1000,
        r.1 == elapsed_millis % 1000 / 10,
        r.1 < 100,
{
    (elapsed_millis / 1000, elapsed_millis % 1000 / 10)
}

/// Lets `delta` nanoseconds pass for harvester `h`. Returns whether this
/// completed the last step of the round (a step ends while `state` is
/// `Done`), which is the "commands cleared" signal.
pub fn watch_havestor_finished_moves(h: &mut Harvestor, delta: u64, state: HarvestorState) -> (cleared: bool)
    requires
        old(h).wf(),
        step_finishes(*old(h), delta) ==> interior(old(h).position),
    ensures
        final(h).wf(),
        *final(h) == after_watch(*old(h), delta),
        cleared == clears_commands(*old(h), delta, state),
{
    let mut cleared = false;
    if let Some(timer) = h.moving {
        if delta >= timer.duration - timer.elapsed {
            h.moving = None;
            if !h.turning {
                let a = command_to_direction(&h.direction);
                h.position.x = h.position.x - a.0;
                h.position.y = h.position.y + a.2;
                if state == HarvestorState::Done {
                    cleared = true;
                }
            }
            h.turning = false;
        } else {
            h.moving = Some(MoveTimer { elapsed: timer.elapsed + delta, duration: timer.duration });
        }
    }
    cleared
}

/// Starts the next action of `h` from the queue in `input`, if the queue is
/// to run and nothing is in flight; see `after_move`.
pub fn move_harvestor(input: &mut InputCommands, h: &mut Harvestor) -> (r: MoveOutcome)
    requires
        old(h).wf(),
    ensures
        final(h).wf(),
        final(input).commands@ == after_move(old(input).commands@, old(input).clear, *old(h)).queue,
        final(input).clear == after_move(old(input).commands@, old(input).clear, *old(h)).clear,
        *final(h) == after_move(old(input).commands@, old(input).clear, *old(h)).harvestor,
        r == after_move(old(input).commands@, old(input).clear, *old(h)).outcome,
{
    let idle = MoveOutcome { started: None, done: false };
    if !input.clear {
        return idle;
    }
    if input.commands.len() == 0 {
        input.clear = false;
        return idle;
    }
    if h.moving.is_some() {
        return idle;
    }
    let cmd = input.commands[0];
    let started;
    if h.direction == cmd {
        input.commands.remove(0);
        started = MoveStart::Step(cmd);
    } else {
        h.direction = cmd;
        h.turning = true;
        started = MoveStart::Turn(cmd);
    }
    h.moving = Some(MoveTimer { elapsed: 0, duration: HARVESTOR_MOVEMENT_TIME_NANOS });
    let done = input.commands.len() == 0;
    if done {
        input.clear = false;
    }
    MoveOutcome { started: Some(started), done }
}

} // verus!
