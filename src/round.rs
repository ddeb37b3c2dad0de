//! One round of play: the harvester, its command queue, the round's phase
//! and the two fields, advanced tick by tick in a fixed order.

use vstd::prelude::*;

use crate::field::{
    compare_fields, mow_target_field, verdict, Field, FieldType, MowResult, MowedCells,
};
use crate::grid::{interior, GridPos, HarvestorCommands};
use crate::harvestor::{
    after_move, after_watch, finishes, spawned, stepped, clears_commands, move_harvestor, step_finishes,
    watch_havestor_finished_moves, Harvestor, HarvestorState, InputCommands, MoveStart,
    HARVESTOR_MOVEMENT_TIME_NANOS, SPAWN_X, SPAWN_Y,
};

verus! {

/// The part of a round that the motion controller reads and writes.
pub struct MotionView {
    pub harvestor: Harvestor,
    pub queue: Seq<HarvestorCommands>,
    pub clear: bool,
    pub state: HarvestorState,
}

/// One tick of the motion controller: timers advance first, then the next
/// action may start; draining the queue makes the round `Done`.
pub open spec fn motion_tick(m: MotionView, delta: u64) -> MotionView {
    let mv = after_move(m.queue, m.clear, after_watch(m.harvestor, delta));
    MotionView {
        harvestor: mv.harvestor,
        queue: mv.queue,
        clear: mv.clear,
        state: if mv.outcome.done { HarvestorState::Done } else { m.state },
    }
}

/// What happened over a sequence of ticks: where it ended, how many steps
/// completed and how many "commands cleared" signals were raised.
pub struct MotionRun {
    pub end: MotionView,
    pub steps: nat,
    pub clears: nat,
    /// Turns completed.
    pub turns: nat,
    /// The destination of each completed step, in order: the cells a
    /// round mows on its canvas.
    pub mowed: Seq<GridPos>,
}

/// The motion controller run through one tick per entry of `ds`, each entry
/// being the time that tick lets pass.
pub open spec fn run(m: MotionView, ds: Seq<u64>) -> MotionRun
    decreases ds.len(),
{
    if ds.len() == 0 {
        MotionRun { end: m, steps: 0, clears: 0, turns: 0, mowed: Seq::empty() }
    } else {
        let rest = run(motion_tick(m, ds[0]), ds.drop_first());
        MotionRun {
            end: rest.end,
            steps: rest.steps + if step_finishes(m.harvestor, ds[0]) { 1nat } else { 0nat },
            clears: rest.clears + if clears_commands(m.harvestor, ds[0], m.state) {
                1nat
            } else {
                0nat
            },
            turns: rest.turns + if finishes(m.harvestor, ds[0]) && m.harvestor.turning {
                1nat
            } else {
                0nat
            },
            mowed: if step_finishes(m.harvestor, ds[0]) {
                seq![stepped(m.harvestor.position, m.harvestor.direction)] + rest.mowed
            } else {
                rest.mowed
            },
        }
    }
}

/// What a tick reports: the action begun, and the verdict once the last
/// queued step has completed.
#[derive(Clone, Copy, Debug, PartialEq, Eq, Structural)]
pub struct TickOutcome {
    pub started: Option<MoveStart>,
    pub verdict: Option<MowResult>,
}

/// A round: one harvester with its queue, the round's phase, the target
/// pattern and the canvas the harvester mows.
pub struct Round {
    pub harvestor: Harvestor,
    pub input: InputCommands,
    pub state: HarvestorState,
    pub target: Field,
    pub canvas: Field,
}

impl Round {
    /// The harvester is consistent, the target can be compared, and the
    /// canvas is a canvas of the target's size.
    pub open spec fn wf(&self) -> bool {
        &&& self.harvestor.wf()
        &&& self.target.wf()
        &&& self.canvas.field_type == FieldType::Canvas
        &&& self.canvas.size_x == self.target.size_x
        &&& self.canvas.size_y == self.target.size_y
    }

    pub open spec fn motion(&self) -> MotionView {
        MotionView {
            harvestor: self.harvestor,
            queue: self.input.commands@,
            clear: self.input.clear,
            state: self.state,
        }
    }

    /// A round that accepts commands, with the harvester idle at its spawn
    /// cell facing left and a blank canvas of the target's size.
    pub fn new(target: Field) -> (r: Round)
        requires
            target.wf(),
        ensures
            r.wf(),
            r.state == HarvestorState::AcceptingCommands,
            r.harvestor == spawned(GridPos { x: SPAWN_X, y: SPAWN_Y }),
            r.input.commands@.len() == 0,
            !r.input.clear,
            r.target == target,
            r.canvas.mowed@ == MowedCells::empty(),
    {
        let canvas = Field::new(target.size_x, target.size_y, FieldType::Canvas);
        Round {
            harvestor: Harvestor::spawn(GridPos::new(SPAWN_X, SPAWN_Y)),
            input: InputCommands { commands: Vec::new(), clear: false },
            state: HarvestorState::AcceptingCommands,
            target,
            canvas,
        }
    }

    /// Queues `cmd` while the round accepts commands; otherwise nothing
    /// changes. `Some(first)` tells that it was queued, and whether it is
    /// the first command of the queue.
    pub fn push_command(&mut self, cmd: HarvestorCommands) -> (r: Option<bool>)
        ensures
            final(self).harvestor == old(self).harvestor,
            final(self).state == old(self).state,
            final(self).input.clear == old(self).input.clear,
            final(self).target == old(self).target,
            final(self).canvas == old(self).canvas,
            old(self).state == HarvestorState::AcceptingCommands ==> {
                &&& final(self).input.commands@ == old(self).input.commands@.push(cmd)
                &&& r == Some(old(self).input.commands@.len() == 0)
            },
            old(self).state != HarvestorState::AcceptingCommands ==> {
                &&& final(self).input.commands@ == old(self).input.commands@
                &&& r is None
            },
    {
        if self.state != HarvestorState::AcceptingCommands {
            return None;
        }
        let first = self.input.commands.len() == 0;
        self.input.commands.push(cmd);
        Some(first)
    }

    /// Ends command entry: sets the execute flag and starts the running
    /// phase. Returns whether it did, which needs the round to be accepting
    /// commands and at least one command queued; otherwise nothing changes,
    /// so finalizing an empty queue is absorbed and entry goes on.
    pub fn finalize(&mut self) -> (r: bool)
        ensures
            r == (old(self).state == HarvestorState::AcceptingCommands
                && old(self).input.commands@.len() > 0),
            final(self).harvestor == old(self).harvestor,
            final(self).input.commands@ == old(self).input.commands@,
            final(self).target == old(self).target,
            final(self).canvas == old(self).canvas,
            r ==> final(self).input.clear && final(self).state == HarvestorState::Running,
            !r ==> final(self).input.clear == old(self).input.clear && final(self).state
                == old(self).state,
    {
        if self.state != HarvestorState::AcceptingCommands || self.input.commands.len() == 0 {
            return false;
        }
        self.input.clear = true;
        self.state = HarvestorState::Running;
        true
    }

    /// Starts a new round once the last one is `Done`: the harvester is back
    /// at its spawn cell, the queue is empty and the canvas blank; the
    /// target stays. Returns whether it did; if not, nothing changes.
    pub fn restart(&mut self) -> (r: bool)
        requires
            old(self).wf(),
        ensures
            final(self).wf(),
            r == (old(self).state == HarvestorState::Done),
            final(self).target == old(self).target,
            r ==> {
                &&& final(self).state == HarvestorState::AcceptingCommands
                &&& final(self).harvestor == spawned(GridPos { x: SPAWN_X, y: SPAWN_Y })
                &&& final(self).input.commands@.len() == 0
                &&& !final(self).input.clear
                &&& final(self).canvas.mowed@ == MowedCells::empty()
                &&& final(self).canvas.size_x == old(self).canvas.size_x
                &&& final(self).canvas.size_y == old(self).canvas.size_y
                &&& final(self).canvas.field_type == old(self).canvas.field_type
            },
            !r ==> final(self).motion() == old(self).motion() && final(self).canvas == old(
                self,
            ).canvas,
    {
        if self.state != HarvestorState::Done {
            return false;
        }
        self.harvestor = Harvestor::spawn(GridPos::new(SPAWN_X, SPAWN_Y));
        self.input.commands.clear();
        self.input.clear = false;
        self.canvas.clear_mowed();
        self.state = HarvestorState::AcceptingCommands;
        true
    }

    /// One tick in which `delta` nanoseconds pass: the action in flight
    /// advances, a step that completes mows its destination on the canvas,
    /// the next action may start, and if the last queued step completed the
    /// canvas is judged against the target.
    pub fn tick(&mut self, delta: u64) -> (r: TickOutcome)
        requires
            old(self).wf(),
            step_finishes(old(self).harvestor, delta) ==> interior(old(self).harvestor.position),
        ensures
            final(self).wf(),
            final(self).motion() == motion_tick(old(self).motion(), delta),
            final(self).target == old(self).target,
            final(self).canvas.size_x == old(self).canvas.size_x,
            final(self).canvas.size_y == old(self).canvas.size_y,
            final(self).canvas.field_type == old(self).canvas.field_type,
            final(self).canvas.mowed@ == (if step_finishes(old(self).harvestor, delta) {
                old(self).canvas.mowed@.insert(
                    (
                        stepped(old(self).harvestor.position, old(self).harvestor.direction).x,
                        stepped(old(self).harvestor.position, old(self).harvestor.direction).y,
                    ),
                    true,
                )
            } else {
                old(self).canvas.mowed@
            }),
            r.started == after_move(
                old(self).input.commands@,
                old(self).input.clear,
                after_watch(old(self).harvestor, delta),
            ).outcome.started,
            r.verdict == (if clears_commands(old(self).harvestor, delta, old(self).state) {
                Some(
                    verdict(
                        final(self).target.size_x,
                        final(self).target.size_y,
                        final(self).target.mowed@,
                        final(self).canvas.mowed@,
                    ),
                )
            } else {
                None
            }),
    {
        let stepping = self.harvestor.finishes_step(delta);
        let cleared = watch_havestor_finished_moves(&mut self.harvestor, delta, self.state);
        if stepping {
            mow_target_field(&self.harvestor, &mut self.canvas);
        }
        let moved = move_harvestor(&mut self.input, &mut self.harvestor);
        if moved.done {
            self.state = HarvestorState::Done;
        }
        let verdict = if cleared {
            Some(compare_fields(&self.target, &self.canvas))
        } else {
            None
        };
        TickOutcome { started: moved.started, verdict }
    }
}

/// Whether a step (not a turn) is in flight.
pub open spec fn step_in_flight(h: Harvestor) -> bool {
    h.moving is Some && !h.turning
}

/// The state right after the player queued commands and finalized: the
/// harvester idle, at least one command queued, the execute flag set.
pub open spec fn freshly_started(m: MotionView) -> bool {
    &&& m.harvestor.wf()
    &&& m.harvestor.moving is None
    &&& m.queue.len() >= 1
    &&& m.clear
    &&& m.state == HarvestorState::Running
}

/// The bookkeeping of a round that started with `n` queued commands, once
/// `steps` steps have completed and `clears` signals have been raised:
/// every command is either completed, in flight or still queued, and the
/// signal is raised exactly when the last step completes.
pub open spec fn round_progress(m: MotionView, n: nat, steps: nat, clears: nat) -> bool {
    let h = m.harvestor;
    &&& h.wf()
    &&& (h.moving is Some ==> h.moving->0.duration == HARVESTOR_MOVEMENT_TIME_NANOS)
    &&& match m.state {
        HarvestorState::Running => {
            &&& m.clear
            &&& m.queue.len() >= 1
            &&& clears == 0
            &&& steps + m.queue.len() + (if step_in_flight(h) { 1nat } else { 0nat }) == n
            &&& (h.turning ==> h.direction == m.queue[0])
        },
        HarvestorState::Done => {
            &&& m.queue.len() == 0
            &&& !m.clear
            &&& !h.turning
            &&& if h.moving is Some {
                clears == 0 && steps + 1 == n
            } else {
                clears == 1 && steps == n
            }
        },
        HarvestorState::AcceptingCommands => false,
    }
}

/// An upper bound on the ticks still needed when every tick lets a full
/// action time pass.
pub open spec fn ticks_left(m: MotionView) -> nat {
    match m.state {
        HarvestorState::Running => if m.harvestor.turning {
            2 * m.queue.len()
        } else {
            2 * m.queue.len() + 1
        },
        HarvestorState::Done => if m.harvestor.moving is Some {
            1
        } else {
            0
        },
        HarvestorState::AcceptingCommands => 0,
    }
}

/// The time that a sequence of ticks lets pass.
pub open spec fn total(ds: Seq<u64>) -> nat
    decreases ds.len(),
{
    if ds.len() == 0 {
        0
    } else {
        (ds[0] + total(ds.drop_first())) as nat
    }
}

proof fn lemma_tick_progress(m: MotionView, delta: u64, n: nat, steps: nat, clears: nat)
    requires
        round_progress(m, n, steps, clears),
    ensures
        round_progress(
            motion_tick(m, delta),
            n,
            steps + if step_finishes(m.harvestor, delta) { 1nat } else { 0nat },
            clears + if clears_commands(m.harvestor, delta, m.state) { 1nat } else { 0nat },
        ),
        delta >= HARVESTOR_MOVEMENT_TIME_NANOS ==> ticks_left(motion_tick(m, delta)) + 1
            <= ticks_left(m) || ticks_left(m) == 0,
        ticks_left(m) == 0 ==> ticks_left(motion_tick(m, delta)) == 0,
{
}

proof fn lemma_run_progress(m: MotionView, ds: Seq<u64>, n: nat, steps: nat, clears: nat)
    requires
        round_progress(m, n, steps, clears),
    ensures
        round_progress(run(m, ds).end, n, steps + run(m, ds).steps, clears + run(m, ds).clears),
    decreases ds.len(),
{
    if ds.len() > 0 {
        lemma_tick_progress(m, ds[0], n, steps, clears);
        lemma_run_progress(
            motion_tick(m, ds[0]),
            ds.drop_first(),
            n,
            steps + if step_finishes(m.harvestor, ds[0]) { 1nat } else { 0nat },
            clears + if clears_commands(m.harvestor, ds[0], m.state) { 1nat } else { 0nat },
        );
    }
}

proof fn lemma_run_finishes(m: MotionView, ds: Seq<u64>, n: nat, steps: nat, clears: nat)
    requires
        round_progress(m, n, steps, clears),
        ds.len() >= ticks_left(m),
        forall|i: int| 0 <= i < ds.len() ==> #[trigger] ds[i] >= HARVESTOR_MOVEMENT_TIME_NANOS,
    ensures
        clears + run(m, ds).clears == 1,
        steps + run(m, ds).steps == n,
    decreases ds.len(),
{
    if ds.len() > 0 {
        lemma_tick_progress(m, ds[0], n, steps, clears);
        let rest = ds.drop_first();
        assert forall|i: int| 0 <= i < rest.len() implies #[trigger] rest[i]
            >= HARVESTOR_MOVEMENT_TIME_NANOS by {
            assert(rest[i] == ds[i + 1]);
        }
        lemma_run_finishes(
            motion_tick(m, ds[0]),
            rest,
            n,
            steps + if step_finishes(m.harvestor, ds[0]) { 1nat } else { 0nat },
            clears + if clears_commands(m.harvestor, ds[0], m.state) { 1nat } else { 0nat },
        );
    }
}

/// Once `n` commands are queued and finalized, whatever time the ticks let
/// pass: the "commands cleared" signal is raised at most once, no more than
/// `n` steps complete, and when the signal has been raised exactly `n` steps
/// have completed.
pub proof fn lemma_commands_cleared_once(m: MotionView, ds: Seq<u64>)
    requires
        freshly_started(m),
    ensures
        run(m, ds).clears <= 1,
        run(m, ds).steps <= m.queue.len(),
        run(m, ds).clears == 1 ==> run(m, ds).steps == m.queue.len(),
{
    lemma_run_progress(m, ds, m.queue.len(), 0, 0);
}

/// Once `n` commands are queued and finalized, `2 * n + 1` ticks that each
/// let a full action time pass are enough: by then exactly `n` steps have
/// completed and the "commands cleared" signal has been raised once.
pub proof fn lemma_commands_cleared_eventually(m: MotionView, ds: Seq<u64>)
    requires
        freshly_started(m),
        ds.len() >= 2 * m.queue.len() + 1,
        forall|i: int| 0 <= i < ds.len() ==> #[trigger] ds[i] >= HARVESTOR_MOVEMENT_TIME_NANOS,
    ensures
        run(m, ds).clears == 1,
        run(m, ds).steps == m.queue.len(),
{
    lemma_run_finishes(m, ds, m.queue.len(), 0, 0);
}

/// The course of a single queued command `c` issued at cell `p`, once
/// `elapsed` time has passed since its first action began: a turn towards
/// `c` in flight for exactly that long, then a step that has run no longer
/// than that, then the harvester idle one cell further, which takes at
/// least one full action time.
pub open spec fn single_command_phase(m: MotionView, p: GridPos, c: HarvestorCommands, elapsed: nat) -> bool {
    let h = m.harvestor;
    &&& h.wf()
    &&& h.direction == c
    &&& (h.moving is Some ==> h.moving->0.duration == HARVESTOR_MOVEMENT_TIME_NANOS)
    &&& if m.state == HarvestorState::Running {
        &&& m.queue == seq![c]
        &&& m.clear
        &&& h.turning
        &&& h.moving is Some
        &&& h.moving->0.elapsed == elapsed
        &&& h.position == p
    } else {
        &&& m.state == HarvestorState::Done
        &&& m.queue.len() == 0
        &&& !m.clear
        &&& !h.turning
        &&& if h.moving is Some {
            h.moving->0.elapsed <= elapsed && h.position == p
        } else {
            h.position == stepped(p, c) && elapsed >= HARVESTOR_MOVEMENT_TIME_NANOS
        }
    }
}

proof fn lemma_run_single_command(m: MotionView, ds: Seq<u64>, p: GridPos, c: HarvestorCommands, elapsed: nat)
    requires
        single_command_phase(m, p, c, elapsed),
    ensures
        single_command_phase(run(m, ds).end, p, c, elapsed + total(ds)),
    decreases ds.len(),
{
    if ds.len() > 0 {
        let next = (elapsed + ds[0]) as nat;
        assert(single_command_phase(motion_tick(m, ds[0]), p, c, next));
        lemma_run_single_command(motion_tick(m, ds[0]), ds.drop_first(), p, c, next);
    }
}

/// A single queued command moves the harvester by exactly one step in the
/// commanded direction, and not before a full action time has passed since
/// the first tick began it.
pub proof fn lemma_single_command_moves_once(m: MotionView, ds: Seq<u64>)
    requires
        freshly_started(m),
        m.queue.len() == 1,
        ds.len() >= 1,
        interior(m.harvestor.position),
    ensures
        run(m, ds).end.harvestor.position == m.harvestor.position || run(m, ds).end.harvestor.position
            == stepped(m.harvestor.position, m.queue[0]),
        run(m, ds).end.harvestor.position != m.harvestor.position ==> total(ds.drop_first())
            >= HARVESTOR_MOVEMENT_TIME_NANOS,
{
    let c = m.queue[0];
    let p = m.harvestor.position;
    assert(m.queue.drop_first().len() == 0);
    assert(m.queue == seq![c]);
    assert(single_command_phase(motion_tick(m, ds[0]), p, c, 0));
    lemma_run_single_command(motion_tick(m, ds[0]), ds.drop_first(), p, c, 0);
    assert(stepped(p, c) != p);
}

proof fn lemma_step_lands(m: MotionView, ds: Seq<u64>)
    requires
        m.harvestor.wf(),
        step_in_flight(m.harvestor),
        m.queue.len() == 0,
        !m.clear,
    ensures
        run(m, ds).end.harvestor.position == if m.harvestor.moving->0.elapsed + total(ds)
            < m.harvestor.moving->0.duration {
            m.harvestor.position
        } else {
            stepped(m.harvestor.position, m.harvestor.direction)
        },
    decreases ds.len(),
{
    if ds.len() > 0 {
        let m1 = motion_tick(m, ds[0]);
        if step_finishes(m.harvestor, ds[0]) {
            lemma_idle_stays(m1, ds.drop_first());
        } else {
            lemma_step_lands(m1, ds.drop_first());
        }
    }
}

proof fn lemma_idle_stays(m: MotionView, ds: Seq<u64>)
    requires
        m.harvestor.moving is None,
        !m.clear,
    ensures
        run(m, ds).end.harvestor == m.harvestor,
    decreases ds.len(),
{
    if ds.len() > 0 {
        lemma_idle_stays(motion_tick(m, ds[0]), ds.drop_first());
    }
}

/// A single queued command in the direction the harvester faces moves it
/// one step that way exactly when the ticks after the first have let a full
/// action time pass, and leaves it in place until then.
pub proof fn lemma_single_step_timing(m: MotionView, ds: Seq<u64>)
    requires
        freshly_started(m),
        m.queue == seq![m.harvestor.direction],
        ds.len() >= 1,
    ensures
        run(m, ds).end.harvestor.position == if total(ds.drop_first())
            < HARVESTOR_MOVEMENT_TIME_NANOS {
            m.harvestor.position
        } else {
            stepped(m.harvestor.position, m.harvestor.direction)
        },
{
    assert(m.queue.drop_first().len() == 0);
    lemma_step_lands(motion_tick(m, ds[0]), ds.drop_first());
}

/// The cell reached from `p` by stepping through the first `k` commands
/// of `cs`.
pub open spec fn path_cell(p: GridPos, cs: Seq<HarvestorCommands>, k: int) -> GridPos
    decreases k,
{
    if k <= 0 {
        p
    } else {
        stepped(path_cell(p, cs, k - 1), cs[k - 1])
    }
}

/// The facing just before command `i` of `cs` runs, starting from `d`.
pub open spec fn facing_before(d: HarvestorCommands, cs: Seq<HarvestorCommands>, i: int) -> HarvestorCommands {
    if i <= 0 {
        d
    } else {
        cs[i - 1]
    }
}

/// How many of the first `k` commands of `cs` need a turn first, starting
/// from facing `d`: those that differ from the command before them.
pub open spec fn turns_needed(d: HarvestorCommands, cs: Seq<HarvestorCommands>, k: int) -> nat
    decreases k,
{
    if k <= 0 {
        0
    } else {
        turns_needed(d, cs, k - 1) + if cs[k - 1] != facing_before(d, cs, k - 1) {
            1nat
        } else {
            0nat
        }
    }
}

/// Where a round that started at cell `p` facing `d` with the commands
/// `cs` stands, once `steps` steps and `turns` turns have completed and the
/// cells in `mowed` were mowed: it has walked the first `steps` commands'
/// path, mowing each destination in turn, and turned exactly where the
/// commands so far needed it.
pub open spec fn round_course(
    m: MotionView,
    p: GridPos,
    d: HarvestorCommands,
    cs: Seq<HarvestorCommands>,
    steps: nat,
    turns: nat,
    mowed: Seq<GridPos>,
) -> bool {
    let h = m.harvestor;
    &&& steps <= cs.len()
    &&& mowed.len() == steps
    &&& forall|i: int| 0 <= i < steps ==> #[trigger] mowed[i] == path_cell(p, cs, i + 1)
    &&& h.position == path_cell(p, cs, steps as int)
    &&& if h.moving is None {
        ||| (steps == 0 && h.direction == d && turns == 0 && m.state == HarvestorState::Running
            && m.queue == cs)
        ||| (steps == cs.len() && steps > 0 && h.direction == cs[steps - 1] && turns
            == turns_needed(d, cs, steps as int) && m.state == HarvestorState::Done)
    } else if h.turning {
        &&& steps < cs.len()
        &&& h.direction == cs[steps as int]
        &&& cs[steps as int] != facing_before(d, cs, steps as int)
        &&& turns == turns_needed(d, cs, steps as int)
        &&& m.queue == cs.subrange(steps as int, cs.len() as int)
    } else {
        &&& steps < cs.len()
        &&& h.direction == cs[steps as int]
        &&& turns == turns_needed(d, cs, steps + 1int)
        &&& m.queue == cs.subrange(steps + 1int, cs.len() as int)
    }
}

proof fn lemma_tick_course(
    m: MotionView,
    delta: u64,
    p: GridPos,
    d: HarvestorCommands,
    cs: Seq<HarvestorCommands>,
    steps: nat,
    clears: nat,
    turns: nat,
    mowed: Seq<GridPos>,
)
    requires
        round_progress(m, cs.len(), steps, clears),
        round_course(m, p, d, cs, steps, turns, mowed),
    ensures
        round_course(
            motion_tick(m, delta),
            p,
            d,
            cs,
            steps + if step_finishes(m.harvestor, delta) { 1nat } else { 0nat },
            turns + if finishes(m.harvestor, delta) && m.harvestor.turning { 1nat } else { 0nat },
            if step_finishes(m.harvestor, delta) {
                mowed + seq![stepped(m.harvestor.position, m.harvestor.direction)]
            } else {
                mowed
            },
        ),
{
    let h = m.harvestor;
    if step_finishes(h, delta) {
        let mowed2 = mowed + seq![stepped(h.position, h.direction)];
        assert forall|i: int| 0 <= i < steps + 1 implies #[trigger] mowed2[i] == path_cell(
            p,
            cs,
            i + 1,
        ) by {
            if i < steps {
                assert(mowed2[i] == mowed[i]);
            }
        }
        if steps + 1 < cs.len() {
            assert(facing_before(d, cs, steps + 1int) == cs[steps as int]);
            assert(turns_needed(d, cs, steps + 2int) == turns_needed(d, cs, steps + 1int) + if cs[steps
                + 1int] != facing_before(d, cs, steps + 1int) {
                1nat
            } else {
                0nat
            });
            assert(cs.subrange(steps + 1int, cs.len() as int)[0] == cs[steps + 1int]);
            assert(cs.subrange(steps + 1int, cs.len() as int).drop_first() =~= cs.subrange(
                steps + 2int,
                cs.len() as int,
            ));
        }
    } else if finishes(h, delta) && h.turning {
        assert(turns_needed(d, cs, steps + 1int) == turns_needed(d, cs, steps as int) + 1);
        assert(cs.subrange(steps as int, cs.len() as int)[0] == cs[steps as int]);
        assert(cs.subrange(steps as int, cs.len() as int).drop_first() =~= cs.subrange(
            steps + 1int,
            cs.len() as int,
        ));
    } else if h.moving is None && steps == 0 && m.state == HarvestorState::Running {
        assert(turns_needed(d, cs, 1) == turns_needed(d, cs, 0) + if cs[0] != d {
            1nat
        } else {
            0nat
        });
        assert(cs.drop_first() =~= cs.subrange(1, cs.len() as int));
        assert(cs =~= cs.subrange(0, cs.len() as int));
    }
}

proof fn lemma_run_course(
    m: MotionView,
    ds: Seq<u64>,
    p: GridPos,
    d: HarvestorCommands,
    cs: Seq<HarvestorCommands>,
    steps: nat,
    clears: nat,
    turns: nat,
    mowed: Seq<GridPos>,
)
    requires
        round_progress(m, cs.len(), steps, clears),
        round_course(m, p, d, cs, steps, turns, mowed),
    ensures
        round_course(
            run(m, ds).end,
            p,
            d,
            cs,
            steps + run(m, ds).steps,
            turns + run(m, ds).turns,
            mowed + run(m, ds).mowed,
        ),
    decreases ds.len(),
{
    if ds.len() == 0 {
        assert(mowed + run(m, ds).mowed =~= mowed);
    } else {
        let h = m.harvestor;
        let sf = step_finishes(h, ds[0]);
        let steps1 = steps + if sf { 1nat } else { 0nat };
        let clears1 = clears + if clears_commands(h, ds[0], m.state) { 1nat } else { 0nat };
        let turns1 = turns + if finishes(h, ds[0]) && h.turning { 1nat } else { 0nat };
        let mowed1 = if sf { mowed + seq![stepped(h.position, h.direction)] } else { mowed };
        lemma_tick_progress(m, ds[0], cs.len(), steps, clears);
        lemma_tick_course(m, ds[0], p, d, cs, steps, clears, turns, mowed);
        lemma_run_course(motion_tick(m, ds[0]), ds.drop_first(), p, d, cs, steps1, clears1, turns1, mowed1);
        let rest = run(motion_tick(m, ds[0]), ds.drop_first());
        if sf {
            assert(mowed1 + rest.mowed =~= mowed + (seq![stepped(h.position, h.direction)] + rest.mowed));
        }
    }
}

/// Once commands `cs` are queued and finalized with the harvester at `p`
/// facing `d`, over any ticks: the canvas is mowed exactly at the
/// destinations of the completed steps, in order, which are the cells of
/// the commands' path, and the harvester stands on the last of them. When
/// the "commands cleared" signal has been raised, it has walked the whole
/// path, and exactly one turn has completed for each command that differs
/// from the facing before it.
pub proof fn lemma_round_course(m: MotionView, ds: Seq<u64>)
    requires
        freshly_started(m),
    ensures
        run(m, ds).mowed.len() == run(m, ds).steps,
        forall|i: int|
            0 <= i < run(m, ds).steps ==> #[trigger] run(m, ds).mowed[i] == path_cell(
                m.harvestor.position,
                m.queue,
                i + 1,
            ),
        run(m, ds).end.harvestor.position == path_cell(
            m.harvestor.position,
            m.queue,
            run(m, ds).steps as int,
        ),
        run(m, ds).clears == 1 ==> {
            &&& run(m, ds).end.harvestor.position == path_cell(
                m.harvestor.position,
                m.queue,
                m.queue.len() as int,
            )
            &&& run(m, ds).turns == turns_needed(
                m.harvestor.direction,
                m.queue,
                m.queue.len() as int,
            )
        },
{
    let r = run(m, ds);
    lemma_run_course(m, ds, m.harvestor.position, m.harvestor.direction, m.queue, 0, 0, 0, Seq::empty());
    lemma_run_progress(m, ds, m.queue.len(), 0, 0);
    assert(Seq::<GridPos>::empty() + r.mowed =~= r.mowed);
}

} // verus!
