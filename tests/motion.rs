use harvestor::field::{Field, FieldType, MowResult};
use harvestor::grid::{command_to_direction, step, GridPos, HarvestorCommands};
use harvestor::harvestor::{
    count_down_parts, move_harvestor, watch_havestor_finished_moves, Harvestor,
    HarvestorState, InputCommands, MoveStart, HARVESTOR_MOVEMENT_TIME_NANOS, SPAWN_X, SPAWN_Y,
};
use harvestor::round::Round;

const T: u64 = HARVESTOR_MOVEMENT_TIME_NANOS;

fn round_with(commands: &[HarvestorCommands]) -> Round {
    let mut r = Round::new(Field::new(4, 4, FieldType::Target));
    for c in commands {
        assert!(r.push_command(*c).is_some());
    }
    assert!(r.finalize());
    r
}

#[test]
fn command_vectors() {
    assert_eq!(command_to_direction(&HarvestorCommands::Up), (0, 0, 1));
    assert_eq!(command_to_direction(&HarvestorCommands::Down), (0, 0, -1));
    assert_eq!(command_to_direction(&HarvestorCommands::Left), (1, 0, 0));
    assert_eq!(command_to_direction(&HarvestorCommands::Right), (-1, 0, 0));
    let p = GridPos::new(5, 5);
    assert_eq!(step(p, HarvestorCommands::Up), GridPos::new(5, 6));
    assert_eq!(step(p, HarvestorCommands::Down), GridPos::new(5, 4));
    assert_eq!(step(p, HarvestorCommands::Left), GridPos::new(4, 5));
    assert_eq!(step(p, HarvestorCommands::Right), GridPos::new(6, 5));
}

#[test]
fn samples_and_arrows() {
    assert_eq!(HarvestorCommands::from_sample(0), HarvestorCommands::Up);
    assert_eq!(HarvestorCommands::from_sample(1), HarvestorCommands::Down);
    assert_eq!(HarvestorCommands::from_sample(2), HarvestorCommands::Left);
    assert_eq!(HarvestorCommands::from_sample(3), HarvestorCommands::Right);
    assert_eq!(HarvestorCommands::from_sample(9), HarvestorCommands::Right);
    assert_eq!(HarvestorCommands::Up.arrow_degrees(), 180);
    assert_eq!(HarvestorCommands::Down.arrow_degrees(), 0);
    assert_eq!(HarvestorCommands::Left.arrow_degrees(), 270);
    assert_eq!(HarvestorCommands::Right.arrow_degrees(), 90);
}

#[test]
fn count_down_splits_milliseconds() {
    assert_eq!(count_down_parts(0), (0, 0));
    assert_eq!(count_down_parts(12_345), (12, 34));
    assert_eq!(count_down_parts(999), (0, 99));
}

#[test]
fn interior_cells() {
    assert!(GridPos::new(0, -1).is_interior());
    assert!(!GridPos::new(i32::MAX, 0).is_interior());
    assert!(!GridPos::new(0, i32::MIN).is_interior());
}

#[test]
fn single_step_lands_after_full_time() {
    // The harvester spawns facing left, so a left command is a plain step.
    let mut r = round_with(&[HarvestorCommands::Left]);
    let start = r.harvestor.position;
    let out = r.tick(16);
    assert_eq!(out.started, Some(MoveStart::Step(HarvestorCommands::Left)));
    assert_eq!(r.state, HarvestorState::Done);
    assert!(r.input.commands.is_empty());
    assert!(!r.input.clear);
    let out = r.tick(T - 1);
    assert_eq!(out.verdict, None);
    assert_eq!(r.harvestor.position, start);
    let out = r.tick(1);
    assert_eq!(r.harvestor.position, GridPos::new(start.x - 1, start.y));
    assert!(out.verdict.is_some());
    assert!(r.canvas.is_mowed((start.x - 1, start.y)));
    assert!(!r.canvas.is_mowed((start.x, start.y)));
}

#[test]
fn only_step_destinations_are_mowed() {
    let mut r = round_with(&[HarvestorCommands::Up, HarvestorCommands::Left]);
    for _ in 0..10 {
        r.tick(T);
    }
    assert_eq!(r.harvestor.position, GridPos::new(SPAWN_X - 1, SPAWN_Y + 1));
    assert!(r.canvas.is_mowed((SPAWN_X, SPAWN_Y + 1)));
    assert!(r.canvas.is_mowed((SPAWN_X - 1, SPAWN_Y + 1)));
    assert!(!r.canvas.is_mowed((SPAWN_X, SPAWN_Y)));
}

#[test]
fn a_target_on_the_spawn_cell_is_not_over_mowed() {
    let mut target = Field::new(4, 4, FieldType::Target);
    target.set_mowed((SPAWN_X, SPAWN_Y), true);
    let mut r = Round::new(target);
    assert_eq!(r.push_command(HarvestorCommands::Left), Some(true));
    assert!(r.finalize());
    r.tick(T);
    let out = r.tick(T);
    assert_eq!(out.verdict, Some(MowResult::TooLittle));
}

#[test]
fn finalizing_an_empty_queue_is_absorbed() {
    let mut r = Round::new(Field::new(2, 2, FieldType::Target));
    assert!(!r.finalize());
    assert_eq!(r.state, HarvestorState::AcceptingCommands);
    assert!(!r.input.clear);
    assert_eq!(r.push_command(HarvestorCommands::Up), Some(true));
    assert!(r.finalize());
    assert_eq!(r.state, HarvestorState::Running);
}

#[test]
fn finishing_step_is_reported_ahead() {
    let mut h = Harvestor::spawn(GridPos::new(0, 0));
    assert!(!h.finishes_step(T));
    let mut input = InputCommands { commands: vec![HarvestorCommands::Left], clear: true };
    move_harvestor(&mut input, &mut h);
    assert!(!h.finishes_step(T - 1));
    assert!(h.finishes_step(T));
}

#[test]
fn turn_then_step() {
    let mut r = round_with(&[HarvestorCommands::Up]);
    let start = r.harvestor.position;
    let out = r.tick(0);
    assert_eq!(out.started, Some(MoveStart::Turn(HarvestorCommands::Up)));
    assert_eq!(r.harvestor.direction, HarvestorCommands::Up);
    assert_eq!(r.input.commands, vec![HarvestorCommands::Up]);
    assert_eq!(r.state, HarvestorState::Running);
    let out = r.tick(T);
    assert_eq!(out.started, Some(MoveStart::Step(HarvestorCommands::Up)));
    assert_eq!(r.harvestor.position, start);
    assert_eq!(out.verdict, None);
    let out = r.tick(T / 2);
    assert_eq!(out.verdict, None);
    assert_eq!(r.harvestor.position, start);
    let out = r.tick(T);
    assert_eq!(r.harvestor.position, GridPos::new(start.x, start.y + 1));
    assert_eq!(out.verdict, Some(MowResult::TooLittle));
}

#[test]
fn n_commands_clear_once_after_n_steps() {
    let cmds = [
        HarvestorCommands::Left,
        HarvestorCommands::Up,
        HarvestorCommands::Up,
        HarvestorCommands::Right,
    ];
    let mut r = round_with(&cmds);
    let mut steps = 0;
    let mut clears = 0;
    let mut steps_at_clear = None;
    for _ in 0..40 {
        let before = r.harvestor.position;
        let out = r.tick(T);
        if r.harvestor.position != before {
            steps += 1;
        }
        if out.verdict.is_some() {
            clears += 1;
            steps_at_clear = Some(steps);
        }
    }
    assert_eq!(clears, 1);
    assert_eq!(steps, cmds.len());
    assert_eq!(steps_at_clear, Some(cmds.len()));
    assert_eq!(r.harvestor.position, GridPos::new(SPAWN_X, SPAWN_Y + 2));
}

#[test]
fn commands_only_while_accepting() {
    let mut r = Round::new(Field::new(2, 2, FieldType::Target));
    assert_eq!(r.push_command(HarvestorCommands::Down), Some(true));
    assert_eq!(r.push_command(HarvestorCommands::Down), Some(false));
    assert!(r.finalize());
    assert_eq!(r.push_command(HarvestorCommands::Up), None);
    assert!(!r.finalize());
    assert!(!r.restart());
    assert_eq!(r.input.commands.len(), 2);
}

#[test]
fn restart_after_done() {
    let mut r = round_with(&[HarvestorCommands::Left]);
    r.tick(T);
    r.tick(T);
    assert_eq!(r.state, HarvestorState::Done);
    assert!(r.restart());
    assert_eq!(r.state, HarvestorState::AcceptingCommands);
    assert_eq!(r.harvestor, Harvestor::spawn(GridPos::new(SPAWN_X, SPAWN_Y)));
    assert!(!r.canvas.is_mowed((SPAWN_X - 1, SPAWN_Y)));
    assert!(r.target.is_mowed((0, 0)) == false);
}

#[test]
fn empty_queue_drops_execute_flag() {
    let mut h = Harvestor::spawn(GridPos::new(0, 0));
    let mut input = InputCommands { commands: vec![], clear: true };
    let out = move_harvestor(&mut input, &mut h);
    assert_eq!(out.started, None);
    assert!(!out.done);
    assert!(!input.clear);
    assert_eq!(h, Harvestor::spawn(GridPos::new(0, 0)));
}

#[test]
fn busy_harvester_takes_no_command() {
    let mut h = Harvestor::spawn(GridPos::new(0, 0));
    let mut input = InputCommands {
        commands: vec![HarvestorCommands::Left, HarvestorCommands::Left],
        clear: true,
    };
    let out = move_harvestor(&mut input, &mut h);
    assert_eq!(out.started, Some(MoveStart::Step(HarvestorCommands::Left)));
    assert!(!out.done);
    let out = move_harvestor(&mut input, &mut h);
    assert_eq!(out.started, None);
    assert_eq!(input.commands.len(), 1);
    assert!(!watch_havestor_finished_moves(&mut h, T - 1, HarvestorState::Done));
    assert_eq!(h.position, GridPos::new(0, 0));
    assert!(watch_havestor_finished_moves(&mut h, 1, HarvestorState::Done));
    assert_eq!(h.position, GridPos::new(-1, 0));
    assert!(h.moving.is_none());
}
