use harvestor::field::{
    compare_fields, compare_fields_on_commands_cleared, find_field, mow_target_field, Field,
    FieldType, MowResult,
};
use harvestor::grid::GridPos;
use harvestor::harvestor::Harvestor;

fn field_with(size: u32, cells: &[((i32, i32), bool)]) -> Field {
    let mut f = Field::new(size, size, FieldType::Target);
    for (k, v) in cells {
        f.set_mowed(*k, *v);
    }
    f
}

#[test]
fn fully_mowed_field() {
    let field_target = field_with(
        2,
        &[((0, 0), true), ((0, 1), true), ((1, 0), true), ((1, 1), true)],
    );
    let field_canvas = field_with(2, &[]);
    assert_eq!(
        compare_fields(&field_target, &field_canvas),
        MowResult::Perfect
    );
}

#[test]
fn fully_unmowed_field() {
    let field_target = field_with(2, &[]);
    let field_canvas = field_with(
        2,
        &[((0, 0), true), ((0, 1), true), ((1, 0), true), ((1, 1), true)],
    );
    assert_eq!(
        compare_fields(&field_target, &field_canvas),
        MowResult::Perfect
    );
}

#[test]
fn partial_mowed() {
    let field_target = field_with(2, &[((0, 0), true), ((0, 1), true), ((1, 1), false)]);
    let field_canvas = field_with(2, &[((1, 0), true), ((1, 1), true)]);
    assert_eq!(
        compare_fields(&field_target, &field_canvas),
        MowResult::Perfect
    );
}

#[test]
fn too_little_mowed() {
    let field_target = field_with(2, &[((0, 0), true), ((0, 1), true)]);
    let field_canvas = field_with(2, &[((1, 1), true)]);
    assert_eq!(
        compare_fields(&field_target, &field_canvas),
        MowResult::TooLittle
    );
}

#[test]
fn too_much_mowed() {
    let field_target = field_with(2, &[((0, 0), true), ((0, 1), true)]);
    let field_canvas = field_with(2, &[((0, 0), true), ((1, 1), true), ((1, 0), false)]);
    assert_eq!(
        compare_fields(&field_target, &field_canvas),
        MowResult::TooMuch
    );
}

#[test]
fn compare_is_repeatable() {
    let field_target = field_with(3, &[((0, 0), true), ((2, 1), true)]);
    let field_canvas = field_with(3, &[((1, 1), true), ((0, 2), true)]);
    let first = compare_fields(&field_target, &field_canvas);
    for _ in 0..5 {
        assert_eq!(compare_fields(&field_target, &field_canvas), first);
    }
    assert_eq!(first, MowResult::TooLittle);
}

#[test]
fn shared_cell_wins_over_missing_cells() {
    // (2, 2) is marked on both; most other cells are mowed on neither.
    let field_target = field_with(3, &[((2, 2), true)]);
    let field_canvas = field_with(3, &[((2, 2), true)]);
    assert_eq!(
        compare_fields(&field_target, &field_canvas),
        MowResult::TooMuch
    );
}

#[test]
fn shared_cell_outside_extent_is_too_much() {
    let field_target = field_with(2, &[((5, 5), true)]);
    let field_canvas = field_with(2, &[((5, 5), true)]);
    assert_eq!(
        compare_fields(&field_target, &field_canvas),
        MowResult::TooMuch
    );
}

#[test]
fn explicit_false_counts_as_unmowed() {
    let field_target = field_with(1, &[((0, 0), false)]);
    let field_canvas = field_with(1, &[((0, 0), false)]);
    assert_eq!(
        compare_fields(&field_target, &field_canvas),
        MowResult::TooLittle
    );
}

#[test]
fn empty_extent_is_perfect() {
    let field_target = field_with(0, &[]);
    let field_canvas = field_with(0, &[((0, 0), true)]);
    assert_eq!(
        compare_fields(&field_target, &field_canvas),
        MowResult::Perfect
    );
}

#[test]
fn extent_swaps_axes() {
    // A field 1 wide (size_x) and 2 high (size_y) holds (0, 0) and (1, 0).
    let mut target = Field::new(1, 2, FieldType::Target);
    target.set_mowed((0, 0), true);
    let mut canvas = Field::new(1, 2, FieldType::Canvas);
    canvas.set_mowed((0, 1), true);
    assert_eq!(compare_fields(&target, &canvas), MowResult::TooLittle);
    canvas.set_mowed((1, 0), true);
    assert_eq!(compare_fields(&target, &canvas), MowResult::Perfect);
}

#[test]
fn cells_run_row_by_row() {
    let f = Field::new(3, 2, FieldType::Target);
    assert_eq!(
        f.cells(),
        vec![(0, 0), (0, 1), (0, 2), (1, 0), (1, 1), (1, 2)]
    );
    assert!(Field::new(0, 4, FieldType::Canvas).cells().is_empty());
}

#[test]
fn set_and_clear_mowed_cells() {
    let mut f = Field::new(2, 2, FieldType::Canvas);
    assert!(!f.is_mowed((1, 1)));
    f.set_mowed((1, 1), true);
    assert!(f.is_mowed((1, 1)));
    assert!(!f.is_mowed((1, 0)));
    f.set_mowed((1, 1), false);
    assert!(!f.is_mowed((1, 1)));
    f.set_mowed((0, 1), true);
    f.clear_mowed();
    assert!(!f.is_mowed((0, 1)));
}

#[test]
fn initial_target_marks_the_corner() {
    let f = Field::initial_target();
    assert_eq!((f.size_x, f.size_y), (10, 10));
    assert_eq!(f.field_type, FieldType::Target);
    assert!(f.is_mowed((0, 0)));
    assert!(!f.is_mowed((0, 1)));
}

#[test]
fn mowing_touches_only_the_canvas() {
    let h = Harvestor::spawn(GridPos::new(3, -1));
    let mut canvas = Field::new(4, 4, FieldType::Canvas);
    let mut target = Field::new(4, 4, FieldType::Target);
    mow_target_field(&h, &mut canvas);
    mow_target_field(&h, &mut target);
    assert!(canvas.is_mowed((3, -1)));
    assert!(!target.is_mowed((3, -1)));
}

#[test]
fn list_comparison_needs_both_fields() {
    let mut fields = vec![Field::new(2, 2, FieldType::Canvas)];
    assert_eq!(find_field(&fields, FieldType::Target), None);
    assert_eq!(compare_fields_on_commands_cleared(&fields), None);
    let mut target = Field::new(2, 2, FieldType::Target);
    target.set_mowed((0, 0), true);
    fields.push(target);
    assert_eq!(find_field(&fields, FieldType::Target), Some(1));
    assert_eq!(find_field(&fields, FieldType::Canvas), Some(0));
    assert_eq!(
        compare_fields_on_commands_cleared(&fields),
        Some(MowResult::TooLittle)
    );
    fields[0].set_mowed((0, 1), true);
    fields[0].set_mowed((1, 0), true);
    fields[0].set_mowed((1, 1), true);
    assert_eq!(
        compare_fields_on_commands_cleared(&fields),
        Some(MowResult::Perfect)
    );
}

#[test]
fn verdict_messages() {
    assert_eq!(MowResult::Perfect.message(), "Success! :)");
    assert_eq!(MowResult::TooMuch.message(), "Too many fields are harvested :( ");
    assert_eq!(MowResult::TooLittle.message(), "Some fields are not harvested :(");
}
