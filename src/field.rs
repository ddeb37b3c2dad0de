//! Fields of square cells, what has been mowed on them, and the verdict
//! that compares a round's canvas with its target.

use vstd::arithmetic::div_mod::lemma_fundamental_div_mod_converse;
use vstd::prelude::*;

use crate::harvestor::Harvestor;

verus! {

/// The mathematical content of a mowed map: cell `(x, y)` to its flag.
pub type MowedCells = Map<(i32, i32), bool>;

/// The cells recorded on a field, keyed by `(x, y)`; a key that is absent
/// reads as `false`. It keeps them in bevy's `HashMap`, which Verus cannot
/// declare as it stands (its allocator parameter is bounded by a private
/// trait), so the map sits in a field that Verus does not see, and the
/// methods below are the only way in.
#[verifier::external_body]
pub struct MowedMap {
    cells: bevy::utils::HashMap<(i32, i32), bool>,
}

/// What a `MowedMap` holds.
pub uninterp spec fn mowed_entries(m: MowedMap) -> MowedCells;

impl View for MowedMap {
    type V = MowedCells;

    open spec fn view(&self) -> MowedCells {
        mowed_entries(*self)
    }
}

impl MowedMap {
    /// Relies on `HashMap::default` of bevy's `HashMap` (hashbrown): a map
    /// with no entries.
    #[verifier::external_body]
    pub(crate) fn new() -> (r: MowedMap)
        ensures
            mowed_entries(r) == MowedCells::empty(),
    {
        MowedMap { cells: bevy::utils::HashMap::default() }
    }

    /// Relies on hashbrown's `HashMap::insert`: afterwards `k` maps to `v`,
    /// every other key is as it was.
    #[verifier::external_body]
    pub(crate) fn insert(&mut self, k: (i32, i32), v: bool)
        ensures
            mowed_entries(*final(self)) == mowed_entries(*old(self)).insert(k, v),
    {
        self.cells.insert(k, v);
    }

    /// Relies on hashbrown's `HashMap::get`: the value stored under `k`, if
    /// any.
    #[verifier::external_body]
    pub(crate) fn get(&self, k: (i32, i32)) -> (r: Option<bool>)
        ensures
            r == (if self@.contains_key(k) {
                Some(self@[k])
            } else {
                None
            }),
    {
        self.cells.get(&k).copied()
    }

    /// Relies on hashbrown's `HashMap::iter`: it visits every entry exactly
    /// once, in an order that the contract leaves open.
    #[verifier::external_body]
    pub(crate) fn entries(&self) -> (r: Vec<((i32, i32), bool)>)
        ensures
            forall|i: int|
                0 <= i < r@.len() ==> #[trigger] self@.contains_key(r@[i].0) && self@[r@[i].0]
                    == r@[i].1,
            forall|k: (i32, i32)|
                #[trigger] self@.contains_key(k) ==> exists|i: int|
                    0 <= i < r@.len() && r@[i].0 == k,
            forall|i: int, j: int| 0 <= i < j < r@.len() ==> r@[i].0 != r@[j].0,
    {
        self.cells.iter().map(|(k, v)| (*k, *v)).collect()
    }

    /// Relies on hashbrown's `HashMap::clear`: no entry is left.
    #[verifier::external_body]
    pub(crate) fn clear(&mut self)
        ensures
            mowed_entries(*final(self)) == MowedCells::empty(),
    {
        self.cells.clear();
    }
}

/// Whether `k` is recorded as mowed in `m`: absent keys count as unmowed.
pub open spec fn marked(m: MowedCells, k: (i32, i32)) -> bool {
    m.contains_key(k) && m[k]
}

/// The role a field plays in a round.
#[derive(Clone, Copy, Debug, PartialEq, Eq, Structural)]
pub enum FieldType {
    /// The pattern the round asks for.
    Target,
    /// What the harvester actually mowed.
    Canvas,
}

/// A rectangular field. Its extent is `[0, size_y) x [0, size_x)` in
/// `(x, y)` coordinates: the first coordinate runs over `size_y`.
pub struct Field {
    pub size_x: u32,
    pub size_y: u32,
    pub field_type: FieldType,
    pub mowed: MowedMap,
}

/// The largest side a field may have: every cell of its extent must be
/// addressable by an `i32` coordinate.
pub const MAX_FIELD_SIDE: u32 = 0x7fff_ffff;

/// Whether `k` lies in the extent of a field of the given sizes.
pub open spec fn in_extent(size_x: u32, size_y: u32, k: (i32, i32)) -> bool {
    0 <= k.0 < size_y && 0 <= k.1 < size_x
}

/// The outcome of a round.
#[derive(Clone, Copy, Debug, PartialEq, Eq, Structural)]
pub enum MowResult {
    Perfect,
    TooMuch,
    TooLittle,
}

impl MowResult {
    /// The line shown to the player for this verdict.
    pub fn message(&self) -> (r: &'static str)
        ensures
            r@ == message_of(*self),
    {
        match self {
            MowResult::Perfect => "Success! :)",
            MowResult::TooMuch => "Too many fields are harvested :( ",
            MowResult::TooLittle => "Some fields are not harvested :(",
        }
    }
}

/// The line shown to the player for verdict `r`.
pub open spec fn message_of(r: MowResult) -> Seq<char> {
    match r {
        MowResult::Perfect => "Success! :)"@,
        MowResult::TooMuch => "Too many fields are harvested :( "@,
        MowResult::TooLittle => "Some fields are not harvested :("@,
    }
}

/// Some cell is mowed both on the canvas and on the target.
pub open spec fn over_mowed(target: MowedCells, canvas: MowedCells) -> bool {
    exists|k: (i32, i32)| #[trigger] marked(canvas, k) && marked(target, k)
}

/// Some cell of the extent is mowed neither on the target nor on the canvas.
pub open spec fn under_mowed(
    size_x: u32,
    size_y: u32,
    target: MowedCells,
    canvas: MowedCells,
) -> bool {
    exists|k: (i32, i32)|
        in_extent(size_x, size_y, k) && !#[trigger] marked(target, k) && !marked(canvas, k)
}

/// The verdict on a canvas against a target whose extent is
/// `size_x` by `size_y`: over-mowing first, then under-mowing.
pub open spec fn verdict(
    size_x: u32,
    size_y: u32,
    target: MowedCells,
    canvas: MowedCells,
) -> MowResult {
    if over_mowed(target, canvas) {
        MowResult::TooMuch
    } else if under_mowed(size_x, size_y, target, canvas) {
        MowResult::TooLittle
    } else {
        MowResult::Perfect
    }
}

impl Field {
    /// Whether the field's extent can be addressed by `i32` coordinates.
    pub open spec fn wf(&self) -> bool {
        self.size_x <= MAX_FIELD_SIDE && self.size_y <= MAX_FIELD_SIDE
    }

    /// A field with nothing mowed.
    pub fn new(size_x: u32, size_y: u32, field_type: FieldType) -> (r: Field)
        requires
            size_x <= MAX_FIELD_SIDE,
            size_y <= MAX_FIELD_SIDE,
        ensures
            r.wf(),
            r.size_x == size_x,
            r.size_y == size_y,
            r.field_type == field_type,
            r.mowed@ == MowedCells::empty(),
    {
        Field { size_x, size_y, field_type, mowed: MowedMap::new() }
    }

    /// The pattern a round starts with: a ten by ten target that marks only
    /// the corner `(0, 0)`.
    pub fn initial_target() -> (r: Field)
        ensures
            r.wf(),
            r.size_x == 10,
            r.size_y == 10,
            r.field_type == FieldType::Target,
            r.mowed@ == MowedCells::empty().insert((0, 0), true),
    {
        let mut f = Field::new(10, 10, FieldType::Target);
        f.set_mowed((0, 0), true);
        f
    }

    /// Records cell `k` as mowed (`true`) or explicitly unmowed (`false`).
    pub fn set_mowed(&mut self, k: (i32, i32), v: bool)
        ensures
            final(self).size_x == old(self).size_x,
            final(self).size_y == old(self).size_y,
            final(self).field_type == old(self).field_type,
            final(self).mowed@ == old(self).mowed@.insert(k, v),
    {
        self.mowed.insert(k, v);
    }

    /// Whether cell `k` is mowed; a cell never recorded is not.
    pub fn is_mowed(&self, k: (i32, i32)) -> (r: bool)
        ensures
            r == marked(self.mowed@, k),
    {
        match self.mowed.get(k) {
            Some(v) => v,
            None => false,
        }
    }

    /// Every cell of the extent, row by row: `(0, 0), (0, 1), ...`, the
    /// second coordinate running fastest, over `size_x`.
    pub fn cells(&self) -> (r: Vec<(u32, u32)>)
        ensures
            r@.len() == self.size_y * self.size_x,
            forall|i: int|
                0 <= i < r@.len() ==> #[trigger] r@[i].0 == i / (self.size_x as int) && r@[i].1 == i
                    % (self.size_x as int),
    {
        let mut r: Vec<(u32, u32)> = Vec::new();
        let mut x: u32 = 0;
        while x < self.size_y
            invariant
                x <= self.size_y,
                r@.len() == x * self.size_x,
                forall|i: int|
                    0 <= i < r@.len() ==> #[trigger] r@[i].0 == i / (self.size_x as int) && r@[i].1
                        == i % (self.size_x as int),
            decreases self.size_y - x,
        {
            let mut y: u32 = 0;
            while y < self.size_x
                invariant
                    x < self.size_y,
                    y <= self.size_x,
                    r@.len() == x * self.size_x + y,
                    forall|i: int|
                        0 <= i < r@.len() ==> #[trigger] r@[i].0 == i / (self.size_x as int) && r@[i].1
                            == i % (self.size_x as int),
                decreases self.size_x - y,
            {
                proof {
                    lemma_fundamental_div_mod_converse(
                        r@.len() as int,
                        self.size_x as int,
                        x as int,
                        y as int,
                    );
                }
                r.push((x, y));
                y = y + 1;
            }
            assert(r@.len() == (x + 1) * self.size_x) by (nonlinear_arith)
                requires
                    r@.len() == x * self.size_x + self.size_x,
            ;
            x = x + 1;
        }
        r
    }

    /// Forgets every recorded cell.
    pub fn clear_mowed(&mut self)
        ensures
            final(self).size_x == old(self).size_x,
            final(self).size_y == old(self).size_y,
            final(self).field_type == old(self).field_type,
            final(self).mowed@ == MowedCells::empty(),
    {
        self.mowed.clear();
    }
}

/// Records the cell that harvester `h` stands on as mowed, if `field` is
/// the canvas; a target field is left as it is.
pub fn mow_target_field(h: &Harvestor, field: &mut Field)
    ensures
        final(field).size_x == old(field).size_x,
        final(field).size_y == old(field).size_y,
        final(field).field_type == old(field).field_type,
        final(field).mowed@ == (if old(field).field_type == FieldType::Canvas {
            old(field).mowed@.insert((h.position.x, h.position.y), true)
        } else {
            old(field).mowed@
        }),
{
    if field.field_type == FieldType::Canvas {
        field.set_mowed((h.position.x, h.position.y), true);
    }
}

/// Judges `field_canvas` against `field_target`. A cell mowed on both is
/// over-mowing (`TooMuch`); otherwise a cell of the target's extent that is
/// mowed on neither is under-mowing (`TooLittle`); otherwise `Perfect`.
pub fn compare_fields(field_target: &Field, field_canvas: &Field) -> (r: MowResult)
    requires
        field_target.wf(),
        field_target.size_x == field_canvas.size_x,
        field_target.size_y == field_canvas.size_y,
    ensures
        r == verdict(
            field_target.size_x,
            field_target.size_y,
            field_target.mowed@,
            field_canvas.mowed@,
        ),
{
    let ghost t = field_target.mowed@;
    let ghost c = field_canvas.mowed@;
    let entries = field_canvas.mowed.entries();
    let mut i: usize = 0;
    while i < entries.len()
        invariant
            0 <= i <= entries@.len(),
            t == field_target.mowed@,
            c == field_canvas.mowed@,
            forall|j: int| 0 <= j < entries@.len() ==> #[trigger] c.contains_key(entries@[j].0) && c[entries@[j].0] == entries@[j].1,
            forall|j: int| 0 <= j < i ==> !(entries@[j].1 && #[trigger] marked(t, entries@[j].0)),
        decreases entries@.len() - i,
    {
        let (k, canvas_mowed) = entries[i];
        assert(c.contains_key(entries@[i as int].0));
        if canvas_mowed && field_target.is_mowed(k) {
            assert(marked(c, k) && marked(t, k));
            return MowResult::TooMuch;
        }
        i = i + 1;
    }
    assert(!over_mowed(t, c)) by {
        assert forall|k: (i32, i32)| #[trigger] marked(c, k) implies !marked(t, k) by {
            let j = choose|j: int| 0 <= j < entries@.len() && entries@[j].0 == k;
            assert(c.contains_key(entries@[j].0));
        }
    }
    let mut x: u32 = 0;
    while x < field_target.size_y
        invariant
            field_target.wf(),
            x <= field_target.size_y,
            t == field_target.mowed@,
            c == field_canvas.mowed@,
            !over_mowed(t, c),
            field_target.size_x == field_canvas.size_x,
            forall|k: (i32, i32)|
                in_extent(field_target.size_x, field_target.size_y, k) && k.0 < x ==> #[trigger] marked(t, k) || marked(c, k),
        decreases field_target.size_y - x,
    {
        let mut y: u32 = 0;
        while y < field_target.size_x
            invariant
                field_target.wf(),
                x < field_target.size_y,
                y <= field_target.size_x,
                t == field_target.mowed@,
                c == field_canvas.mowed@,
                !over_mowed(t, c),
                field_target.size_x == field_canvas.size_x,
                forall|k: (i32, i32)|
                    in_extent(field_target.size_x, field_target.size_y, k) && (k.0 < x || (k.0 == x && k.1 < y)) ==> #[trigger] marked(t, k) || marked(c, k),
            decreases field_target.size_x - y,
        {
            let coord: (i32, i32) = (x as i32, y as i32);
            if !field_target.is_mowed(coord) && !field_canvas.is_mowed(coord) {
                assert(in_extent(field_target.size_x, field_target.size_y, coord)
                    && !marked(t, coord) && !marked(c, coord));
                return MowResult::TooLittle;
            }
            y = y + 1;
        }
        x = x + 1;
    }
    MowResult::Perfect
}


/// Whether `i` is the first position in `fields` holding a field of type
/// `ty`.
pub open spec fn first_of_type(fields: Seq<Field>, ty: FieldType, i: int) -> bool {
    0 <= i < fields.len() && fields[i].field_type == ty && forall|j: int|
        0 <= j < i ==> #[trigger] fields[j].field_type != ty
}

/// The position of the first field of type `ty`, if there is one.
pub fn find_field(fields: &Vec<Field>, ty: FieldType) -> (r: Option<usize>)
    ensures
        match r {
            Some(i) => first_of_type(fields@, ty, i as int),
            None => forall|j: int| 0 <= j < fields@.len() ==> #[trigger] fields@[j].field_type != ty,
        },
{
    let mut i: usize = 0;
    while i < fields.len()
        invariant
            i <= fields@.len(),
            forall|j: int| 0 <= j < i ==> #[trigger] fields@[j].field_type != ty,
        decreases fields@.len() - i,
    {
        if fields[i].field_type == ty {
            return Some(i);
        }
        i = i + 1;
    }
    None
}

/// The verdict on the first canvas among `fields` against the first target
/// among them; `None` when either is missing.
pub fn compare_fields_on_commands_cleared(fields: &Vec<Field>) -> (r: Option<MowResult>)
    requires
        forall|t: int, c: int|
            #[trigger] first_of_type(fields@, FieldType::Target, t) && #[trigger] first_of_type(
                fields@,
                FieldType::Canvas,
                c,
            ) ==> {
                &&& fields@[t].wf()
                &&& fields@[t].size_x == fields@[c].size_x
                &&& fields@[t].size_y == fields@[c].size_y
            },
    ensures
        r is Some <==> (exists|i: int| 0 <= i < fields@.len() && #[trigger] fields@[i].field_type == FieldType::Target)
            && (exists|i: int| 0 <= i < fields@.len() && #[trigger] fields@[i].field_type == FieldType::Canvas),
        r is Some ==> exists|t: int, c: int|
            first_of_type(fields@, FieldType::Target, t) && first_of_type(fields@, FieldType::Canvas, c)
                && r->0 == verdict(
                fields@[t].size_x,
                fields@[t].size_y,
                fields@[t].mowed@,
                fields@[c].mowed@,
            ),
{
    let target = find_field(fields, FieldType::Target);
    let canvas = find_field(fields, FieldType::Canvas);
    match (target, canvas) {
        (Some(t), Some(c)) => {
            assert(first_of_type(fields@, FieldType::Target, t as int));
            assert(first_of_type(fields@, FieldType::Canvas, c as int));
            Some(compare_fields(&fields[t], &fields[c]))
        },
        _ => None,
    }
}

/// The verdict is a function of the two snapshots, and of which cells they
/// mark alone: maps that mark the same cells (whatever explicit `false`
/// entries they hold) give equal verdicts over equal sizes.
pub proof fn lemma_verdict_deterministic(
    size_x: u32,
    size_y: u32,
    target1: MowedCells,
    canvas1: MowedCells,
    target2: MowedCells,
    canvas2: MowedCells,
)
    requires
        forall|k: (i32, i32)| #[trigger] marked(target1, k) == marked(target2, k),
        forall|k: (i32, i32)| #[trigger] marked(canvas1, k) == marked(canvas2, k),
    ensures
        verdict(size_x, size_y, target1, canvas1) == verdict(size_x, size_y, target2, canvas2),
{
    assert(over_mowed(target1, canvas1) == over_mowed(target2, canvas2)) by {
        if over_mowed(target1, canvas1) {
            let k = choose|k: (i32, i32)| #[trigger] marked(canvas1, k) && marked(target1, k);
            assert(marked(canvas2, k) && marked(target2, k));
        }
        if over_mowed(target2, canvas2) {
            let k = choose|k: (i32, i32)| #[trigger] marked(canvas2, k) && marked(target2, k);
            assert(marked(canvas1, k) && marked(target1, k));
        }
    }
    assert(under_mowed(size_x, size_y, target1, canvas1) == under_mowed(size_x, size_y, target2, canvas2)) by {
        if under_mowed(size_x, size_y, target1, canvas1) {
            let k = choose|k: (i32, i32)|
                in_extent(size_x, size_y, k) && !#[trigger] marked(target1, k) && !marked(canvas1, k);
            assert(marked(canvas1, k) == marked(canvas2, k));
            assert(in_extent(size_x, size_y, k) && !marked(target2, k) && !marked(canvas2, k));
        }
        if under_mowed(size_x, size_y, target2, canvas2) {
            let k = choose|k: (i32, i32)|
                in_extent(size_x, size_y, k) && !#[trigger] marked(target2, k) && !marked(canvas2, k);
            assert(marked(canvas1, k) == marked(canvas2, k));
            assert(in_extent(size_x, size_y, k) && !marked(target1, k) && !marked(canvas1, k));
        }
    }
}

/// A blank canvas satisfies a target that marks every cell of its extent.
pub proof fn lemma_full_target_blank_canvas(size_x: u32, size_y: u32, target: MowedCells)
    requires
        forall|k: (i32, i32)| in_extent(size_x, size_y, k) ==> #[trigger] marked(target, k),
    ensures
        verdict(size_x, size_y, target, MowedCells::empty()) == MowResult::Perfect,
{
    assert(!over_mowed(target, MowedCells::empty()));
}

/// A target that marks nothing is satisfied by a canvas that mowed every
/// cell of the extent.
pub proof fn lemma_blank_target_full_canvas(size_x: u32, size_y: u32, canvas: MowedCells)
    requires
        forall|k: (i32, i32)| in_extent(size_x, size_y, k) ==> #[trigger] marked(canvas, k),
    ensures
        verdict(size_x, size_y, MowedCells::empty(), canvas) == MowResult::Perfect,
{
    assert(!over_mowed(MowedCells::empty(), canvas));
    assert(!under_mowed(size_x, size_y, MowedCells::empty(), canvas)) by {
        assert forall|k: (i32, i32)|
            in_extent(size_x, size_y, k) implies #[trigger] marked(MowedCells::empty(), k) || marked(
            canvas,
            k,
        ) by {
            assert(marked(canvas, k));
        }
    }
}

/// A cell marked on both target and canvas makes the verdict `TooMuch`,
/// whatever the other cells hold.
pub proof fn lemma_shared_cell_too_much(
    size_x: u32,
    size_y: u32,
    target: MowedCells,
    canvas: MowedCells,
    k: (i32, i32),
)
    requires
        marked(target, k),
        marked(canvas, k),
    ensures
        verdict(size_x, size_y, target, canvas) == MowResult::TooMuch,
{
    assert(marked(canvas, k) && marked(target, k));
}

/// A cell of the extent marked on neither map makes the verdict
/// `TooLittle`, unless over-mowing is found first.
pub proof fn lemma_missed_cell_too_little(
    size_x: u32,
    size_y: u32,
    target: MowedCells,
    canvas: MowedCells,
    k: (i32, i32),
)
    requires
        in_extent(size_x, size_y, k),
        !marked(target, k),
        !marked(canvas, k),
        !over_mowed(target, canvas),
    ensures
        verdict(size_x, size_y, target, canvas) == MowResult::TooLittle,
{
    assert(in_extent(size_x, size_y, k) && !marked(target, k) && !marked(canvas, k));
}

} // verus!
