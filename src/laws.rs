use vstd::prelude::*;

use crate::components::{Characters, EntityRef};
use crate::grid::{lemma_flat_in_bounds, Collision, CollisionSource, GridModel, SlotIndex, WorldPos};
use crate::resources::{FieldModel, SelectionStart};
use crate::systems::{collide_all, commits, no_feedback, step, Input, PurchaseSystem};

verus! {

/// Whether the tick with input `input` places the dragged unit.
pub open spec fn places(sel: Option<SelectionStart>, f: FieldModel, units: Characters, input: Input) -> bool {
    &&& sel is Some
    &&& !input.button_down
    &&& input.position is Some
    &&& commits(sel->0, f, units, input.position->0)
}

/// A hit on an occupied slot names a valid slot of the grid, its occupant and its centre.
pub proof fn lemma_collide_hit(g: GridModel, p: WorldPos)
    requires
        g.wf(),
    ensures
        g.collide(p) matches Collision::Character(src, e, pos, i) ==> {
            &&& src == g.source
            &&& g.valid_index(i)
            &&& g.slot(i) == Some(e)
            &&& pos == g.index_to_center(i)
        },
        g.collide(p) matches Collision::Empty(src, pos, i) ==> {
            &&& src == g.source
            &&& g.valid_index(i)
            &&& g.slot(i) is None
            &&& pos == g.index_to_center(i)
        },
{
}

/// What the three grids report, they report of themselves.
pub proof fn lemma_collide_all_hit(f: FieldModel, p: WorldPos)
    requires
        f.wf(),
    ensures
        collide_all(f, p) matches Collision::Character(src, e, pos, i) ==> {
            &&& f.grid(src).valid_index(i)
            &&& f.grid(src).slot(i) == Some(e)
            &&& pos == f.grid(src).index_to_center(i)
        },
        collide_all(f, p) matches Collision::Empty(src, pos, i) ==> {
            &&& f.grid(src).valid_index(i)
            &&& f.grid(src).slot(i) is None
            &&& pos == f.grid(src).index_to_center(i)
        },
{
    lemma_collide_hit(f.shop, p);
    lemma_collide_hit(f.board, p);
    lemma_collide_hit(f.reserve, p);
}

/// Setting one slot changes that slot of that grid and nothing else.
pub proof fn lemma_with_slot_grid(f: FieldModel, src: CollisionSource, i: SlotIndex, v: Option<EntityRef>, a: CollisionSource)
    ensures
        f.with_slot(src, i, v).grid(a) == (if a == src {
            f.grid(a).with_slot(i, v)
        } else {
            f.grid(a)
        }),
        f.with_slot(src, i, v).gold == f.gold,
        f.with_slot(src, i, v).text == f.text,
{
}

/// Setting a valid slot keeps the field well formed.
pub proof fn lemma_with_slot_wf(f: FieldModel, src: CollisionSource, i: SlotIndex, v: Option<EntityRef>)
    requires
        f.wf(),
        f.grid(src).valid_index(i),
    ensures
        f.with_slot(src, i, v).wf(),
{
    lemma_flat_in_bounds(f.grid(src), i);
    lemma_with_slot_grid(f, src, i, v, CollisionSource::Shop);
    lemma_with_slot_grid(f, src, i, v, CollisionSource::Board);
    lemma_with_slot_grid(f, src, i, v, CollisionSource::Reserve);
}

/// Emptying a slot keeps units exclusive.
pub proof fn lemma_clear_keeps_exclusive(f: FieldModel, src: CollisionSource, i: SlotIndex)
    requires
        f.wf(),
        f.exclusive(),
        f.grid(src).valid_index(i),
    ensures
        f.with_slot(src, i, None).exclusive(),
{
    let g = f.with_slot(src, i, None);
    let k = f.grid(src).flat(i);
    lemma_flat_in_bounds(f.grid(src), i);
    assert forall|a: CollisionSource, x: int, b: CollisionSource, y: int|
        0 <= x < g.grid(a).slots.len() && 0 <= y < g.grid(b).slots.len()
            && #[trigger] g.grid(a).slots[x] is Some
            && g.grid(a).slots[x] == #[trigger] g.grid(b).slots[y] implies a == b && x == y by {
        lemma_with_slot_grid(f, src, i, None, a);
        lemma_with_slot_grid(f, src, i, None, b);
        if !(a == src && x == k) && !(b == src && y == k) {
            assert(f.grid(a).slots[x] == g.grid(a).slots[x]);
            assert(f.grid(b).slots[y] == g.grid(b).slots[y]);
        }
    }
}

/// Filling an empty slot with a unit that stands nowhere keeps units exclusive.
pub proof fn lemma_fill_keeps_exclusive(f: FieldModel, dest: CollisionSource, i: SlotIndex, e: EntityRef)
    requires
        f.wf(),
        f.exclusive(),
        f.grid(dest).valid_index(i),
        forall|a: CollisionSource, x: int| 0 <= x < f.grid(a).slots.len() ==> f.grid(a).slots[x] != Some(e),
    ensures
        f.with_slot(dest, i, Some(e)).exclusive(),
{
    let g = f.with_slot(dest, i, Some(e));
    let k = f.grid(dest).flat(i);
    lemma_flat_in_bounds(f.grid(dest), i);
    assert forall|a: CollisionSource, x: int, b: CollisionSource, y: int|
        0 <= x < g.grid(a).slots.len() && 0 <= y < g.grid(b).slots.len()
            && #[trigger] g.grid(a).slots[x] is Some
            && g.grid(a).slots[x] == #[trigger] g.grid(b).slots[y] implies a == b && x == y by {
        lemma_with_slot_grid(f, dest, i, Some(e), a);
        lemma_with_slot_grid(f, dest, i, Some(e), b);
        let new_a = a == dest && x == k;
        let new_b = b == dest && y == k;
        if !new_a && !new_b {
            assert(f.grid(a).slots[x] == g.grid(a).slots[x]);
            assert(f.grid(b).slots[y] == g.grid(b).slots[y]);
        } else if new_a && !new_b {
            assert(f.grid(b).slots[y] == g.grid(b).slots[y]);
        } else if !new_a && new_b {
            assert(f.grid(a).slots[x] == g.grid(a).slots[x]);
        }
    }
}

/// A tick keeps the drag state consistent with the field.
pub proof fn lemma_step_consistent(sel: Option<SelectionStart>, f: FieldModel, units: Characters, input: Input)
    requires
        (PurchaseSystem { selection: sel }).consistent(f),
    ensures
        (PurchaseSystem { selection: step(sel, f, units, input).0 }).consistent(step(sel, f, units, input).1),
{
    if let Some(p) = input.position {
        lemma_collide_all_hit(f, p);
        if places(sel, f, units, input) {
            let s = sel->0;
            if let Collision::Empty(dest, pos, i) = collide_all(f, p) {
                let f1 = f.with_slot(s.collision_source, s.start_index, None);
                lemma_with_slot_wf(f, s.collision_source, s.start_index, None);
                lemma_with_slot_grid(f, s.collision_source, s.start_index, None, dest);
                lemma_with_slot_wf(f1, dest, i, Some(s.character));
            }
        }
    }
}

/// A tick never lets one unit occupy two slots.
pub proof fn lemma_step_exclusive(sel: Option<SelectionStart>, f: FieldModel, units: Characters, input: Input)
    requires
        (PurchaseSystem { selection: sel }).consistent(f),
        f.exclusive(),
    ensures
        step(sel, f, units, input).1.exclusive(),
{
    if let Some(p) = input.position {
        lemma_collide_all_hit(f, p);
        if places(sel, f, units, input) {
            let s = sel->0;
            if let Collision::Empty(dest, pos, i) = collide_all(f, p) {
                let src = s.collision_source;
                let k0 = f.grid(src).flat(s.start_index);
                lemma_flat_in_bounds(f.grid(src), s.start_index);
                let f1 = f.with_slot(src, s.start_index, None);
                lemma_clear_keeps_exclusive(f, src, s.start_index);
                lemma_with_slot_wf(f, src, s.start_index, None);
                assert forall|a: CollisionSource, x: int| 0 <= x < f1.grid(a).slots.len() implies f1.grid(a).slots[x] != Some(s.character) by {
                    lemma_with_slot_grid(f, src, s.start_index, None, a);
                    if !(a == src && x == k0) {
                        assert(f1.grid(a).slots[x] == f.grid(a).slots[x]);
                        if f.grid(a).slots[x] == Some(s.character) {
                            assert(f.grid(src).slots[k0] == Some(s.character));
                        }
                    }
                }
                lemma_with_slot_grid(f, src, s.start_index, None, dest);
                if dest == src && i == s.start_index {
                    assert(f.grid(src).slot(i) is None);
                }
                lemma_fill_keeps_exclusive(f1, dest, i, s.character);
                let f2 = f1.with_slot(dest, i, Some(s.character));
                let g = step(sel, f, units, input).1;
                assert(g.shop == f2.shop && g.board == f2.board && g.reserve == f2.reserve);
                assert forall|a: CollisionSource| #[trigger] g.grid(a) == f2.grid(a) by {}
            }
        }
    }
}

/// Pressing on a shop unit that costs more than the balance starts no drag
/// and changes nothing.
pub proof fn lemma_unaffordable_stays_idle(f: FieldModel, units: Characters, p: WorldPos)
    requires
        ({
            &&& collide_all(f, p) matches Collision::Character(src, e, _, _)
            &&& src == CollisionSource::Shop
            &&& units.cost_of(e) matches Some(c)
            &&& c > f.gold
        }),
    ensures
        step(None, f, units, Input { position: Some(p), button_down: true }) == (None::<SelectionStart>, f, no_feedback()),
{
}

/// A tick that places a unit bought from the shop lowers the balance by
/// exactly its cost; every other tick leaves the balance as it was.
pub proof fn lemma_debit_exact(sel: Option<SelectionStart>, f: FieldModel, units: Characters, input: Input)
    requires
        (PurchaseSystem { selection: sel }).consistent(f),
    ensures
        places(sel, f, units, input) && sel->0.collision_source == CollisionSource::Shop
            ==> step(sel, f, units, input).1.gold == f.gold - units.cost_of(sel->0.character)->0,
        !(places(sel, f, units, input) && sel->0.collision_source == CollisionSource::Shop)
            ==> step(sel, f, units, input).1.gold == f.gold,
{
    if places(sel, f, units, input) {
        let s = sel->0;
        let p = input.position->0;
        if let Collision::Empty(dest, pos, i) = collide_all(f, p) {
            let f1 = f.with_slot(s.collision_source, s.start_index, None);
            lemma_with_slot_grid(f, s.collision_source, s.start_index, None, dest);
            lemma_with_slot_grid(f1, dest, i, Some(s.character), dest);
        }
    }
}

/// No tick puts a unit into a shop slot: a shop slot after a tick is
/// empty or holds what it held before.
pub proof fn lemma_shop_never_gains(sel: Option<SelectionStart>, f: FieldModel, units: Characters, input: Input)
    requires
        (PurchaseSystem { selection: sel }).consistent(f),
    ensures
        forall|k: int| 0 <= k < step(sel, f, units, input).1.shop.slots.len()
            && #[trigger] step(sel, f, units, input).1.shop.slots[k] is Some
            ==> step(sel, f, units, input).1.shop.slots[k] == f.shop.slots[k],
        step(sel, f, units, input).1.shop.slots.len() == f.shop.slots.len(),
{
    if places(sel, f, units, input) {
        let s = sel->0;
        let p = input.position->0;
        if let Collision::Empty(dest, pos, i) = collide_all(f, p) {
            let f1 = f.with_slot(s.collision_source, s.start_index, None);
            lemma_collide_all_hit(f, p);
            lemma_flat_in_bounds(f.grid(s.collision_source), s.start_index);
            lemma_with_slot_grid(f, s.collision_source, s.start_index, None, CollisionSource::Shop);
            lemma_with_slot_grid(f, s.collision_source, s.start_index, None, dest);
            lemma_with_slot_grid(f1, dest, i, Some(s.character), CollisionSource::Shop);
        }
    }
}

/// A tick that does not place the dragged unit leaves every grid and the
/// balance as they were: pressing, following the pointer and cancelling a
/// drag change nothing.
pub proof fn lemma_only_placing_changes_field(sel: Option<SelectionStart>, f: FieldModel, units: Characters, input: Input)
    requires
        !places(sel, f, units, input),
    ensures
        step(sel, f, units, input).1 == f,
{
}

/// A field whose board and reserve are empty and whose shop holds
/// distinct units has no unit in two slots.
pub proof fn lemma_fresh_field_exclusive(f: FieldModel, stock: Seq<EntityRef>)
    requires
        f.wf(),
        stock.no_duplicates(),
        stock.len() <= f.shop.slots.len(),
        forall|k: int| 0 <= k < stock.len() ==> f.shop.slots[k] == Some(stock[k]),
        forall|k: int| stock.len() <= k < f.shop.slots.len() ==> f.shop.slots[k] is None,
        forall|k: int| 0 <= k < f.board.slots.len() ==> f.board.slots[k] is None,
        forall|k: int| 0 <= k < f.reserve.slots.len() ==> f.reserve.slots[k] is None,
    ensures
        f.exclusive(),
{
    assert forall|a: CollisionSource, x: int, b: CollisionSource, y: int|
        0 <= x < f.grid(a).slots.len() && 0 <= y < f.grid(b).slots.len()
            && #[trigger] f.grid(a).slots[x] is Some
            && f.grid(a).slots[x] == #[trigger] f.grid(b).slots[y] implies a == b && x == y by {
        if x < stock.len() && y < stock.len() {
            assert(stock[x] == stock[y]);
        }
    }
}

/// The drag state and field after the ticks `inputs`, one after another.
pub open spec fn ticks(sel: Option<SelectionStart>, f: FieldModel, units: Characters, inputs: Seq<Input>) -> (
    Option<SelectionStart>,
    FieldModel,
)
    decreases inputs.len(),
{
    if inputs.len() == 0 {
        (sel, f)
    } else {
        let r = step(sel, f, units, inputs[0]);
        ticks(r.0, r.1, units, inputs.drop_first())
    }
}

/// Whether one of the ticks `inputs` places a unit.
pub open spec fn places_during(sel: Option<SelectionStart>, f: FieldModel, units: Characters, inputs: Seq<Input>) -> bool
    decreases inputs.len(),
{
    if inputs.len() == 0 {
        false
    } else {
        let r = step(sel, f, units, inputs[0]);
        places(sel, f, units, inputs[0]) || places_during(r.0, r.1, units, inputs.drop_first())
    }
}

/// However many ticks run, no unit ever occupies two slots and the drag
/// state keeps fitting the field.
pub proof fn lemma_ticks_exclusive(sel: Option<SelectionStart>, f: FieldModel, units: Characters, inputs: Seq<Input>)
    requires
        (PurchaseSystem { selection: sel }).consistent(f),
        f.exclusive(),
    ensures
        ticks(sel, f, units, inputs).1.exclusive(),
        (PurchaseSystem { selection: ticks(sel, f, units, inputs).0 }).consistent(ticks(sel, f, units, inputs).1),
    decreases inputs.len(),
{
    if inputs.len() > 0 {
        let r = step(sel, f, units, inputs[0]);
        lemma_step_consistent(sel, f, units, inputs[0]);
        lemma_step_exclusive(sel, f, units, inputs[0]);
        lemma_ticks_exclusive(r.0, r.1, units, inputs.drop_first());
    }
}

/// Ticks of which none places a unit, such as a whole drag that ends by
/// being cancelled, leave every grid and the balance as they were before
/// the first of them.
pub proof fn lemma_cancelled_ticks_change_nothing(sel: Option<SelectionStart>, f: FieldModel, units: Characters, inputs: Seq<Input>)
    requires
        !places_during(sel, f, units, inputs),
    ensures
        ticks(sel, f, units, inputs).1 == f,
    decreases inputs.len(),
{
    if inputs.len() > 0 {
        let r = step(sel, f, units, inputs[0]);
        lemma_only_placing_changes_field(sel, f, units, inputs[0]);
        lemma_cancelled_ticks_change_nothing(r.0, r.1, units, inputs.drop_first());
    }
}

/// However many ticks run, a shop slot is empty or holds the unit that it
/// held before the first of them.
pub proof fn lemma_ticks_shop_never_gains(sel: Option<SelectionStart>, f: FieldModel, units: Characters, inputs: Seq<Input>)
    requires
        (PurchaseSystem { selection: sel }).consistent(f),
    ensures
        ticks(sel, f, units, inputs).1.shop.slots.len() == f.shop.slots.len(),
        forall|k: int| 0 <= k < f.shop.slots.len() && #[trigger] ticks(sel, f, units, inputs).1.shop.slots[k] is Some
            ==> ticks(sel, f, units, inputs).1.shop.slots[k] == f.shop.slots[k],
    decreases inputs.len(),
{
    if inputs.len() > 0 {
        let r = step(sel, f, units, inputs[0]);
        lemma_step_consistent(sel, f, units, inputs[0]);
        lemma_shop_never_gains(sel, f, units, inputs[0]);
        lemma_ticks_shop_never_gains(r.0, r.1, units, inputs.drop_first());
        let g = ticks(sel, f, units, inputs).1;
        assert forall|k: int| 0 <= k < f.shop.slots.len() && #[trigger] g.shop.slots[k] is Some implies g.shop.slots[k] == f.shop.slots[k] by {
            assert(g.shop.slots[k] == r.1.shop.slots[k]);
        }
    }
}

} // verus!
