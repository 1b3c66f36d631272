use vstd::prelude::*;

use crate::components::{Character, Characters, EntityRef};
use crate::grid::{CollisionSource, Grid, GridModel, SlotIndex, WorldPos};

verus! {

/// The gold a player starts a session with.
pub const STARTING_GOLD: u8 = 10;

/// What each unit in the starting shop costs.
pub const UNIT_COST: u8 = 1;

/// Edge length of one slot, in world units.
pub const SLOT_SIZE: i32 = 48;

/// The player's purse: the balance and the text element that shows it.
#[derive(Clone, Copy, Debug, PartialEq, Eq, Structural)]
pub struct Money {
    pub gold: u8,
    pub text: EntityRef,
}

/// The coordinate of the first of `count` cells of edge `size` laid out
/// side by side so that the row is centred on `center`.
pub open spec fn centered_origin(center: int, count: int, size: int) -> int {
    center - ((count - 1) * size) / 2
}

/// Origin of a row of eight slots centred on `center`.
fn row_origin(center: i32) -> (r: i32)
    requires
        0 <= center,
    ensures
        r == centered_origin(center as int, 8, SLOT_SIZE as int),
{
    center - (7 * SLOT_SIZE) / 2
}

impl Money {
    /// A purse holding the starting gold, shown in the text element `text`.
    pub fn new(text: EntityRef) -> (r: Money)
        ensures
            r.gold == STARTING_GOLD,
            r.text == text,
    {
        Money { gold: STARTING_GOLD, text }
    }
}

/// The row of units that can be bought.
pub struct Shop {
    pub grid: Grid<8, 1>,
}

/// The battlefield.
pub struct Board {
    pub grid: Grid<8, 8>,
}

/// The row of owned units that are not on the board.
pub struct Reserve {
    pub grid: Grid<8, 1>,
}

impl Shop {
    /// An empty shop row along the top edge of a screen of the given size,
    /// centred horizontally.
    pub fn new(screen_width: i32, screen_height: i32) -> (r: Shop)
        requires
            0 <= screen_width,
            0 <= screen_height,
        ensures
            r.grid.wf(),
            r.grid@.source == CollisionSource::Shop,
            r.grid@.size == SLOT_SIZE,
            r.grid@.x == centered_origin(screen_width / 2, 8, SLOT_SIZE as int),
            r.grid@.y == screen_height - SLOT_SIZE,
            forall|k: int| 0 <= k < r.grid@.slots.len() ==> r.grid@.slots[k] is None,
    {
        let x = row_origin(screen_width / 2);
        Shop { grid: Grid::new(x, screen_height - SLOT_SIZE, CollisionSource::Shop, SLOT_SIZE) }
    }

    /// Puts the units of `stock` in the first slots of an empty shop, in
    /// order, and records each as a unit costing `cost`.
    pub fn stock(&mut self, characters: &mut Characters, stock: &Vec<EntityRef>, cost: u8)
        requires
            old(self).grid.wf(),
            forall|k: int| 0 <= k < old(self).grid@.slots.len() ==> old(self).grid@.slots[k] is None,
            stock@.len() <= 8,
            stock@.no_duplicates(),
        ensures
            final(self).grid.wf(),
            final(self).grid@ == (GridModel { slots: final(self).grid@.slots, ..old(self).grid@ }),
            forall|k: int| 0 <= k < stock@.len() ==> final(self).grid@.slots[k] == Some(stock@[k]),
            forall|k: int| stock@.len() <= k < 8 ==> final(self).grid@.slots[k] is None,
            forall|k: int| 0 <= k < stock@.len() ==> final(characters).cost_of(#[trigger] stock@[k]) == Some(cost),
            forall|o: EntityRef| !stock@.contains(o) ==> final(characters).cost_of(o) == old(characters).cost_of(o),
    {
        let mut k: usize = 0;
        while k < stock.len()
            invariant
                k <= stock@.len() <= 8,
                stock@.no_duplicates(),
                self.grid.wf(),
                self.grid@ == (GridModel { slots: self.grid@.slots, ..old(self).grid@ }),
                forall|j: int| 0 <= j < k ==> self.grid@.slots[j] == Some(stock@[j]),
                forall|j: int| k <= j < 8 ==> self.grid@.slots[j] is None,
                forall|j: int| 0 <= j < k ==> characters.cost_of(#[trigger] stock@[j]) == Some(cost),
                forall|o: EntityRef| !stock@.subrange(0, k as int).contains(o) ==> characters.cost_of(o) == old(characters).cost_of(o),
            decreases stock@.len() - k,
        {
            let e = stock[k];
            self.grid.add(SlotIndex { col: k, row: 0 }, e);
            characters.insert(e, Character { cost });
            proof {
                assert forall|o: EntityRef| !stock@.subrange(0, k + 1).contains(o) implies !stock@.subrange(0, k as int).contains(o) && o != e by {
                    if stock@.subrange(0, k as int).contains(o) {
                        let j = choose|j: int| 0 <= j < k && stock@.subrange(0, k as int)[j] == o;
                        assert(stock@.subrange(0, k + 1)[j] == o);
                    }
                    assert(stock@.subrange(0, k + 1)[k as int] == e);
                }
            }
            k = k + 1;
        }
        proof {
            assert(stock@.subrange(0, stock@.len() as int) =~= stock@);
        }
    }
}

impl Board {
    /// An empty eight by eight board centred on a screen of the given size.
    pub fn new(screen_width: i32, screen_height: i32) -> (r: Board)
        requires
            0 <= screen_width,
            0 <= screen_height,
        ensures
            r.grid.wf(),
            r.grid@.source == CollisionSource::Board,
            r.grid@.size == SLOT_SIZE,
            r.grid@.x == centered_origin(screen_width / 2, 8, SLOT_SIZE as int),
            r.grid@.y == centered_origin(screen_height / 2, 8, SLOT_SIZE as int),
            forall|k: int| 0 <= k < r.grid@.slots.len() ==> r.grid@.slots[k] is None,
    {
        let x = row_origin(screen_width / 2);
        let y = row_origin(screen_height / 2);
        Board { grid: Grid::new(x, y, CollisionSource::Board, SLOT_SIZE) }
    }
}

impl Reserve {
    /// An empty reserve row along the bottom edge of a screen of the given
    /// width, centred horizontally.
    pub fn new(screen_width: i32) -> (r: Reserve)
        requires
            0 <= screen_width,
        ensures
            r.grid.wf(),
            r.grid@.source == CollisionSource::Reserve,
            r.grid@.size == SLOT_SIZE,
            r.grid@.x == centered_origin(screen_width / 2, 8, SLOT_SIZE as int),
            r.grid@.y == SLOT_SIZE,
            forall|k: int| 0 <= k < r.grid@.slots.len() ==> r.grid@.slots[k] is None,
    {
        let x = row_origin(screen_width / 2);
        Reserve { grid: Grid::new(x, SLOT_SIZE, CollisionSource::Reserve, SLOT_SIZE) }
    }
}

/// A drag in progress: where the unit was picked up and what it is.
#[derive(Clone, Copy, Debug, PartialEq, Eq, Structural)]
pub struct SelectionStart {
    pub collision_source: CollisionSource,
    pub character: EntityRef,
    pub start_pos: WorldPos,
    pub start_index: SlotIndex,
}

/// The three grids and the purse, as mathematical values.
pub struct FieldModel {
    pub shop: GridModel,
    pub board: GridModel,
    pub reserve: GridModel,
    pub gold: u8,
    pub text: EntityRef,
}

pub open spec fn field_model(shop: &Shop, board: &Board, reserve: &Reserve, money: &Money) -> FieldModel {
    FieldModel {
        shop: shop.grid@,
        board: board.grid@,
        reserve: reserve.grid@,
        gold: money.gold,
        text: money.text,
    }
}

impl FieldModel {
    /// Each grid is well formed and carries its own tag.
    pub open spec fn wf(self) -> bool {
        &&& self.shop.wf()
        &&& self.board.wf()
        &&& self.reserve.wf()
        &&& self.shop.source == CollisionSource::Shop
        &&& self.board.source == CollisionSource::Board
        &&& self.reserve.source == CollisionSource::Reserve
    }

    pub open spec fn grid(self, src: CollisionSource) -> GridModel {
        match src {
            CollisionSource::Shop => self.shop,
            CollisionSource::Board => self.board,
            CollisionSource::Reserve => self.reserve,
        }
    }

    pub open spec fn with_grid(self, src: CollisionSource, g: GridModel) -> FieldModel {
        match src {
            CollisionSource::Shop => FieldModel { shop: g, ..self },
            CollisionSource::Board => FieldModel { board: g, ..self },
            CollisionSource::Reserve => FieldModel { reserve: g, ..self },
        }
    }

    /// The same field with slot `i` of grid `src` set to `v`.
    pub open spec fn with_slot(self, src: CollisionSource, i: SlotIndex, v: Option<EntityRef>) -> FieldModel {
        self.with_grid(src, self.grid(src).with_slot(i, v))
    }

    /// The drag `s` starts from a slot that still holds the dragged unit.
    pub open spec fn holds_selection(self, s: SelectionStart) -> bool {
        let g = self.grid(s.collision_source);
        &&& g.valid_index(s.start_index)
        &&& g.slot(s.start_index) == Some(s.character)
        &&& s.start_pos == g.index_to_center(s.start_index)
    }

    /// No unit occupies two slots, in one grid or across grids.
    pub open spec fn exclusive(self) -> bool {
        forall|a: CollisionSource, i: int, b: CollisionSource, j: int|
            0 <= i < self.grid(a).slots.len() && 0 <= j < self.grid(b).slots.len()
                && #[trigger] self.grid(a).slots[i] is Some
                && self.grid(a).slots[i] == #[trigger] self.grid(b).slots[j] ==> a == b && i == j
    }
}

/// Adds `entity` to slot `i` of the grid tagged `dest`.
pub(crate) fn add_to(shop: &mut Shop, board: &mut Board, reserve: &mut Reserve, dest: CollisionSource, i: SlotIndex, entity: EntityRef)
    requires
        old(shop).grid.wf(),
        old(board).grid.wf(),
        old(reserve).grid.wf(),
        match dest {
            CollisionSource::Shop => old(shop).grid@.valid_index(i),
            CollisionSource::Board => old(board).grid@.valid_index(i),
            CollisionSource::Reserve => old(reserve).grid@.valid_index(i),
        },
    ensures
        final(shop).grid.wf(),
        final(board).grid.wf(),
        final(reserve).grid.wf(),
        final(shop).grid@ == (if dest == CollisionSource::Shop { old(shop).grid@.with_slot(i, Some(entity)) } else { old(shop).grid@ }),
        final(board).grid@ == (if dest == CollisionSource::Board { old(board).grid@.with_slot(i, Some(entity)) } else { old(board).grid@ }),
        final(reserve).grid@ == (if dest == CollisionSource::Reserve { old(reserve).grid@.with_slot(i, Some(entity)) } else { old(reserve).grid@ }),
{
    match dest {
        CollisionSource::Shop => shop.grid.add(i, entity),
        CollisionSource::Board => board.grid.add(i, entity),
        CollisionSource::Reserve => reserve.grid.add(i, entity),
    }
}

/// Empties slot `i` of the grid tagged `src`.
pub(crate) fn remove_from(shop: &mut Shop, board: &mut Board, reserve: &mut Reserve, src: CollisionSource, i: SlotIndex)
    requires
        old(shop).grid.wf(),
        old(board).grid.wf(),
        old(reserve).grid.wf(),
        match src {
            CollisionSource::Shop => old(shop).grid@.valid_index(i),
            CollisionSource::Board => old(board).grid@.valid_index(i),
            CollisionSource::Reserve => old(reserve).grid@.valid_index(i),
        },
    ensures
        final(shop).grid.wf(),
        final(board).grid.wf(),
        final(reserve).grid.wf(),
        final(shop).grid@ == (if src == CollisionSource::Shop { old(shop).grid@.with_slot(i, None) } else { old(shop).grid@ }),
        final(board).grid@ == (if src == CollisionSource::Board { old(board).grid@.with_slot(i, None) } else { old(board).grid@ }),
        final(reserve).grid@ == (if src == CollisionSource::Reserve { old(reserve).grid@.with_slot(i, None) } else { old(reserve).grid@ }),
{
    match src {
        CollisionSource::Shop => shop.grid.remove(i),
        CollisionSource::Board => board.grid.remove(i),
        CollisionSource::Reserve => reserve.grid.remove(i),
    }
}

} // verus!
