use vstd::prelude::*;

use vstd::arithmetic::div_mod::{lemma_fundamental_div_mod, lemma_fundamental_div_mod_converse};

use crate::components::EntityRef;

verus! {

/// A point in world space, in whole world units. Slot centres, and so
/// every position a unit is placed at, are such points.
#[derive(Clone, Copy, Debug, PartialEq, Eq, Structural)]
pub struct WorldPos {
    pub x: i32,
    pub y: i32,
}

/// A (column, row) address of one slot of a grid.
#[derive(Clone, Copy, Debug, PartialEq, Eq, Structural)]
pub struct SlotIndex {
    pub col: usize,
    pub row: usize,
}

/// Which of the three grids a slot or a collision result belongs to.
#[derive(Clone, Copy, Debug, PartialEq, Eq, Structural)]
pub enum CollisionSource {
    Shop,
    Board,
    Reserve,
}

/// What a world point hits: nothing, an empty slot, or an occupied slot.
/// The position is the centre of the slot that was hit, not the point itself.
#[derive(Clone, Copy, Debug, PartialEq, Eq, Structural)]
pub enum Collision {
    Nothing,
    Empty(CollisionSource, WorldPos, SlotIndex),
    Character(CollisionSource, EntityRef, WorldPos, SlotIndex),
}

impl Collision {
    /// This result, or, when it hit nothing, the result of `optb`
    /// (which is only called in that case).
    pub fn or<F: Fn() -> Collision>(self, optb: F) -> (r: Collision)
        requires
            self is Nothing ==> optb.requires(()),
        ensures
            self is Nothing ==> optb.ensures((), r),
            !(self is Nothing) ==> r == self,
    {
        match self {
            Collision::Nothing => optb(),
            _ => self,
        }
    }
}

/// The mathematical content of a grid: its layout and its slots, row by row.
pub struct GridModel {
    pub x: int,
    pub y: int,
    pub size: int,
    pub source: CollisionSource,
    pub cols: nat,
    pub rows: nat,
    pub slots: Seq<Option<EntityRef>>,
}

/// The index along one axis of the cell whose centre is nearest to `p`,
/// that is `floor((p + size / 2 - origin) / size)`.
pub open spec fn axis_index(p: int, origin: int, size: int) -> int {
    (2 * (p - origin) + size) / (2 * size)
}

impl GridModel {
    pub open spec fn wf(self) -> bool {
        &&& self.size > 0
        &&& self.slots.len() == self.cols * self.rows
        &&& i32::MIN <= self.x <= i32::MAX
        &&& i32::MIN <= self.y <= i32::MAX
        &&& self.size <= i32::MAX
        &&& self.cols > 0 ==> self.x + (self.cols - 1) * self.size <= i32::MAX
        &&& self.rows > 0 ==> self.y + (self.rows - 1) * self.size <= i32::MAX
    }

    pub open spec fn valid_index(self, i: SlotIndex) -> bool {
        i.col < self.cols && i.row < self.rows
    }

    /// Position of slot `i` in `slots`.
    pub open spec fn flat(self, i: SlotIndex) -> int {
        i.row * self.cols + i.col
    }

    pub open spec fn slot(self, i: SlotIndex) -> Option<EntityRef> {
        self.slots[self.flat(i)]
    }

    pub open spec fn index_to_center(self, i: SlotIndex) -> WorldPos {
        WorldPos {
            x: (self.x + i.col * self.size) as i32,
            y: (self.y + i.row * self.size) as i32,
        }
    }

    pub open spec fn world_to_index(self, p: WorldPos) -> Option<SlotIndex> {
        let c = axis_index(p.x as int, self.x, self.size);
        let r = axis_index(p.y as int, self.y, self.size);
        if 0 <= c < self.cols && 0 <= r < self.rows {
            Some(SlotIndex { col: c as usize, row: r as usize })
        } else {
            None
        }
    }

    pub open spec fn collide(self, p: WorldPos) -> Collision {
        match self.world_to_index(p) {
            None => Collision::Nothing,
            Some(i) => match self.slot(i) {
                Some(e) => Collision::Character(self.source, e, self.index_to_center(i), i),
                None => Collision::Empty(self.source, self.index_to_center(i), i),
            },
        }
    }

    /// The same grid with slot `i` set to `v`.
    pub open spec fn with_slot(self, i: SlotIndex, v: Option<EntityRef>) -> GridModel {
        GridModel { slots: self.slots.update(self.flat(i), v), ..self }
    }
}

/// Flat positions of valid indices lie inside the slot table.
pub proof fn lemma_flat_in_bounds(g: GridModel, i: SlotIndex)
    requires
        g.wf(),
        g.valid_index(i),
    ensures
        0 <= g.flat(i) < g.slots.len(),
{
    let c = i.col as int;
    let r = i.row as int;
    let n = g.cols as int;
    let m = g.rows as int;
    assert(0 <= r * n + c < n * m) by (nonlinear_arith)
        requires
            0 <= c < n,
            0 <= r < m,
    ;
}

/// Slot centres of a well-formed grid are representable world points.
pub proof fn lemma_center_in_range(g: GridModel, i: SlotIndex)
    requires
        g.wf(),
        g.valid_index(i),
    ensures
        g.index_to_center(i).x == g.x + i.col * g.size,
        g.index_to_center(i).y == g.y + i.row * g.size,
        i.col <= i.col * g.size <= i32::MAX - i32::MIN,
        i.row <= i.row * g.size <= i32::MAX - i32::MIN,
{
    let s = g.size;
    let (c, n) = (i.col as int, g.cols as int);
    let (r, m) = (i.row as int, g.rows as int);
    assert(c <= c * s <= (n - 1) * s) by (nonlinear_arith)
        requires
            0 <= c < n,
            s > 0,
    ;
    assert(r <= r * s <= (m - 1) * s) by (nonlinear_arith)
        requires
            0 <= r < m,
            s > 0,
    ;
}

/// On each axis, the centre of cell `c` lies in cell `c`.
proof fn lemma_axis_index_of_center(origin: int, c: int, s: int)
    requires
        s > 0,
        c >= 0,
    ensures
        axis_index(origin + c * s, origin, s) == c,
{
    assert(2 * (origin + c * s - origin) + s == c * (2 * s) + s) by (nonlinear_arith);
    lemma_fundamental_div_mod_converse(2 * (origin + c * s - origin) + s, 2 * s, c, s);
}

/// The index of the slot whose centre is a given point is that slot.
pub proof fn lemma_index_round_trip(g: GridModel, i: SlotIndex)
    requires
        g.wf(),
        g.valid_index(i),
    ensures
        g.world_to_index(g.index_to_center(i)) == Some(i),
{
    lemma_center_in_range(g, i);
    lemma_axis_index_of_center(g.x, i.col as int, g.size);
    lemma_axis_index_of_center(g.y, i.row as int, g.size);
}

/// A negative numerator gives a negative cell index.
proof fn lemma_axis_index_negative(p: int, origin: int, s: int)
    requires
        s > 0,
        2 * (p - origin) + s < 0,
    ensures
        axis_index(p, origin, s) < 0,
{
    let n = 2 * (p - origin) + s;
    let d = 2 * s;
    lemma_fundamental_div_mod(n, d);
    assert(n / d < 0) by (nonlinear_arith)
        requires
            n < 0,
            d > 0,
            n == d * (n / d) + n % d,
            0 <= n % d < d,
    ;
}

/// A table of `X` columns and `Y` rows of slots, each empty or holding
/// one entity handle. Slot `(col, row)` is centred on
/// `(x + col * entity_size, y + row * entity_size)`.
pub struct Grid<const X: usize, const Y: usize> {
    pub x: i32,
    pub y: i32,
    pub collision_source: CollisionSource,
    pub entity_size: i32,
    pub entities: Vec<Option<EntityRef>>,
}

impl<const X: usize, const Y: usize> View for Grid<X, Y> {
    type V = GridModel;

    open spec fn view(&self) -> GridModel {
        GridModel {
            x: self.x as int,
            y: self.y as int,
            size: self.entity_size as int,
            source: self.collision_source,
            cols: X as nat,
            rows: Y as nat,
            slots: self.entities@,
        }
    }
}

impl<const X: usize, const Y: usize> Grid<X, Y> {
    pub open spec fn wf(&self) -> bool {
        self@.wf()
    }

    /// An empty grid with slot (0, 0) centred on `(x, y)`.
    pub fn new(x: i32, y: i32, collision_source: CollisionSource, entity_size: i32) -> (g: Self)
        requires
            entity_size > 0,
            X * Y <= usize::MAX,
            X > 0 ==> x + (X - 1) * entity_size <= i32::MAX,
            Y > 0 ==> y + (Y - 1) * entity_size <= i32::MAX,
        ensures
            g.wf(),
            g.x == x,
            g.y == y,
            g.collision_source == collision_source,
            g.entity_size == entity_size,
            forall|k: int| 0 <= k < g@.slots.len() ==> g@.slots[k] is None,
    {
        let n: usize = X * Y;
        let mut entities: Vec<Option<EntityRef>> = Vec::new();
        let mut k: usize = 0;
        while k < n
            invariant
                k <= n,
                n == X * Y,
                entities@.len() == k,
                forall|j: int| 0 <= j < k ==> entities@[j] is None,
            decreases n - k,
        {
            entities.push(None);
            k = k + 1;
        }
        Grid { x, y, collision_source, entity_size, entities }
    }

    /// Where slot `i` lies in `entities`.
    fn flat_index(&self, i: SlotIndex) -> (k: usize)
        requires
            self.wf(),
            self@.valid_index(i),
        ensures
            k == self@.flat(i),
            k < self.entities@.len(),
    {
        let n = self.entities.len();
        proof {
            lemma_flat_in_bounds(self@, i);
            assert(i.row * X + i.col < n);
        }
        i.row * X + i.col
    }

    /// The slot whose centre is nearest to `p`, if `p` lies inside the grid.
    pub fn world_to_index(&self, p: WorldPos) -> (r: Option<SlotIndex>)
        requires
            self.wf(),
        ensures
            r == self@.world_to_index(p),
    {
        let s: i64 = self.entity_size as i64;
        let nx: i64 = 2 * (p.x as i64 - self.x as i64) + s;
        let ny: i64 = 2 * (p.y as i64 - self.y as i64) + s;
        if nx < 0 {
            proof {
                lemma_axis_index_negative(p.x as int, self.x as int, s as int);
            }
            return None;
        }
        if ny < 0 {
            proof {
                lemma_axis_index_negative(p.y as int, self.y as int, s as int);
            }
            return None;
        }
        let c: u64 = (nx as u64) / ((2 * s) as u64);
        let r: u64 = (ny as u64) / ((2 * s) as u64);
        if c < X as u64 && r < Y as u64 {
            Some(SlotIndex { col: c as usize, row: r as usize })
        } else {
            None
        }
    }

    /// The centre of slot `i`.
    pub fn index_to_center(&self, i: SlotIndex) -> (p: WorldPos)
        requires
            self.wf(),
            self@.valid_index(i),
        ensures
            p == self@.index_to_center(i),
    {
        proof {
            lemma_center_in_range(self@, i);
        }
        let s: i64 = self.entity_size as i64;
        let cx: i64 = self.x as i64 + (i.col as i64) * s;
        let cy: i64 = self.y as i64 + (i.row as i64) * s;
        WorldPos { x: cx as i32, y: cy as i32 }
    }

    /// What occupies slot `i`.
    pub fn get(&self, i: SlotIndex) -> (r: Option<EntityRef>)
        requires
            self.wf(),
            self@.valid_index(i),
        ensures
            r == self@.slot(i),
    {
        let k = self.flat_index(i);
        self.entities[k]
    }

    /// What the point `point` hits in this grid.
    pub fn collide(&self, point: WorldPos) -> (r: Collision)
        requires
            self.wf(),
        ensures
            r == self@.collide(point),
    {
        match self.world_to_index(point) {
            None => Collision::Nothing,
            Some(i) => {
                let pos = self.index_to_center(i);
                match self.get(i) {
                    Some(e) => Collision::Character(self.collision_source, e, pos, i),
                    None => Collision::Empty(self.collision_source, pos, i),
                }
            },
        }
    }

    /// Empties slot `i`, whatever it held.
    pub fn remove(&mut self, i: SlotIndex)
        requires
            old(self).wf(),
            old(self)@.valid_index(i),
        ensures
            final(self).wf(),
            final(self)@ == old(self)@.with_slot(i, None),
    {
        let k = self.flat_index(i);
        self.entities[k] = None;
    }

    /// Puts `entity` in slot `i`, replacing whatever it held.
    pub fn add(&mut self, i: SlotIndex, entity: EntityRef)
        requires
            old(self).wf(),
            old(self)@.valid_index(i),
        ensures
            final(self).wf(),
            final(self)@ == old(self)@.with_slot(i, Some(entity)),
    {
        let k = self.flat_index(i);
        self.entities[k] = Some(entity);
    }
}

} // verus!
