use autobattler_placement::components::{Character, Characters, EntityRef};
use autobattler_placement::grid::{SlotIndex, WorldPos};
use autobattler_placement::resources::{Board, Money, Reserve, Shop};
use autobattler_placement::systems::{Feedback, Input, MoveTo, PurchaseSystem, ShowBalance};

struct Game {
    units: Characters,
    shop: Shop,
    board: Board,
    reserve: Reserve,
    money: Money,
    system: PurchaseSystem,
}

fn unit(id: u32) -> EntityRef {
    EntityRef { id, generation: 3 }
}

fn at(col: usize, row: usize) -> SlotIndex {
    SlotIndex { col, row }
}

const NOTHING: Feedback = Feedback { position: None, balance_text: None };

/// Shop units 0 to 7 cost 1, 2, ..., 8.
fn game() -> Game {
    let mut units = Characters::new();
    let mut shop = Shop::new(1000, 800);
    let stock: Vec<EntityRef> = (0..8).map(unit).collect();
    shop.stock(&mut units, &stock, 1);
    for id in 0..8u32 {
        units.insert(unit(id), Character { cost: id as u8 + 1 });
    }
    Game {
        units,
        shop,
        board: Board::new(1000, 800),
        reserve: Reserve::new(1000),
        money: Money::new(EntityRef { id: 99, generation: 0 }),
        system: PurchaseSystem::new(),
    }
}

impl Game {
    fn tick(&mut self, position: Option<WorldPos>, button_down: bool) -> Feedback {
        self.system.run(
            &self.units,
            &mut self.shop,
            &mut self.board,
            &mut self.reserve,
            &mut self.money,
            Input { position, button_down },
        )
    }

    fn drag(&mut self, from: WorldPos, to: WorldPos) -> Feedback {
        self.tick(Some(from), true);
        self.tick(Some(to), false)
    }

    fn shop_at(&self, col: usize) -> WorldPos {
        self.shop.grid.index_to_center(at(col, 0))
    }

    fn board_at(&self, col: usize, row: usize) -> WorldPos {
        self.board.grid.index_to_center(at(col, row))
    }

    fn reserve_at(&self, col: usize) -> WorldPos {
        self.reserve.grid.index_to_center(at(col, 0))
    }

    fn placements(&self, e: EntityRef) -> usize {
        let s = self.shop.grid.entities.iter().filter(|o| **o == Some(e)).count();
        let b = self.board.grid.entities.iter().filter(|o| **o == Some(e)).count();
        let r = self.reserve.grid.entities.iter().filter(|o| **o == Some(e)).count();
        s + b + r
    }

    fn snapshot(&self) -> (Vec<Option<EntityRef>>, Vec<Option<EntityRef>>, Vec<Option<EntityRef>>, u8) {
        (
            self.shop.grid.entities.clone(),
            self.board.grid.entities.clone(),
            self.reserve.grid.entities.clone(),
            self.money.gold,
        )
    }
}

#[test]
fn buying_into_reserve_debits_the_cost() {
    let mut g = game();
    let to = g.reserve_at(6);
    let fb = g.drag(g.shop_at(2), to);
    assert_eq!(g.reserve.grid.get(at(6, 0)), Some(unit(2)));
    assert_eq!(g.shop.grid.get(at(2, 0)), None);
    assert_eq!(g.money.gold, 7);
    assert_eq!(fb.position, Some(MoveTo { entity: unit(2), pos: to }));
    assert_eq!(fb.balance_text, Some(ShowBalance { text: EntityRef { id: 99, generation: 0 }, gold: 7 }));
}

#[test]
fn moving_owned_units_is_free() {
    let mut g = game();
    g.drag(g.shop_at(0), g.board_at(0, 0));
    assert_eq!(g.money.gold, 9);
    let fb = g.drag(g.board_at(0, 0), g.reserve_at(1));
    assert_eq!(g.reserve.grid.get(at(1, 0)), Some(unit(0)));
    assert_eq!(g.board.grid.get(at(0, 0)), None);
    assert_eq!(fb.balance_text, None);
    g.drag(g.reserve_at(1), g.reserve_at(7));
    assert_eq!(g.reserve.grid.get(at(7, 0)), Some(unit(0)));
    g.drag(g.reserve_at(7), g.board_at(4, 6));
    g.drag(g.board_at(4, 6), g.board_at(7, 7));
    assert_eq!(g.board.grid.get(at(7, 7)), Some(unit(0)));
    assert_eq!(g.placements(unit(0)), 1);
    assert_eq!(g.money.gold, 9);
}

#[test]
fn units_cannot_go_back_to_the_shop() {
    let mut g = game();
    g.drag(g.shop_at(0), g.board_at(2, 3));
    let before = g.snapshot();
    let fb = g.drag(g.board_at(2, 3), g.shop_at(0));
    assert_eq!(g.snapshot(), before);
    assert_eq!(fb.position, Some(MoveTo { entity: unit(0), pos: g.board_at(2, 3) }));
    assert_eq!(g.shop.grid.get(at(0, 0)), None);
}

#[test]
fn shop_to_shop_is_cancelled_without_debit() {
    let mut g = game();
    g.drag(g.shop_at(0), g.board_at(0, 0));
    let before = g.snapshot();
    let fb = g.drag(g.shop_at(1), g.shop_at(0));
    assert_eq!(g.snapshot(), before);
    assert_eq!(fb, Feedback { position: Some(MoveTo { entity: unit(1), pos: g.shop_at(1) }), balance_text: None });
}

#[test]
fn a_dragged_unit_follows_the_raw_pointer() {
    let mut g = game();
    g.tick(Some(g.board_at(0, 0)), true);
    assert!(g.system.selection.is_none());
    g.tick(Some(g.shop_at(4)), true);
    let sel = g.system.selection.unwrap();
    assert_eq!(sel.character, unit(4));
    assert_eq!(sel.start_index, at(4, 0));
    assert_eq!(sel.start_pos, g.shop_at(4));
    let p = WorldPos { x: 13, y: -7 };
    let before = g.snapshot();
    assert_eq!(g.tick(Some(p), true), Feedback { position: Some(MoveTo { entity: unit(4), pos: p }), balance_text: None });
    assert_eq!(g.tick(None, true), NOTHING);
    assert_eq!(g.snapshot(), before);
    assert!(g.system.selection.is_some());
}

#[test]
fn pressing_an_empty_slot_or_nothing_starts_no_drag() {
    let mut g = game();
    assert_eq!(g.tick(Some(g.board_at(3, 3)), true), NOTHING);
    assert!(g.system.selection.is_none());
    assert_eq!(g.tick(Some(WorldPos { x: -5000, y: 0 }), true), NOTHING);
    assert_eq!(g.tick(None, true), NOTHING);
    assert_eq!(g.tick(Some(g.shop_at(0)), false), NOTHING);
    assert!(g.system.selection.is_none());
}

#[test]
fn exact_balance_is_enough_and_then_runs_out() {
    let mut g = game();
    g.money.gold = 8;
    g.drag(g.shop_at(7), g.board_at(1, 1));
    assert_eq!(g.money.gold, 0);
    assert_eq!(g.board.grid.get(at(1, 1)), Some(unit(7)));
    g.tick(Some(g.shop_at(0)), true);
    assert!(g.system.selection.is_none());
}

#[test]
fn release_without_a_pointer_position_cancels() {
    let mut g = game();
    g.tick(Some(g.shop_at(3)), true);
    let before = g.snapshot();
    let fb = g.tick(None, false);
    assert!(g.system.selection.is_none());
    assert_eq!(g.snapshot(), before);
    assert_eq!(fb.position, Some(MoveTo { entity: unit(3), pos: g.shop_at(3) }));
}

#[test]
fn a_unit_that_disappears_mid_drag_ends_the_drag() {
    let mut g = game();
    g.tick(Some(g.shop_at(5)), true);
    g.units.remove(unit(5));
    let before = g.snapshot();
    assert_eq!(g.tick(Some(g.board_at(0, 0)), false), NOTHING);
    assert!(g.system.selection.is_none());
    assert_eq!(g.snapshot(), before);
}

#[test]
fn unknown_units_cannot_be_picked_up() {
    let mut g = game();
    let stray = EntityRef { id: 500, generation: 1 };
    g.board.grid.add(at(6, 6), stray);
    g.tick(Some(g.board_at(6, 6)), true);
    assert!(g.system.selection.is_none());
}

#[test]
fn cost_is_read_again_when_placing() {
    let mut g = game();
    g.tick(Some(g.shop_at(0)), true);
    g.units.insert(unit(0), Character { cost: 4 });
    g.tick(Some(g.board_at(0, 0)), false);
    assert_eq!(g.money.gold, 6);
    g.tick(Some(g.shop_at(1)), true);
    g.units.insert(unit(1), Character { cost: 200 });
    let before = g.snapshot();
    let fb = g.tick(Some(g.board_at(1, 0)), false);
    assert_eq!(g.snapshot(), before);
    assert_eq!(fb.position, Some(MoveTo { entity: unit(1), pos: g.shop_at(1) }));
}

#[test]
fn no_unit_is_ever_in_two_slots() {
    let mut g = game();
    g.money.gold = 255;
    for k in 0..8 {
        g.drag(g.shop_at(k), g.board_at(k, k));
    }
    for k in 0..8 {
        g.drag(g.board_at(k, k), g.reserve_at(7 - k));
        g.drag(g.reserve_at(7 - k), g.board_at(k, 0));
    }
    for id in 0..8 {
        assert_eq!(g.placements(unit(id)), 1);
    }
    assert_eq!(g.money.gold, 255 - 36);
    assert!(g.shop.grid.entities.iter().all(|s| s.is_none()));
}

#[test]
fn shop_slots_never_gain_units() {
    let mut g = game();
    g.drag(g.shop_at(0), g.reserve_at(0));
    g.drag(g.reserve_at(0), g.shop_at(0));
    g.drag(g.shop_at(1), g.shop_at(0));
    assert_eq!(g.shop.grid.get(at(0, 0)), None);
    for k in 1..8 {
        assert_eq!(g.shop.grid.get(at(k, 0)), Some(unit(k as u32)));
    }
}
