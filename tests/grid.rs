use autobattler_placement::components::{Character, Characters, EntityRef};
use autobattler_placement::grid::{Collision, CollisionSource, Grid, SlotIndex, WorldPos};
use autobattler_placement::resources::{Board, Money, Reserve, Shop, SLOT_SIZE, STARTING_GOLD};

fn idx(col: usize, row: usize) -> SlotIndex {
    SlotIndex { col, row }
}

fn pos(x: i32, y: i32) -> WorldPos {
    WorldPos { x, y }
}

#[test]
fn centre_of_slot_follows_origin_and_size() {
    let g: Grid<4, 3> = Grid::new(100, -50, CollisionSource::Board, 10);
    assert_eq!(g.index_to_center(idx(0, 0)), pos(100, -50));
    assert_eq!(g.index_to_center(idx(3, 2)), pos(130, -30));
}

#[test]
fn world_to_index_uses_half_cell_offset() {
    let g: Grid<4, 3> = Grid::new(100, -50, CollisionSource::Board, 10);
    // Cell (0, 0) spans [95, 105) by [-55, -45).
    assert_eq!(g.world_to_index(pos(95, -55)), Some(idx(0, 0)));
    assert_eq!(g.world_to_index(pos(104, -46)), Some(idx(0, 0)));
    assert_eq!(g.world_to_index(pos(105, -45)), Some(idx(1, 1)));
    assert_eq!(g.world_to_index(pos(94, -50)), None);
    assert_eq!(g.world_to_index(pos(100, -56)), None);
    // Last column spans [125, 135).
    assert_eq!(g.world_to_index(pos(134, -30)), Some(idx(3, 2)));
    assert_eq!(g.world_to_index(pos(135, -30)), None);
    assert_eq!(g.world_to_index(pos(130, -25)), None);
}

#[test]
fn world_to_index_with_odd_cell_size() {
    let g: Grid<2, 1> = Grid::new(0, 0, CollisionSource::Reserve, 5);
    // floor((p + 2.5) / 5): -2.5 is the first point of cell 0.
    assert_eq!(g.world_to_index(pos(-3, 0)), None);
    assert_eq!(g.world_to_index(pos(-2, 0)), Some(idx(0, 0)));
    assert_eq!(g.world_to_index(pos(2, 0)), Some(idx(0, 0)));
    assert_eq!(g.world_to_index(pos(3, 0)), Some(idx(1, 0)));
    assert_eq!(g.world_to_index(pos(7, 2)), Some(idx(1, 0)));
    assert_eq!(g.world_to_index(pos(8, 0)), None);
    assert_eq!(g.world_to_index(pos(0, 3)), None);
}

#[test]
fn every_board_centre_maps_back_to_its_slot() {
    let b = Board::new(800, 600);
    for row in 0..8 {
        for col in 0..8 {
            let c = b.grid.index_to_center(idx(col, row));
            assert_eq!(b.grid.world_to_index(c), Some(idx(col, row)));
        }
    }
}

#[test]
fn collide_reports_tag_centre_and_occupant() {
    let mut g: Grid<3, 2> = Grid::new(0, 0, CollisionSource::Shop, 20);
    let e = EntityRef { id: 7, generation: 2 };
    assert_eq!(g.collide(pos(43, 18)), Collision::Empty(CollisionSource::Shop, pos(40, 20), idx(2, 1)));
    g.add(idx(2, 1), e);
    assert_eq!(g.collide(pos(43, 18)), Collision::Character(CollisionSource::Shop, e, pos(40, 20), idx(2, 1)));
    assert_eq!(g.collide(pos(-11, 0)), Collision::Nothing);
    g.remove(idx(2, 1));
    assert_eq!(g.get(idx(2, 1)), None);
    g.remove(idx(2, 1));
    assert_eq!(g.get(idx(2, 1)), None);
}

#[test]
fn add_overwrites_the_occupant() {
    let mut g: Grid<2, 2> = Grid::new(0, 0, CollisionSource::Board, 4);
    let a = EntityRef { id: 1, generation: 1 };
    let b = EntityRef { id: 2, generation: 1 };
    g.add(idx(1, 1), a);
    g.add(idx(1, 1), b);
    assert_eq!(g.get(idx(1, 1)), Some(b));
    assert_eq!(g.entities.iter().flatten().count(), 1);
}

#[test]
fn or_keeps_a_hit_and_tries_the_next_on_a_miss() {
    let hit = Collision::Empty(CollisionSource::Board, pos(1, 2), idx(0, 0));
    let other = Collision::Empty(CollisionSource::Reserve, pos(5, 5), idx(1, 0));
    assert_eq!(hit.or(|| other), hit);
    assert_eq!(Collision::Nothing.or(|| other), other);
    assert_eq!(Collision::Nothing.or(|| Collision::Nothing), Collision::Nothing);
}

#[test]
fn layout_of_the_three_grids() {
    let shop = Shop::new(800, 600);
    let board = Board::new(800, 600);
    let reserve = Reserve::new(800);
    assert_eq!(SLOT_SIZE, 48);
    assert_eq!((shop.grid.x, shop.grid.y), (232, 552));
    assert_eq!((board.grid.x, board.grid.y), (232, 132));
    assert_eq!((reserve.grid.x, reserve.grid.y), (232, 48));
    assert_eq!(shop.grid.collision_source, CollisionSource::Shop);
    assert_eq!(board.grid.collision_source, CollisionSource::Board);
    assert_eq!(reserve.grid.collision_source, CollisionSource::Reserve);
    assert_eq!(board.grid.entities.len(), 64);
    assert!(shop.grid.entities.iter().all(|s| s.is_none()));
}

#[test]
fn stocking_fills_the_first_slots_in_order() {
    let mut units = Characters::new();
    let mut shop = Shop::new(800, 600);
    let stock: Vec<EntityRef> = (0..3).map(|id| EntityRef { id, generation: 0 }).collect();
    shop.stock(&mut units, &stock, 2);
    for (k, e) in stock.iter().enumerate() {
        assert_eq!(shop.grid.get(idx(k, 0)), Some(*e));
        assert_eq!(units.cost(*e), Some(2));
    }
    for k in 3..8 {
        assert_eq!(shop.grid.get(idx(k, 0)), None);
    }
}

#[test]
fn roster_lookup_insert_and_remove() {
    let mut units = Characters::new();
    let a = EntityRef { id: 3, generation: 1 };
    let a_next = EntityRef { id: 3, generation: 2 };
    assert_eq!(units.cost(a), None);
    units.insert(a, Character { cost: 4 });
    assert_eq!(units.cost(a), Some(4));
    assert_eq!(units.cost(a_next), None);
    units.insert(a, Character { cost: 6 });
    assert_eq!(units.cost(a), Some(6));
    units.remove(a);
    assert_eq!(units.cost(a), None);
}

#[test]
fn entity_keys_differ_for_different_handles() {
    let a = EntityRef { id: 1, generation: 0 };
    let b = EntityRef { id: 0, generation: 1 };
    assert_eq!(a.key(), 1 << 32);
    assert_eq!(b.key(), 1);
    assert_ne!(a.key(), b.key());
}

#[test]
fn purse_starts_with_ten_gold() {
    let text = EntityRef { id: 5, generation: 5 };
    let m = Money::new(text);
    assert_eq!(STARTING_GOLD, 10);
    assert_eq!(m.gold, 10);
    assert_eq!(m.text, text);
}

#[test]
fn or_does_not_look_further_after_a_hit() {
    let hit = Collision::Character(CollisionSource::Shop, EntityRef { id: 1, generation: 1 }, pos(0, 0), idx(0, 0));
    assert_eq!(hit.or(|| panic!("the second grid must not be probed")), hit);
}
