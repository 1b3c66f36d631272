use vstd::prelude::*;

use crate::components::{Characters, EntityRef};
use crate::grid::{Collision, CollisionSource, SlotIndex, WorldPos};
use crate::laws::{lemma_step_consistent, lemma_step_exclusive};
use crate::resources::{
    add_to, field_model, remove_from, Board, FieldModel, Money, Reserve, SelectionStart, Shop,
};

verus! {

/// What the pointer did during one tick: where it points in world space,
/// if anywhere, and whether the primary button is held.
#[derive(Clone, Copy, Debug, PartialEq, Eq, Structural)]
pub struct Input {
    pub position: Option<WorldPos>,
    pub button_down: bool,
}

/// Draw `entity` at `pos`.
#[derive(Clone, Copy, Debug, PartialEq, Eq, Structural)]
pub struct MoveTo {
    pub entity: EntityRef,
    pub pos: WorldPos,
}

/// Show `gold` in the text element `text`.
#[derive(Clone, Copy, Debug, PartialEq, Eq, Structural)]
pub struct ShowBalance {
    pub text: EntityRef,
    pub gold: u8,
}

/// What the outside world has to show after a tick: a unit to draw at a
/// new position, and the purse's text element with the balance to show.
#[derive(Clone, Copy, Debug, PartialEq, Eq, Structural)]
pub struct Feedback {
    pub position: Option<MoveTo>,
    pub balance_text: Option<ShowBalance>,
}

pub open spec fn no_feedback() -> Feedback {
    Feedback { position: None, balance_text: None }
}

pub open spec fn move_to(e: EntityRef, p: WorldPos) -> Feedback {
    Feedback { position: Some(MoveTo { entity: e, pos: p }), balance_text: None }
}

/// The first grid, in the order shop, board, reserve, that `p` hits.
pub open spec fn collide_all(f: FieldModel, p: WorldPos) -> Collision {
    if !(f.shop.collide(p) is Nothing) {
        f.shop.collide(p)
    } else if !(f.board.collide(p) is Nothing) {
        f.board.collide(p)
    } else {
        f.reserve.collide(p)
    }
}

/// The drag that a press at `p` starts: an occupied slot with a known unit
/// that, when it stands in the shop, the purse can pay for.
pub open spec fn pick_up(f: FieldModel, units: Characters, p: WorldPos) -> Option<SelectionStart> {
    match collide_all(f, p) {
        Collision::Character(src, e, pos, i) => match units.cost_of(e) {
            Some(c) => if src == CollisionSource::Shop && f.gold < c {
                None
            } else {
                Some(SelectionStart { collision_source: src, character: e, start_pos: pos, start_index: i })
            },
            None => None,
        },
        _ => None,
    }
}

/// Whether releasing the drag `s` at `p` places the unit: it still exists,
/// `p` hits an empty slot outside the shop, and a unit bought from the shop
/// is still affordable.
pub open spec fn commits(s: SelectionStart, f: FieldModel, units: Characters, p: WorldPos) -> bool {
    match units.cost_of(s.character) {
        Some(c) => match collide_all(f, p) {
            Collision::Empty(dest, _, _) => dest != CollisionSource::Shop
                && (s.collision_source != CollisionSource::Shop || c <= f.gold),
            _ => false,
        },
        None => false,
    }
}

/// The field after the unit of `s` moved to slot `i` of grid `dest`,
/// paid for when it came from the shop.
pub open spec fn placed(s: SelectionStart, f: FieldModel, cost: u8, dest: CollisionSource, i: SlotIndex) -> FieldModel {
    let moved = f.with_slot(s.collision_source, s.start_index, None).with_slot(dest, i, Some(s.character));
    if s.collision_source == CollisionSource::Shop {
        FieldModel { gold: (f.gold - cost) as u8, ..moved }
    } else {
        moved
    }
}

/// One tick: the drag state, the field and the feedback that follow from
/// the drag state `sel`, the field `f` and the input `input`.
///
/// A press picks a unit up; while the button stays down the unit follows
/// the pointer; the release places it or sends it back to where it came
/// from, and ends the drag either way. Releasing a unit over its own slot
/// finds that slot occupied, so the unit stays where it was. A drag whose
/// unit no longer exists ends with nothing changed and nothing to show.
pub open spec fn step(sel: Option<SelectionStart>, f: FieldModel, units: Characters, input: Input) -> (
    Option<SelectionStart>,
    FieldModel,
    Feedback,
) {
    match sel {
        None => match input.position {
            Some(p) => if input.button_down {
                (pick_up(f, units, p), f, no_feedback())
            } else {
                (None, f, no_feedback())
            },
            None => (None, f, no_feedback()),
        },
        Some(s) => match units.cost_of(s.character) {
            None => (None, f, no_feedback()),
            Some(c) => if input.button_down {
                match input.position {
                    Some(p) => (sel, f, move_to(s.character, p)),
                    None => (sel, f, no_feedback()),
                }
            } else {
                match input.position {
                    Some(p) => if commits(s, f, units, p) {
                        match collide_all(f, p) {
                            Collision::Empty(dest, pos, i) => {
                                let g = placed(s, f, c, dest, i);
                                let text = if s.collision_source == CollisionSource::Shop {
                                    Some(ShowBalance { text: f.text, gold: g.gold })
                                } else {
                                    None
                                };
                                (None, g, Feedback { position: Some(MoveTo { entity: s.character, pos }), balance_text: text })
                            },
                            _ => (None, f, no_feedback()),
                        }
                    } else {
                        (None, f, move_to(s.character, s.start_pos))
                    },
                    None => (None, f, move_to(s.character, s.start_pos)),
                }
            },
        },
    }
}

/// What `point` hits, trying the shop, then the board, then the reserve.
pub fn collide_all_grids(shop: &Shop, board: &Board, reserve: &Reserve, point: WorldPos) -> (r: Collision)
    requires
        shop.grid.wf(),
        board.grid.wf(),
        reserve.grid.wf(),
    ensures
        forall|money: Money| r == collide_all(#[trigger] field_model(shop, board, reserve, &money), point),
{
    let on_board = || -> (r: Collision)
        requires
            board.grid.wf(),
        ensures
            r == board.grid@.collide(point),
    {
        board.grid.collide(point)
    };
    let on_reserve = || -> (r: Collision)
        requires
            reserve.grid.wf(),
        ensures
            r == reserve.grid@.collide(point),
    {
        reserve.grid.collide(point)
    };
    shop.grid.collide(point).or(on_board).or(on_reserve)
}

/// The drag-and-drop state machine over the shop, board and reserve.
pub struct PurchaseSystem {
    pub selection: Option<SelectionStart>,
}

impl PurchaseSystem {
    /// No drag in progress.
    pub fn new() -> (r: PurchaseSystem)
        ensures
            r.selection is None,
    {
        PurchaseSystem { selection: None }
    }

    /// The drag state fits the field: a drag starts from a slot that still
    /// holds the dragged unit.
    pub open spec fn consistent(self, f: FieldModel) -> bool {
        &&& f.wf()
        &&& self.selection matches Some(s) ==> f.holds_selection(s)
    }

    /// Runs one tick: starts, follows, places or cancels a drag.
    pub fn run(
        &mut self,
        units: &Characters,
        shop: &mut Shop,
        board: &mut Board,
        reserve: &mut Reserve,
        money: &mut Money,
        input: Input,
    ) -> (fb: Feedback)
        requires
            old(self).consistent(field_model(old(shop), old(board), old(reserve), old(money))),
        ensures
            (final(self).selection, field_model(final(shop), final(board), final(reserve), final(money)), fb)
                == step(old(self).selection, field_model(old(shop), old(board), old(reserve), old(money)), *units, input),
            final(self).consistent(field_model(final(shop), final(board), final(reserve), final(money))),
            field_model(old(shop), old(board), old(reserve), old(money)).exclusive()
                ==> field_model(final(shop), final(board), final(reserve), final(money)).exclusive(),
    {
        let ghost f = field_model(shop, board, reserve, money);
        proof {
            lemma_step_consistent(self.selection, f, *units, input);
            if f.exclusive() {
                lemma_step_exclusive(self.selection, f, *units, input);
            }
        }
        match self.selection {
            None => {
                match input.position {
                    Some(p) => {
                        if input.button_down {
                            let collision = collide_all_grids(shop, board, reserve, p);
                            assert(collision == collide_all(f, p));
                            if let Collision::Character(src, e, pos, i) = collision {
                                match units.cost(e) {
                                    Some(c) => {
                                        if !(src == CollisionSource::Shop && money.gold < c) {
                                            self.selection = Some(SelectionStart {
                                                collision_source: src,
                                                character: e,
                                                start_pos: pos,
                                                start_index: i,
                                            });
                                        }
                                    },
                                    None => {},
                                }
                            }
                        }
                    },
                    None => {},
                }
                Feedback { position: None, balance_text: None }
            },
            Some(s) => {
                match units.cost(s.character) {
                    None => {
                        self.selection = None;
                        Feedback { position: None, balance_text: None }
                    },
                    Some(c) => {
                        if input.button_down {
                            match input.position {
                                Some(p) => Feedback { position: Some(MoveTo { entity: s.character, pos: p }), balance_text: None },
                                None => Feedback { position: None, balance_text: None },
                            }
                        } else {
                            self.selection = None;
                            let back = Feedback { position: Some(MoveTo { entity: s.character, pos: s.start_pos }), balance_text: None };
                            match input.position {
                                None => back,
                                Some(p) => {
                                    let collision = collide_all_grids(shop, board, reserve, p);
                                    assert(collision == collide_all(f, p));
                                    match collision {
                                        Collision::Empty(dest, pos, i) => {
                                            if dest == CollisionSource::Shop
                                                || (s.collision_source == CollisionSource::Shop && money.gold < c) {
                                                back
                                            } else {
                                                remove_from(shop, board, reserve, s.collision_source, s.start_index);
                                                add_to(shop, board, reserve, dest, i, s.character);
                                                if s.collision_source == CollisionSource::Shop {
                                                    money.gold = money.gold - c;
                                                    Feedback {
                                                        position: Some(MoveTo { entity: s.character, pos }),
                                                        balance_text: Some(ShowBalance { text: money.text, gold: money.gold }),
                                                    }
                                                } else {
                                                    Feedback { position: Some(MoveTo { entity: s.character, pos }), balance_text: None }
                                                }
                                            }
                                        },
                                        _ => back,
                                    }
                                },
                            }
                        }
                    },
                }
            },
        }
    }
}

} // verus!
