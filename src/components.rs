use vstd::prelude::*;

use std::collections::HashMap;

verus! {

broadcast use vstd::std_specs::hash::group_hash_axioms;

/// A non-owning handle to an entity of the outside entity store:
/// its slot number and the generation of that slot.
#[derive(Clone, Copy, Debug, PartialEq, Eq, Structural)]
pub struct EntityRef {
    pub id: u32,
    pub generation: u32,
}

impl EntityRef {
    pub open spec fn spec_key(self) -> u64 {
        (self.id as int * 0x1_0000_0000 + self.generation as int) as u64
    }

    /// A number that identifies the handle: id and generation side by side.
    pub fn key(&self) -> (r: u64)
        ensures
            r == self.spec_key(),
    {
        (self.id as u64) * 0x1_0000_0000 + (self.generation as u64)
    }
}

/// Distinct handles have distinct keys.
pub proof fn lemma_key_injective(a: EntityRef, b: EntityRef)
    requires
        a.spec_key() == b.spec_key(),
    ensures
        a == b,
{
}

/// A placeable unit and what it costs to buy.
#[derive(Clone, Copy, Debug, PartialEq, Eq, Structural)]
pub struct Character {
    pub cost: u8,
}

/// The units that exist, each under the key of its handle.
pub struct Characters {
    units: HashMap<u64, Character>,
}

impl Characters {
    pub closed spec fn units(self) -> Map<u64, Character> {
        self.units@
    }

    /// What the unit behind `e` costs, or `None` when no such unit exists.
    pub open spec fn cost_of(self, e: EntityRef) -> Option<u8> {
        if self.units().contains_key(e.spec_key()) {
            Some(self.units()[e.spec_key()].cost)
        } else {
            None
        }
    }

    pub fn new() -> (r: Characters)
        ensures
            forall|e: EntityRef| r.cost_of(e) is None,
    {
        Characters { units: HashMap::new() }
    }

    /// Records `character` as the unit behind `e`, replacing any earlier record.
    pub fn insert(&mut self, e: EntityRef, character: Character)
        ensures
            final(self).cost_of(e) == Some(character.cost),
            forall|o: EntityRef| o != e ==> final(self).cost_of(o) == old(self).cost_of(o),
    {
        let k = e.key();
        self.units.insert(k, character);
        assert forall|o: EntityRef| o != e implies final(self).cost_of(o) == old(self).cost_of(o) by {
            if o.spec_key() == e.spec_key() {
                lemma_key_injective(o, e);
            }
        }
    }

    /// Forgets the unit behind `e`.
    pub fn remove(&mut self, e: EntityRef)
        ensures
            final(self).cost_of(e) is None,
            forall|o: EntityRef| o != e ==> final(self).cost_of(o) == old(self).cost_of(o),
    {
        let k = e.key();
        self.units.remove(&k);
        assert forall|o: EntityRef| o != e implies final(self).cost_of(o) == old(self).cost_of(o) by {
            if o.spec_key() == e.spec_key() {
                lemma_key_injective(o, e);
            }
        }
    }

    /// What the unit behind `e` costs, or `None` when no such unit exists.
    pub fn cost(&self, e: EntityRef) -> (r: Option<u8>)
        ensures
            r == self.cost_of(e),
    {
        let k = e.key();
        match self.units.get(&k) {
            Some(c) => Some(c.cost),
            None => None,
        }
    }
}

} // verus!
