//! The per-class slot map of a weapon that several classes share.

use std::collections::HashMap;
use vstd::prelude::*;
use crate::tf2sc::model::{ItemSlot, Merc};

verus! {

broadcast use vstd::std_specs::hash::group_hash_axioms;

impl Merc {
    /// The position of a class in the order in which the classes are declared.
    pub open spec fn spec_index(self) -> u8 {
        match self {
            Merc::Scout => 0,
            Merc::Soldier => 1,
            Merc::Pyro => 2,
            Merc::Demoman => 3,
            Merc::Heavy => 4,
            Merc::Engineer => 5,
            Merc::Medic => 6,
            Merc::Sniper => 7,
            Merc::Spy => 8,
        }
    }

    /// The position of a class in the order in which the classes are declared.
    #[verifier::when_used_as_spec(spec_index)]
    pub fn index(self) -> (i: u8)
        ensures
            i == self.spec_index(),
            i < 9,
    {
        match self {
            Merc::Scout => 0,
            Merc::Soldier => 1,
            Merc::Pyro => 2,
            Merc::Demoman => 3,
            Merc::Heavy => 4,
            Merc::Engineer => 5,
            Merc::Medic => 6,
            Merc::Sniper => 7,
            Merc::Spy => 8,
        }
    }
}

/// The nine classes, in the order in which they are declared.
pub open spec fn all_mercs() -> Seq<Merc> {
    seq![
        Merc::Scout,
        Merc::Soldier,
        Merc::Pyro,
        Merc::Demoman,
        Merc::Heavy,
        Merc::Engineer,
        Merc::Medic,
        Merc::Sniper,
        Merc::Spy,
    ]
}

impl Merc {
    /// The class at position `index`; none from nine on.
    pub fn from_index(index: u8) -> (merc: Option<Merc>)
        ensures
            match merc {
                Some(merc) => index < 9 && merc.spec_index() == index && all_mercs()[index as int]
                    == merc,
                None => index >= 9,
            },
    {
        match index {
            0 => Some(Merc::Scout),
            1 => Some(Merc::Soldier),
            2 => Some(Merc::Pyro),
            3 => Some(Merc::Demoman),
            4 => Some(Merc::Heavy),
            5 => Some(Merc::Engineer),
            6 => Some(Merc::Medic),
            7 => Some(Merc::Sniper),
            8 => Some(Merc::Spy),
            _ => None,
        }
    }
}

/// Two classes at the same position are the same class.
pub proof fn lemma_index_injective(a: Merc, b: Merc)
    requires
        a.spec_index() == b.spec_index(),
    ensures
        a == b,
{
}

/// A map from class to the slot in which that class equips a weapon.
///
/// The entries are kept in a hash map keyed by the class's position.
#[derive(Clone, Debug)]
pub struct LoadoutSlots {
    by_index: HashMap<u8, ItemSlot>,
}

impl View for LoadoutSlots {
    type V = Map<Merc, ItemSlot>;

    closed spec fn view(&self) -> Map<Merc, ItemSlot> {
        Map::new(
            |merc: Merc| self.by_index@.contains_key(merc.spec_index()),
            |merc: Merc| self.by_index@[merc.spec_index()],
        )
    }
}

impl LoadoutSlots {
    /// The map without entries.
    pub fn new() -> (slots: LoadoutSlots)
        ensures
            slots@ == Map::<Merc, ItemSlot>::empty(),
    {
        let slots = LoadoutSlots { by_index: HashMap::new() };
        assert(slots@ =~= Map::<Merc, ItemSlot>::empty());
        slots
    }

    /// Sets the slot of `merc`, replacing the one it had.
    pub fn insert(&mut self, merc: Merc, slot: ItemSlot)
        ensures
            final(self)@ == old(self)@.insert(merc, slot),
    {
        self.by_index.insert(merc.index(), slot);
        proof {
            assert forall|other: Merc| other.spec_index() == merc.spec_index() implies other
                == merc by {
                lemma_index_injective(other, merc);
            }
            assert(self@ =~= old(self)@.insert(merc, slot));
        }
    }

    /// The slot of `merc`, if it has one.
    pub fn get(&self, merc: Merc) -> (slot: Option<ItemSlot>)
        ensures
            slot == if self@.contains_key(merc) {
                Some(self@[merc])
            } else {
                None
            },
    {
        let key = merc.index();
        match self.by_index.get(&key) {
            Some(slot) => Some(*slot),
            None => None,
        }
    }

    /// The entries of the map, in the order in which the classes are
    /// declared.
    pub open spec fn spec_entries(&self) -> Seq<(Merc, ItemSlot)> {
        entries_among(self@, all_mercs())
    }

    /// The entries of the map, in the order in which the classes are
    /// declared.
    pub fn entries(&self) -> (entries: Vec<(Merc, ItemSlot)>)
        ensures
            entries@ == self.spec_entries(),
    {
        let mut entries: Vec<(Merc, ItemSlot)> = Vec::new();
        let mut index: u8 = 0;
        assert(all_mercs().take(0) =~= Seq::<Merc>::empty());
        while index < 9
            invariant
                index <= 9,
                entries@ == entries_among(self@, all_mercs().take(index as int)),
            decreases 9 - index,
        {
            assert(all_mercs().take(index + 1).drop_last() =~= all_mercs().take(index as int));
            if let Some(merc) = Merc::from_index(index) {
                if let Some(slot) = self.get(merc) {
                    entries.push((merc, slot));
                }
            }
            index += 1;
        }
        assert(all_mercs().take(9) =~= all_mercs());
        entries
    }
}

/// The entries of `slots` for the classes of `mercs` that have one, in the
/// order of `mercs`.
pub open spec fn entries_among(slots: Map<Merc, ItemSlot>, mercs: Seq<Merc>) -> Seq<(Merc, ItemSlot)>
    decreases mercs.len(),
{
    if mercs.len() == 0 {
        Seq::empty()
    } else {
        let before = entries_among(slots, mercs.drop_last());
        if slots.contains_key(mercs.last()) {
            before.push((mercs.last(), slots[mercs.last()]))
        } else {
            before
        }
    }
}

} // verus!
