//! Equipment: slots, item descriptors, and the manager that tracks which
//! item sits in which slot (at most one per slot).

use vstd::prelude::*;
use vstd::map::*;
use crate::stats::{clip_i32, sat_add_i32, ComputedAttributes, StatBlock};

verus! {

/// The kinds of weapon a hand slot can hold.
#[derive(Debug, Clone, Hash, PartialEq, Eq, Structural)]
pub enum WeaponType {
    Axe,
    Sword,
    Club,
    Dagger,
    Bow,
    Fist,
    Polearm,
    Staff,
    Shield,
}

/// A body or hand location that can hold at most one item. The two hand
/// slots are keyed by the kind of weapon they hold.
#[derive(Debug, Clone, Hash, PartialEq, Eq, Structural)]
pub enum EquipmentSlot {
    Head,
    Torso,
    Legs,
    Feet,
    Hands,
    Neck,
    RingOne,
    RingTwo,
    EarringOne,
    EarringTwo,
    MainHand(WeaponType),
    OffHand(WeaponType),
}

/// A static item descriptor: where it sits, what it asks of the wearer, and
/// the additive bonuses it grants.
pub struct Equipment {
    pub slot: EquipmentSlot,
    pub name: String,
    pub description: String,
    pub required_stats: StatBlock,
    pub stat_modifiers: StatBlock,
    pub attribute_modifiers: ComputedAttributes,
}

/// An equipment descriptor that also names its weapon kind.
pub struct Weapon {
    pub slot: EquipmentSlot,
    pub name: String,
    pub description: String,
    pub required_stats: StatBlock,
    pub stat_modifiers: StatBlock,
    pub attribute_modifiers: ComputedAttributes,
    pub weapon_type: WeaponType,
}

/// Two stat blocks added field by field, each field saturating at the
/// `i32` bounds.
pub open spec fn spec_block_sum(a: StatBlock, b: StatBlock) -> StatBlock {
    StatBlock {
        strength: clip_i32(a.strength + b.strength) as i32,
        dexterity: clip_i32(a.dexterity + b.dexterity) as i32,
        constitution: clip_i32(a.constitution + b.constitution) as i32,
        intelligence: clip_i32(a.intelligence + b.intelligence) as i32,
        wisdom: clip_i32(a.wisdom + b.wisdom) as i32,
        charisma: clip_i32(a.charisma + b.charisma) as i32,
        luck: clip_i32(a.luck + b.luck) as i32,
    }
}

/// The base block with the stat modifiers of the first `n` items added on,
/// in the order the items are held.
pub open spec fn spec_effective_block(base: StatBlock, items: Seq<Equipment>, n: int) -> StatBlock
    recommends
        0 <= n <= items.len(),
    decreases n,
{
    if n <= 0 {
        base
    } else {
        spec_block_sum(spec_effective_block(base, items, n - 1), items[n - 1].stat_modifiers)
    }
}

/// Whether some item in the sequence sits in the given slot.
spec fn slot_present(s: Seq<Equipment>, slot: EquipmentSlot) -> bool {
    exists|i: int| 0 <= i < s.len() && s[i].slot == slot
}

/// The index of the item sitting in the given slot.
spec fn slot_index(s: Seq<Equipment>, slot: EquipmentSlot) -> int {
    choose|i: int| 0 <= i < s.len() && s[i].slot == slot
}

/// No two items of the sequence share a slot.
spec fn slots_unique(s: Seq<Equipment>) -> bool {
    forall|i: int, j: int| 0 <= i < j < s.len() ==> s[i].slot != s[j].slot
}

/// The sequence read as a map from slot to the item sitting there.
spec fn seq_to_map(s: Seq<Equipment>) -> Map<EquipmentSlot, Equipment> {
    Map::new(
        |slot: EquipmentSlot| slot_present(s, slot),
        |slot: EquipmentSlot| s[slot_index(s, slot)],
    )
}

/// Overwriting the item at an index with one for the same slot is an insert
/// on the map reading.
proof fn lemma_seq_to_map_update(s: Seq<Equipment>, i: int, e: Equipment)
    requires
        slots_unique(s),
        0 <= i < s.len(),
        s[i].slot == e.slot,
    ensures
        seq_to_map(s.update(i, e)) == seq_to_map(s).insert(e.slot, e),
{
    let s2 = s.update(i, e);
    assert_maps_equal!(seq_to_map(s2), seq_to_map(s).insert(e.slot, e), slot => {
        if slot == e.slot {
            assert(s2[i].slot == slot);
            assert(slot_present(s2, slot));
            let j = slot_index(s2, slot);
            assert(0 <= j < s2.len() && s2[j].slot == slot);
            if j != i {
                assert(s[j].slot == slot);
                assert(false);
            }
            assert(seq_to_map(s2)[slot] == e);
        } else {
            if slot_present(s, slot) {
                let j = slot_index(s, slot);
                assert(0 <= j < s.len() && s[j].slot == slot);
                assert(j != i);
                assert(s2[j].slot == slot);
                assert(slot_present(s2, slot));
                let k = slot_index(s2, slot);
                assert(0 <= k < s2.len() && s2[k].slot == slot);
                if k != j {
                    if k == i {
                        assert(false);
                    } else {
                        assert(s[k].slot == slot);
                        assert(false);
                    }
                }
                assert(seq_to_map(s2)[slot] == seq_to_map(s)[slot]);
            }
            if slot_present(s2, slot) {
                let k = slot_index(s2, slot);
                assert(0 <= k < s2.len() && s2[k].slot == slot);
                assert(k != i);
                assert(s[k].slot == slot);
                assert(slot_present(s, slot));
            }
        }
    });
}

/// Appending an item for a slot nothing occupies is an insert on the map
/// reading.
proof fn lemma_seq_to_map_push(s: Seq<Equipment>, e: Equipment)
    requires
        slots_unique(s),
        !slot_present(s, e.slot),
    ensures
        seq_to_map(s.push(e)) == seq_to_map(s).insert(e.slot, e),
{
    let s2 = s.push(e);
    assert_maps_equal!(seq_to_map(s2), seq_to_map(s).insert(e.slot, e), slot => {
        if slot == e.slot {
            assert(s2[s.len() as int].slot == slot);
            assert(slot_present(s2, slot));
            let j = slot_index(s2, slot);
            assert(0 <= j < s2.len() && s2[j].slot == slot);
            if j != s.len() {
                assert(s[j].slot == slot);
                assert(slot_present(s, slot));
                assert(false);
            }
            assert(seq_to_map(s2)[slot] == e);
        } else {
            if slot_present(s, slot) {
                let j = slot_index(s, slot);
                assert(0 <= j < s.len() && s[j].slot == slot);
                assert(s2[j].slot == slot);
                assert(slot_present(s2, slot));
                let k = slot_index(s2, slot);
                assert(0 <= k < s2.len() && s2[k].slot == slot);
                if k != j {
                    if k == s.len() {
                        assert(false);
                    } else {
                        assert(s[k].slot == slot);
                        assert(false);
                    }
                }
                assert(seq_to_map(s2)[slot] == seq_to_map(s)[slot]);
            }
            if slot_present(s2, slot) {
                let k = slot_index(s2, slot);
                assert(0 <= k < s2.len() && s2[k].slot == slot);
                assert(k != s.len());
                assert(s[k].slot == slot);
                assert(slot_present(s, slot));
            }
        }
    });
}

/// Dropping the item at an index is a remove of its slot on the map reading.
proof fn lemma_seq_to_map_remove(s: Seq<Equipment>, i: int)
    requires
        slots_unique(s),
        0 <= i < s.len(),
    ensures
        seq_to_map(s.remove(i)) == seq_to_map(s).remove(s[i].slot),
{
    let s2 = s.remove(i);
    assert_maps_equal!(seq_to_map(s2), seq_to_map(s).remove(s[i].slot), slot => {
        if slot == s[i].slot {
            if slot_present(s2, slot) {
                let k = slot_index(s2, slot);
                assert(0 <= k < s2.len() && s2[k].slot == slot);
                if k < i {
                    assert(s[k].slot == slot);
                    assert(false);
                } else {
                    assert(s[k + 1].slot == slot);
                    assert(false);
                }
            }
        } else {
            if slot_present(s, slot) {
                let j = slot_index(s, slot);
                assert(0 <= j < s.len() && s[j].slot == slot);
                assert(j != i);
                if j < i {
                    assert(s2[j].slot == slot);
                } else {
                    assert(s2[j - 1].slot == slot);
                }
                assert(slot_present(s2, slot));
                let k = slot_index(s2, slot);
                assert(0 <= k < s2.len() && s2[k].slot == slot);
                let k_orig: int = if k < i { k } else { k + 1 };
                assert(s[k_orig].slot == slot);
                assert(k_orig == j);
                assert(seq_to_map(s2)[slot] == seq_to_map(s)[slot]);
            }
            if slot_present(s2, slot) {
                let k = slot_index(s2, slot);
                assert(0 <= k < s2.len() && s2[k].slot == slot);
                let k_orig: int = if k < i { k } else { k + 1 };
                assert(s[k_orig].slot == slot);
                assert(slot_present(s, slot));
            }
        }
    });
}

/// Adds two stat blocks field by field, each field saturating.
fn block_sum(a: &StatBlock, b: &StatBlock) -> (result: StatBlock)
    ensures
        result == spec_block_sum(*a, *b),
{
    StatBlock {
        strength: sat_add_i32(a.strength, b.strength),
        dexterity: sat_add_i32(a.dexterity, b.dexterity),
        constitution: sat_add_i32(a.constitution, b.constitution),
        intelligence: sat_add_i32(a.intelligence, b.intelligence),
        wisdom: sat_add_i32(a.wisdom, b.wisdom),
        charisma: sat_add_i32(a.charisma, b.charisma),
        luck: sat_add_i32(a.luck, b.luck),
    }
}

/// Maps each slot to the item equipped there, at most one item per slot.
/// Equipping into an occupied slot replaces the item.
pub struct EquipmentManager {
    equipment: Vec<Equipment>,
}

impl View for EquipmentManager {
    type V = Map<EquipmentSlot, Equipment>;

    closed spec fn view(&self) -> Map<EquipmentSlot, Equipment> {
        seq_to_map(self.equipment@)
    }
}

impl EquipmentManager {
    /// Each slot holds at most one item.
    #[verifier::type_invariant]
    spec fn wf(self) -> bool {
        slots_unique(self.equipment@)
    }

    /// An empty manager: nothing equipped anywhere.
    pub fn new() -> (result: EquipmentManager)
        ensures
            result@ == Map::<EquipmentSlot, Equipment>::empty(),
    {
        let result = EquipmentManager { equipment: Vec::new() };
        proof {
            assert_maps_equal!(result@, Map::<EquipmentSlot, Equipment>::empty());
        }
        result
    }

    /// The index of the item in the given slot, if that slot is occupied.
    fn index_of_slot(&self, slot: &EquipmentSlot) -> (result: Option<usize>)
        ensures
            match result {
                Option::Some(i) => i < self.equipment@.len() && self.equipment@[i as int].slot
                    == *slot,
                Option::None => !slot_present(self.equipment@, *slot),
            },
    {
        let mut idx: usize = 0;
        while idx < self.equipment.len()
            invariant
                idx <= self.equipment@.len(),
                forall|j: int| 0 <= j < idx ==> self.equipment@[j].slot != *slot,
            decreases self.equipment@.len() - idx,
        {
            if self.equipment[idx].slot == *slot {
                return Option::Some(idx);
            }
            idx = idx + 1;
        }
        Option::None
    }

    /// Puts an item into its slot, replacing whatever sat there before.
    pub fn equip(&mut self, equipment: Equipment)
        ensures
            final(self)@ == old(self)@.insert(equipment.slot, equipment),
    {
        proof {
            use_type_invariant(&*self);
        }
        let ghost s_old = self.equipment@;
        let found = self.index_of_slot(&equipment.slot);
        let mut items: Vec<Equipment> = Vec::new();
        std::mem::swap(&mut items, &mut self.equipment);
        match found {
            Option::Some(i) => {
                let ghost e = equipment;
                items[i] = equipment;
                proof {
                    lemma_seq_to_map_update(s_old, i as int, e);
                }
            },
            Option::None => {
                let ghost e = equipment;
                items.push(equipment);
                proof {
                    lemma_seq_to_map_push(s_old, e);
                }
            },
        }
        self.equipment = items;
    }

    /// Empties a slot; emptying a slot with nothing in it changes nothing.
    pub fn unequip(&mut self, slot: EquipmentSlot)
        ensures
            final(self)@ == old(self)@.remove(slot),
    {
        proof {
            use_type_invariant(&*self);
        }
        let ghost s_old = self.equipment@;
        let found = self.index_of_slot(&slot);
        match found {
            Option::Some(i) => {
                let mut items: Vec<Equipment> = Vec::new();
                std::mem::swap(&mut items, &mut self.equipment);
                let _removed = items.remove(i);
                self.equipment = items;
                proof {
                    lemma_seq_to_map_remove(s_old, i as int);
                }
            },
            Option::None => {
                proof {
                    assert_maps_equal!(seq_to_map(s_old), seq_to_map(s_old).remove(slot));
                }
            },
        }
    }

    /// The items currently equipped, in the order they are held.
    pub closed spec fn spec_items(self) -> Seq<Equipment> {
        self.equipment@
    }

    /// The wearer's effective stats after an equip or unequip: the base
    /// block plus the sum of every equipped item's stat modifiers (added
    /// field by field, saturating), and the attributes rebuilt wholesale
    /// from that effective block.
    pub fn effective_stats(&self, base: &StatBlock) -> (result: (StatBlock, ComputedAttributes))
        ensures
            result.0 == spec_effective_block(
                *base,
                self.spec_items(),
                self.spec_items().len() as int,
            ),
            result.1 == ComputedAttributes::spec_of(result.0),
    {
        let mut effective: StatBlock = *base;
        let mut idx: usize = 0;
        while idx < self.equipment.len()
            invariant
                idx <= self.equipment@.len(),
                effective == spec_effective_block(*base, self.equipment@, idx as int),
            decreases self.equipment@.len() - idx,
        {
            effective = block_sum(&effective, &self.equipment[idx].stat_modifiers);
            idx = idx + 1;
        }
        (effective, ComputedAttributes::new(effective))
    }

    /// The item equipped in a slot, if any.
    pub fn get_equipment(&self, slot: EquipmentSlot) -> (result: Option<&Equipment>)
        ensures
            match result {
                Option::Some(e) => self@.contains_key(slot) && *e == self@[slot],
                Option::None => !self@.contains_key(slot),
            },
    {
        proof {
            use_type_invariant(self);
        }
        let found = self.index_of_slot(&slot);
        match found {
            Option::Some(i) => {
                proof {
                    let s = self.equipment@;
                    assert(slot_present(s, slot));
                    let k = slot_index(s, slot);
                    assert(0 <= k < s.len() && s[k].slot == slot);
                    if k != i {
                        assert(false);
                    }
                }
                Option::Some(&self.equipment[i])
            },
            Option::None => Option::None,
        }
    }
}

} // verus!
