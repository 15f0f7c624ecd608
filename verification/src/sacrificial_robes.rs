//! A torso armour piece: robes used in sacrificial rituals.

use vstd::prelude::*;
use vstd::string::StringExecFns;
use crate::equipment::EquipmentSlot;
use crate::stats::{ComputedAttributes, StatBlock};

verus! {

/// An attribute block that grants nothing.
pub open spec fn spec_zero_attributes() -> ComputedAttributes {
    ComputedAttributes {
        health: 0,
        mana: 0,
        stamina: 0,
        physical_resistance: 0,
        psychological_resistance: 0,
        madness_limit: 0,
    }
}

/// The robes' static descriptor: torso slot, default stat gate, and the
/// additive bonuses they grant.
pub struct SacrificialRobes {
    pub slot: EquipmentSlot,
    pub name: String,
    pub description: String,
    pub required_stats: StatBlock,
    pub stat_modifiers: StatBlock,
    pub attribute_modifiers: ComputedAttributes,
}

impl SacrificialRobes {
    /// Plain robes: no stat or attribute bonuses at all.
    pub fn new() -> (result: SacrificialRobes)
        ensures
            result.slot == EquipmentSlot::Torso,
            result.name@ == "Sacrificial Robes"@,
            result.description@ == "Robes that are used in sacrificial rituals."@,
            result.required_stats == StatBlock::spec_default(),
            result.stat_modifiers == StatBlock::spec_default(),
            result.attribute_modifiers == spec_zero_attributes(),
    {
        SacrificialRobes {
            slot: EquipmentSlot::Torso,
            name: String::from_str("Sacrificial Robes"),
            description: String::from_str("Robes that are used in sacrificial rituals."),
            required_stats: StatBlock::default(),
            stat_modifiers: StatBlock::default(),
            attribute_modifiers: ComputedAttributes {
                health: 0,
                mana: 0,
                stamina: 0,
                physical_resistance: 0,
                psychological_resistance: 0,
                madness_limit: 0,
            },
        }
    }

    /// Robes that grant the given stat and attribute bonuses.
    pub fn new_with_modifiers(
        stat_modifiers: StatBlock,
        attribute_modifiers: ComputedAttributes,
    ) -> (result: SacrificialRobes)
        ensures
            result.slot == EquipmentSlot::Torso,
            result.name@ == "Sacrificial Robes"@,
            result.description@ == "Robes that are used in sacrificial rituals."@,
            result.required_stats == StatBlock::spec_default(),
            result.stat_modifiers == stat_modifiers,
            result.attribute_modifiers == attribute_modifiers,
    {
        SacrificialRobes {
            slot: EquipmentSlot::Torso,
            name: String::from_str("Sacrificial Robes"),
            description: String::from_str("Robes that are used in sacrificial rituals."),
            required_stats: StatBlock::default(),
            stat_modifiers,
            attribute_modifiers,
        }
    }
}

} // verus!
