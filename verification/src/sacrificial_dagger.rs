//! A main-hand weapon: a dagger used in sacrificial rituals.

use vstd::prelude::*;
use vstd::string::StringExecFns;
use crate::equipment::{EquipmentSlot, WeaponType};
use crate::sacrificial_robes::spec_zero_attributes;
use crate::stats::{ComputedAttributes, StatBlock};

verus! {

/// The dagger's static descriptor: main-hand dagger slot, default stat
/// gate, and the additive bonuses it grants.
pub struct SacrificialDagger {
    pub slot: EquipmentSlot,
    pub name: String,
    pub description: String,
    pub required_stats: StatBlock,
    pub stat_modifiers: StatBlock,
    pub attribute_modifiers: ComputedAttributes,
    pub weapon_type: WeaponType,
}

impl SacrificialDagger {
    /// A plain dagger: no stat or attribute bonuses at all.
    pub fn new() -> (result: SacrificialDagger)
        ensures
            result.slot == EquipmentSlot::MainHand(WeaponType::Dagger),
            result.name@ == "Sacrificial Dagger"@,
            result.description@ == "A dagger that is used in sacrificial rituals."@,
            result.required_stats == StatBlock::spec_default(),
            result.stat_modifiers == StatBlock::spec_default(),
            result.attribute_modifiers == spec_zero_attributes(),
            result.weapon_type == WeaponType::Dagger,
    {
        SacrificialDagger {
            slot: EquipmentSlot::MainHand(WeaponType::Dagger),
            name: String::from_str("Sacrificial Dagger"),
            description: String::from_str("A dagger that is used in sacrificial rituals."),
            required_stats: StatBlock::default(),
            stat_modifiers: StatBlock::default(),
            attribute_modifiers: ComputedAttributes {
                health: 0,
                mana: 0,
                stamina: 0,
                physical_resistance: 0,
                psychological_resistance: 0,
                madness_limit: 0,
            },
            weapon_type: WeaponType::Dagger,
        }
    }

    /// A dagger that grants the given stat and attribute bonuses.
    pub fn new_with_modifiers(
        stat_modifiers: StatBlock,
        attribute_modifiers: ComputedAttributes,
    ) -> (result: SacrificialDagger)
        ensures
            result.slot == EquipmentSlot::MainHand(WeaponType::Dagger),
            result.name@ == "Sacrificial Dagger"@,
            result.description@ == "A dagger that is used in sacrificial rituals."@,
            result.required_stats == StatBlock::spec_default(),
            result.stat_modifiers == stat_modifiers,
            result.attribute_modifiers == attribute_modifiers,
            result.weapon_type == WeaponType::Dagger,
    {
        SacrificialDagger {
            slot: EquipmentSlot::MainHand(WeaponType::Dagger),
            name: String::from_str("Sacrificial Dagger"),
            description: String::from_str("A dagger that is used in sacrificial rituals."),
            required_stats: StatBlock::default(),
            stat_modifiers,
            attribute_modifiers,
            weapon_type: WeaponType::Dagger,
        }
    }
}

} // verus!
