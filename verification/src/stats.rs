//! Base statistics and the combat attributes derived from them.
//!
//! A `StatBlock` holds the seven raw statistics of an actor. A
//! `ComputedAttributes` value is a snapshot derived from a `StatBlock` by six
//! fixed formulas; it is always rebuilt wholesale from a block, never patched
//! field by field, so it can never drift from its source.

use vstd::prelude::*;

verus! {

/// The seven base statistics every actor carries.
#[derive(Debug, Clone, Copy)]
pub enum StatsEnum {
    Strength,
    Dexterity,
    Constitution,
    Intelligence,
    Wisdom,
    Charisma,
    Luck,
}

/// The six combat attributes derived from a `StatBlock`.
#[derive(Debug, Clone, Copy)]
pub enum ComputedAttributeEnum {
    Health,
    Mana,
    Stamina,
    PhysicalResistance,
    PsychologicalResistance,
    MadnessLimit,
}

/// Clamps a mathematical integer into the `i32` range.
///
/// Stat arithmetic saturates at the `i32` bounds instead of wrapping or
/// trapping, which keeps every operation on stats total.
pub open spec fn clip_i32(x: int) -> int {
    if x > i32::MAX {
        i32::MAX as int
    } else if x < i32::MIN {
        i32::MIN as int
    } else {
        x
    }
}

/// Division by two that truncates toward zero, as `i32` division does.
pub open spec fn div2_toward_zero(x: int) -> int {
    if x >= 0 {
        x / 2
    } else {
        -((-x) / 2)
    }
}

/// Saturates a wide intermediate result into `i32`.
pub(crate) fn clip_to_i32(x: i64) -> (r: i32)
    ensures
        r as int == clip_i32(x as int),
{
    if x > i32::MAX as i64 {
        i32::MAX
    } else if x < i32::MIN as i64 {
        i32::MIN
    } else {
        x as i32
    }
}

/// Adds two `i32` values, saturating at the `i32` bounds.
pub(crate) fn sat_add_i32(a: i32, b: i32) -> (r: i32)
    ensures
        r as int == clip_i32(a + b),
{
    clip_to_i32(a as i64 + b as i64)
}

/// `x / 2` truncating toward zero, computed with unsigned division.
pub(crate) fn half_toward_zero(x: i32) -> (r: i32)
    ensures
        r as int == div2_toward_zero(x as int),
{
    if x >= 0 {
        ((x as u32) / 2u32) as i32
    } else {
        let magnitude: u32 = (-(x as i64)) as u32;
        -((magnitude / 2u32) as i32)
    }
}

/// The seven raw statistics of an actor. Plain value type: equality is by
/// field, fields may be set freely, and no field is ever clamped on write.
#[derive(Debug, Clone, Copy, PartialEq, Eq, Hash, Structural)]
pub struct StatBlock {
    pub strength: i32,
    pub dexterity: i32,
    pub constitution: i32,
    pub intelligence: i32,
    pub wisdom: i32,
    pub charisma: i32,
    pub luck: i32,
}

impl StatBlock {
    /// The value of one named statistic.
    pub open spec fn spec_stat(self, stat: StatsEnum) -> int {
        match stat {
            StatsEnum::Strength => self.strength as int,
            StatsEnum::Dexterity => self.dexterity as int,
            StatsEnum::Constitution => self.constitution as int,
            StatsEnum::Intelligence => self.intelligence as int,
            StatsEnum::Wisdom => self.wisdom as int,
            StatsEnum::Charisma => self.charisma as int,
            StatsEnum::Luck => self.luck as int,
        }
    }

    /// `self` with one named statistic overwritten.
    pub open spec fn spec_with_stat(self, stat: StatsEnum, value: i32) -> StatBlock {
        match stat {
            StatsEnum::Strength => StatBlock { strength: value, ..self },
            StatsEnum::Dexterity => StatBlock { dexterity: value, ..self },
            StatsEnum::Constitution => StatBlock { constitution: value, ..self },
            StatsEnum::Intelligence => StatBlock { intelligence: value, ..self },
            StatsEnum::Wisdom => StatBlock { wisdom: value, ..self },
            StatsEnum::Charisma => StatBlock { charisma: value, ..self },
            StatsEnum::Luck => StatBlock { luck: value, ..self },
        }
    }

    /// The block every fresh actor starts from: 10 in every statistic.
    pub open spec fn spec_default() -> StatBlock {
        StatBlock {
            strength: 10,
            dexterity: 10,
            constitution: 10,
            intelligence: 10,
            wisdom: 10,
            charisma: 10,
            luck: 10,
        }
    }

    /// Wraps a caller-supplied block verbatim.
    pub fn new(custom_stat_block: StatBlock) -> (result: StatBlock)
        ensures
            result == custom_stat_block,
    {
        custom_stat_block
    }

    /// Reads one named statistic.
    pub fn get_stat(&self, stat: StatsEnum) -> (value: i32)
        ensures
            value == self.spec_stat(stat),
    {
        match stat {
            StatsEnum::Strength => self.strength,
            StatsEnum::Dexterity => self.dexterity,
            StatsEnum::Constitution => self.constitution,
            StatsEnum::Intelligence => self.intelligence,
            StatsEnum::Wisdom => self.wisdom,
            StatsEnum::Charisma => self.charisma,
            StatsEnum::Luck => self.luck,
        }
    }

    /// Overwrites one named statistic; no validation, no clamping.
    pub fn set_stat(&mut self, stat: StatsEnum, value: i32)
        ensures
            *final(self) == old(self).spec_with_stat(stat, value),
    {
        match stat {
            StatsEnum::Strength => self.strength = value,
            StatsEnum::Dexterity => self.dexterity = value,
            StatsEnum::Constitution => self.constitution = value,
            StatsEnum::Intelligence => self.intelligence = value,
            StatsEnum::Wisdom => self.wisdom = value,
            StatsEnum::Charisma => self.charisma = value,
            StatsEnum::Luck => self.luck = value,
        }
    }
}

impl Default for StatBlock {
    /// A fresh block with 10 in every statistic.
    fn default() -> (result: StatBlock)
        ensures
            result == StatBlock::spec_default(),
    {
        StatBlock {
            strength: 10,
            dexterity: 10,
            constitution: 10,
            intelligence: 10,
            wisdom: 10,
            charisma: 10,
            luck: 10,
        }
    }
}

/// The six derived combat attributes. Always built from a `StatBlock`
/// snapshot by `ComputedAttributes::new`; a direct `set_computed_attribute`
/// is offered for callers that apply equipment bonuses on top.
#[derive(Debug, Clone, Copy, PartialEq, Eq, Hash, Structural)]
pub struct ComputedAttributes {
    pub health: i32,
    pub mana: i32,
    pub stamina: i32,
    pub physical_resistance: i32,
    pub psychological_resistance: i32,
    pub madness_limit: i32,
}

impl ComputedAttributes {
    /// The six derivation formulas, each clamped into the `i32` range.
    pub open spec fn spec_of(stat_block: StatBlock) -> ComputedAttributes {
        ComputedAttributes {
            health: clip_i32(stat_block.constitution + stat_block.strength * 10) as i32,
            mana: clip_i32(stat_block.intelligence + stat_block.wisdom * 10) as i32,
            stamina: clip_i32(stat_block.constitution + stat_block.dexterity * 5) as i32,
            physical_resistance: clip_i32(
                stat_block.strength + stat_block.constitution * 10,
            ) as i32,
            psychological_resistance: clip_i32(
                stat_block.constitution + stat_block.wisdom * 10,
            ) as i32,
            madness_limit: clip_i32(
                stat_block.luck * 10 + div2_toward_zero(stat_block.intelligence as int),
            ) as i32,
        }
    }

    /// The value of one named attribute.
    pub open spec fn spec_attr(self, attribute: ComputedAttributeEnum) -> int {
        match attribute {
            ComputedAttributeEnum::Health => self.health as int,
            ComputedAttributeEnum::Mana => self.mana as int,
            ComputedAttributeEnum::Stamina => self.stamina as int,
            ComputedAttributeEnum::PhysicalResistance => self.physical_resistance as int,
            ComputedAttributeEnum::PsychologicalResistance => self.psychological_resistance as int,
            ComputedAttributeEnum::MadnessLimit => self.madness_limit as int,
        }
    }

    /// `self` with one named attribute overwritten.
    pub open spec fn spec_with_attr(
        self,
        attribute: ComputedAttributeEnum,
        value: i32,
    ) -> ComputedAttributes {
        match attribute {
            ComputedAttributeEnum::Health => ComputedAttributes { health: value, ..self },
            ComputedAttributeEnum::Mana => ComputedAttributes { mana: value, ..self },
            ComputedAttributeEnum::Stamina => ComputedAttributes { stamina: value, ..self },
            ComputedAttributeEnum::PhysicalResistance => ComputedAttributes {
                physical_resistance: value,
                ..self
            },
            ComputedAttributeEnum::PsychologicalResistance => ComputedAttributes {
                psychological_resistance: value,
                ..self
            },
            ComputedAttributeEnum::MadnessLimit => ComputedAttributes {
                madness_limit: value,
                ..self
            },
        }
    }

    /// Derives all six attributes from a `StatBlock` snapshot.
    pub fn new(stat_block: StatBlock) -> (result: ComputedAttributes)
        ensures
            result == ComputedAttributes::spec_of(stat_block),
    {
        let health = clip_to_i32(
            stat_block.constitution as i64 + stat_block.strength as i64 * 10,
        );
        let mana = clip_to_i32(stat_block.intelligence as i64 + stat_block.wisdom as i64 * 10);
        let stamina = clip_to_i32(
            stat_block.constitution as i64 + stat_block.dexterity as i64 * 5,
        );
        let physical_resistance = clip_to_i32(
            stat_block.strength as i64 + stat_block.constitution as i64 * 10,
        );
        let psychological_resistance = clip_to_i32(
            stat_block.constitution as i64 + stat_block.wisdom as i64 * 10,
        );
        let madness_limit = clip_to_i32(
            stat_block.luck as i64 * 10 + half_toward_zero(stat_block.intelligence) as i64,
        );
        ComputedAttributes {
            health,
            mana,
            stamina,
            physical_resistance,
            psychological_resistance,
            madness_limit,
        }
    }

    /// Reads one named attribute.
    pub fn get_computed_attribute(&self, attribute: ComputedAttributeEnum) -> (value: i32)
        ensures
            value == self.spec_attr(attribute),
    {
        match attribute {
            ComputedAttributeEnum::Health => self.health,
            ComputedAttributeEnum::Mana => self.mana,
            ComputedAttributeEnum::Stamina => self.stamina,
            ComputedAttributeEnum::PhysicalResistance => self.physical_resistance,
            ComputedAttributeEnum::PsychologicalResistance => self.psychological_resistance,
            ComputedAttributeEnum::MadnessLimit => self.madness_limit,
        }
    }

    /// Overwrites one named attribute.
    pub fn set_computed_attribute(&mut self, attribute: ComputedAttributeEnum, value: i32)
        ensures
            *final(self) == old(self).spec_with_attr(attribute, value),
    {
        match attribute {
            ComputedAttributeEnum::Health => self.health = value,
            ComputedAttributeEnum::Mana => self.mana = value,
            ComputedAttributeEnum::Stamina => self.stamina = value,
            ComputedAttributeEnum::PhysicalResistance => self.physical_resistance = value,
            ComputedAttributeEnum::PsychologicalResistance => self.psychological_resistance = value,
            ComputedAttributeEnum::MadnessLimit => self.madness_limit = value,
        }
    }
}

/// For every stat block whose six derivation formulas stay within the `i32`
/// range, the derived attributes equal those formulas exactly: Health is
/// Constitution + Strength * 10, Mana is Intelligence + Wisdom * 10, Stamina
/// is Constitution + Dexterity * 5, PhysicalResistance is Strength +
/// Constitution * 10, PsychologicalResistance is Constitution + Wisdom * 10,
/// and MadnessLimit is Luck * 10 + Intelligence / 2 (truncating toward zero).
pub proof fn lemma_attribute_formulas(b: StatBlock)
    requires
        i32::MIN <= b.constitution + b.strength * 10 <= i32::MAX,
        i32::MIN <= b.intelligence + b.wisdom * 10 <= i32::MAX,
        i32::MIN <= b.constitution + b.dexterity * 5 <= i32::MAX,
        i32::MIN <= b.strength + b.constitution * 10 <= i32::MAX,
        i32::MIN <= b.constitution + b.wisdom * 10 <= i32::MAX,
        i32::MIN <= b.luck * 10 + div2_toward_zero(b.intelligence as int) <= i32::MAX,
    ensures
        ComputedAttributes::spec_of(b).health == b.constitution + b.strength * 10,
        ComputedAttributes::spec_of(b).mana == b.intelligence + b.wisdom * 10,
        ComputedAttributes::spec_of(b).stamina == b.constitution + b.dexterity * 5,
        ComputedAttributes::spec_of(b).physical_resistance == b.strength + b.constitution * 10,
        ComputedAttributes::spec_of(b).psychological_resistance == b.constitution + b.wisdom * 10,
        ComputedAttributes::spec_of(b).madness_limit == b.luck * 10 + div2_toward_zero(
            b.intelligence as int,
        ),
{
}

} // verus!
