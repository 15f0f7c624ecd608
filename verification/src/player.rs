//! The player's actor statistics: level, base stats, derived attributes, and
//! the passive growth rule applied on every level-up.

use vstd::prelude::*;
use crate::stats::{
    clip_i32, sat_add_i32, ComputedAttributeEnum, ComputedAttributes, StatBlock, StatsEnum,
};

verus! {

/// The statistic growth a level-up grants automatically, keyed on the level
/// just reached. An even level raises Wisdom by one; otherwise a level that
/// is a multiple of three overwrites Constitution with Strength + 1 (an
/// asymmetric write the rules keep deliberately, not an increment). The two
/// branches are checked in that order, so a level that is a multiple of six
/// only takes the Wisdom branch. Additions saturate at the `i32` bounds.
pub open spec fn spec_passive_growth(base: StatBlock, new_level: int) -> StatBlock
    recommends
        new_level >= 0,
{
    if new_level % 2 == 0 {
        base.spec_with_stat(StatsEnum::Wisdom, clip_i32(base.wisdom + 1) as i32)
    } else if new_level % 3 == 0 {
        base.spec_with_stat(StatsEnum::Constitution, clip_i32(base.strength + 1) as i32)
    } else {
        base
    }
}

/// The passive growth rule in full: reaching an even level raises Wisdom by
/// one and touches nothing else; reaching an odd multiple of three
/// overwrites Constitution with Strength + 1 and touches nothing else (in
/// particular Wisdom); any other level changes nothing. A multiple of six
/// is even, so it only ever takes the Wisdom branch.
pub proof fn lemma_passive_growth_rule(base: StatBlock, new_level: int)
    requires
        new_level >= 0,
    ensures
        new_level % 2 == 0 ==> spec_passive_growth(base, new_level) == base.spec_with_stat(
            StatsEnum::Wisdom,
            clip_i32(base.wisdom + 1) as i32,
        ),
        new_level % 2 == 0 ==> spec_passive_growth(base, new_level).constitution
            == base.constitution,
        (new_level % 2 != 0 && new_level % 3 == 0) ==> spec_passive_growth(base, new_level)
            == base.spec_with_stat(StatsEnum::Constitution, clip_i32(base.strength + 1) as i32),
        (new_level % 2 != 0 && new_level % 3 == 0) ==> spec_passive_growth(base, new_level).wisdom
            == base.wisdom,
        (new_level % 2 != 0 && new_level % 3 != 0) ==> spec_passive_growth(base, new_level)
            == base,
{
}

/// Level, base statistics and the attribute snapshot derived from them.
/// The nested values are owned exclusively by the actor; readers get copies.
#[derive(Debug, Copy, Clone, PartialEq, Eq, Structural)]
pub struct PlayerStats {
    pub level: u32,
    pub base_stats: StatBlock,
    pub computed_attributes: ComputedAttributes,
}

impl PlayerStats {
    /// A consistent actor: the attribute snapshot is derived from the block.
    pub open spec fn consistent(self) -> bool {
        self.computed_attributes == ComputedAttributes::spec_of(self.base_stats)
    }

    /// A fresh player: level 1, default stats, attributes derived from them.
    pub fn new() -> (result: PlayerStats)
        ensures
            result.level == 1,
            result.base_stats == StatBlock::spec_default(),
            result.consistent(),
    {
        let base_stats = StatBlock::default();
        PlayerStats { level: 1, base_stats, computed_attributes: ComputedAttributes::new(base_stats) }
    }

    /// Raises the level by exactly one, applies the passive growth rule for
    /// the new level, and rebuilds the attribute snapshot from scratch.
    pub fn level_up(&mut self)
        requires
            old(self).level < u32::MAX,
        ensures
            final(self).level == old(self).level + 1,
            final(self).base_stats == spec_passive_growth(
                old(self).base_stats,
                old(self).level + 1,
            ),
            final(self).consistent(),
    {
        self.level = self.level + 1;
        self.set_passive_base_stat_increase();
        self.computed_attributes = ComputedAttributes::new(self.base_stats);
    }

    /// Applies the passive growth rule for the current level to the base
    /// stats; the attribute snapshot is left for the caller to rebuild.
    fn set_passive_base_stat_increase(&mut self)
        ensures
            final(self).level == old(self).level,
            final(self).base_stats == spec_passive_growth(
                old(self).base_stats,
                old(self).level as int,
            ),
            final(self).computed_attributes == old(self).computed_attributes,
    {
        if self.level % 2 == 0 {
            let raised = sat_add_i32(self.base_stats.get_stat(StatsEnum::Wisdom), 1);
            self.base_stats.set_stat(StatsEnum::Wisdom, raised);
        } else if self.level % 3 == 0 {
            let raised = sat_add_i32(self.base_stats.get_stat(StatsEnum::Strength), 1);
            self.base_stats.set_stat(StatsEnum::Constitution, raised);
        }
    }

    /// Reads one named base statistic.
    pub fn get_stat(&self, stat: StatsEnum) -> (value: i32)
        ensures
            value == self.base_stats.spec_stat(stat),
    {
        self.base_stats.get_stat(stat)
    }

    /// Overwrites one named base statistic. The attribute snapshot is not
    /// rebuilt here; callers that want consistency rebuild it afterwards.
    pub fn set_stat(&mut self, stat: StatsEnum, value: i32)
        ensures
            final(self).base_stats == old(self).base_stats.spec_with_stat(stat, value),
            final(self).level == old(self).level,
            final(self).computed_attributes == old(self).computed_attributes,
    {
        self.base_stats.set_stat(stat, value);
    }

    /// Reads one named derived attribute.
    pub fn get_computed_attribute(&self, attribute: ComputedAttributeEnum) -> (value: i32)
        ensures
            value == self.computed_attributes.spec_attr(attribute),
    {
        self.computed_attributes.get_computed_attribute(attribute)
    }

    /// Overwrites one named derived attribute.
    pub fn set_computed_attribute(&mut self, attribute: ComputedAttributeEnum, value: i32)
        ensures
            final(self).computed_attributes == old(self).computed_attributes.spec_with_attr(
                attribute,
                value,
            ),
            final(self).level == old(self).level,
            final(self).base_stats == old(self).base_stats,
    {
        self.computed_attributes.set_computed_attribute(attribute, value);
    }

    /// Borrows the attribute snapshot for in-place edits.
    pub fn get_mut_computed_attributes(&mut self) -> (result: &mut ComputedAttributes)
        ensures
            *result == old(self).computed_attributes,
            final(self).level == old(self).level,
            final(self).base_stats == old(self).base_stats,
            final(self).computed_attributes == *final(result),
    {
        &mut self.computed_attributes
    }

    /// A plain snapshot of level, base stats, and derived attributes.
    pub fn get_stats(&self) -> (result: (u32, StatBlock, ComputedAttributes))
        ensures
            result == (self.level, self.base_stats, self.computed_attributes),
    {
        (self.level, self.base_stats, self.computed_attributes)
    }

    /// Borrows the base stats for in-place edits.
    pub fn get_mut_base_stats(&mut self) -> (result: &mut StatBlock)
        ensures
            *result == old(self).base_stats,
            final(self).level == old(self).level,
            final(self).computed_attributes == old(self).computed_attributes,
            final(self).base_stats == *final(result),
    {
        &mut self.base_stats
    }
}

} // verus!
