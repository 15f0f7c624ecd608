//! Enemy actor statistics: a caller-supplied level, an optional custom stat
//! block, and the derived attribute snapshot.

use vstd::prelude::*;
use crate::stats::{
    clip_i32, sat_add_i32, ComputedAttributeEnum, ComputedAttributes, StatBlock, StatsEnum,
};

verus! {

/// Level, base statistics and the attribute snapshot derived from them.
#[derive(Debug, Copy, Clone)]
pub struct BaseEnemyStats {
    pub level: u32,
    pub base_stats: StatBlock,
    pub computed_attributes: ComputedAttributes,
}

impl BaseEnemyStats {
    /// A consistent actor: the attribute snapshot is derived from the block.
    pub open spec fn consistent(self) -> bool {
        self.computed_attributes == ComputedAttributes::spec_of(self.base_stats)
    }

    /// An enemy at the given level, with the supplied stat block or the
    /// default one, and attributes derived from whichever was taken.
    pub fn new(level: u32, stats: Option<StatBlock>) -> (result: BaseEnemyStats)
        ensures
            result.level == level,
            result.base_stats == (match stats {
                Option::Some(custom) => custom,
                Option::None => StatBlock::spec_default(),
            }),
            result.consistent(),
    {
        let base_stats = match stats {
            Option::Some(custom) => custom,
            Option::None => StatBlock::default(),
        };
        BaseEnemyStats {
            level,
            base_stats,
            computed_attributes: ComputedAttributes::new(base_stats),
        }
    }

    /// Adds a delta (possibly negative, saturating at the `i32` bounds) to
    /// one named statistic and rebuilds the attribute snapshot from scratch.
    pub fn increase_stat(&mut self, stat: StatsEnum, value: i32)
        ensures
            final(self).base_stats == old(self).base_stats.spec_with_stat(
                stat,
                clip_i32(old(self).base_stats.spec_stat(stat) + value) as i32,
            ),
            final(self).level == old(self).level,
            final(self).consistent(),
    {
        let raised = sat_add_i32(self.base_stats.get_stat(stat), value);
        self.base_stats.set_stat(stat, raised);
        self.computed_attributes = ComputedAttributes::new(self.base_stats);
    }

    /// Reads one named base statistic.
    pub fn get_stat(&self, stat: StatsEnum) -> (value: i32)
        ensures
            value == self.base_stats.spec_stat(stat),
    {
        self.base_stats.get_stat(stat)
    }

    /// Overwrites one named base statistic without rebuilding attributes.
    pub fn set_stat(&mut self, stat: StatsEnum, value: i32)
        ensures
            final(self).base_stats == old(self).base_stats.spec_with_stat(stat, value),
            final(self).level == old(self).level,
            final(self).computed_attributes == old(self).computed_attributes,
    {
        self.base_stats.set_stat(stat, value);
    }

    /// Reads one named derived attribute.
    pub fn get_computed_attribute(&self, attribute: ComputedAttributeEnum) -> (value: i32)
        ensures
            value == self.computed_attributes.spec_attr(attribute),
    {
        self.computed_attributes.get_computed_attribute(attribute)
    }

    /// Overwrites one named derived attribute.
    pub fn set_computed_attribute(&mut self, attribute: ComputedAttributeEnum, value: i32)
        ensures
            final(self).computed_attributes == old(self).computed_attributes.spec_with_attr(
                attribute,
                value,
            ),
            final(self).level == old(self).level,
            final(self).base_stats == old(self).base_stats,
    {
        self.computed_attributes.set_computed_attribute(attribute, value);
    }
}

} // verus!
