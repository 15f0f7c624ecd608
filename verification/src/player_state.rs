//! The progression controller: experience, level-ups, and the experience
//! threshold for the next level.

use vstd::prelude::*;
use crate::player::{spec_passive_growth, PlayerStats};
use crate::stats::{ComputedAttributes, StatBlock};

verus! {

/// Two to the power `e`.
pub open spec fn pow2(e: nat) -> nat
    decreases e,
{
    if e == 0 {
        1
    } else {
        2 * pow2((e - 1) as nat)
    }
}

/// Clamps a non-negative mathematical integer into the `u32` range.
pub open spec fn clip_u32(x: int) -> int
    recommends
        x >= 0,
{
    if x > u32::MAX {
        u32::MAX as int
    } else {
        x
    }
}

/// The experience needed to leave the given level: 50 * 2^level up to level
/// 19, and 100 * 2^level from level 20 on (both exact powers, so the ceiling
/// in the rule is the value itself), clamped into the `u32` range.
pub open spec fn spec_experience_threshold(level: nat) -> int {
    if level <= 19 {
        clip_u32(50 * pow2(level) as int)
    } else {
        clip_u32(100 * pow2(level) as int)
    }
}

/// `pow2` is at least one.
proof fn lemma_pow2_positive(e: nat)
    ensures
        pow2(e) >= 1,
    decreases e,
{
    if e > 0 {
        lemma_pow2_positive((e - 1) as nat);
    }
}

/// `pow2` never shrinks as the exponent grows.
proof fn lemma_pow2_monotonic(e1: nat, e2: nat)
    requires
        e1 <= e2,
    ensures
        pow2(e1) <= pow2(e2),
    decreases e2,
{
    if e1 < e2 {
        lemma_pow2_monotonic(e1, (e2 - 1) as nat);
        lemma_pow2_positive((e2 - 1) as nat);
    }
}

/// The experience threshold for the next level: ceil(50 * 2^level) below
/// level 20 and ceil(100 * 2^level) from there on. Both products are exact
/// powers, and values beyond the `u32` range saturate at `u32::MAX` (from
/// level 26 on).
pub fn calculate_experience_to_next_level(level: u32) -> (threshold: u32)
    ensures
        threshold == spec_experience_threshold(level as nat),
{
    let base: u32 = if level <= 19 {
        50
    } else {
        100
    };
    let mut result: u32 = base;
    let mut i: u32 = 0;
    while i < level
        invariant
            i <= level,
            base == (if level <= 19 { 50int } else { 100int }),
            result == clip_u32(base * pow2(i as nat)),
        decreases level - i,
    {
        proof {
            assert(pow2((i + 1) as nat) == 2 * pow2(i as nat));
            lemma_pow2_positive(i as nat);
        }
        if result > u32::MAX / 2 {
            result = u32::MAX;
        } else {
            result = result * 2;
        }
        i = i + 1;
    }
    result
}

/// The player's settled progression state: the actor's stats, the experience
/// gathered inside the current level, and the threshold that ends it.
///
/// Gains are checked against the threshold once per call; an overshoot large
/// enough to clear the next threshold as well is not cascaded into a second
/// level-up, matching the single-check design of the progression rules.
#[derive(Debug, Eq, PartialEq, Structural)]
pub struct PlayerState {
    pub player_stats: PlayerStats,
    pub current_experience: u32,
    pub experience_to_next_level: u32,
}

/// The state after one level-up: level raised by one, passive growth applied
/// for the new level, attributes rebuilt from the grown block, and the
/// threshold recomputed for the new level. Experience is kept as it is.
pub open spec fn spec_level_up(s: PlayerState) -> PlayerState
    recommends
        s.player_stats.level < u32::MAX,
{
    let new_level = (s.player_stats.level + 1) as u32;
    let new_base = spec_passive_growth(s.player_stats.base_stats, new_level as int);
    PlayerState {
        player_stats: PlayerStats {
            level: new_level,
            base_stats: new_base,
            computed_attributes: ComputedAttributes::spec_of(new_base),
        },
        current_experience: s.current_experience,
        experience_to_next_level: spec_experience_threshold(new_level as nat) as u32,
    }
}

/// The state after gaining experience: the gain is added (saturating at
/// `u32::MAX`), and if the sum meets the threshold, exactly one level-up
/// follows.
pub open spec fn spec_gain_experience(s: PlayerState, experience: u32) -> PlayerState {
    let gained = clip_u32(s.current_experience + experience) as u32;
    let mid = PlayerState { current_experience: gained, ..s };
    if gained >= s.experience_to_next_level {
        spec_level_up(mid)
    } else {
        mid
    }
}

impl PlayerState {
    /// A fresh player at level 1 with no experience; the first threshold is
    /// 100, which is exactly the threshold formula at level 1.
    pub fn new() -> (result: PlayerState)
        ensures
            result.player_stats.level == 1,
            result.player_stats.base_stats == StatBlock::spec_default(),
            result.player_stats.consistent(),
            result.current_experience == 0,
            result.experience_to_next_level == 100,
            result.experience_to_next_level == spec_experience_threshold(1),
    {
        proof {
            assert(pow2(0) == 1);
            assert(pow2(1) == 2);
        }
        let player_stats = PlayerStats::new();
        PlayerState { player_stats, current_experience: 0, experience_to_next_level: 100 }
    }

    /// Raises the player's level by exactly one, applies passive growth,
    /// rebuilds the attributes, and recomputes the threshold for the level
    /// just reached.
    pub fn level_up(&mut self)
        requires
            old(self).player_stats.level < u32::MAX,
        ensures
            *final(self) == spec_level_up(*old(self)),
    {
        self.player_stats.level_up();
        self.experience_to_next_level = calculate_experience_to_next_level(
            self.player_stats.level,
        );
    }

    /// Adds experience (saturating at `u32::MAX`); if the total meets the
    /// current threshold, performs exactly one level-up. The overshoot is
    /// kept but not re-checked against the new threshold in the same call.
    pub fn gain_experience(&mut self, experience: u32)
        requires
            clip_u32(old(self).current_experience + experience) >= old(
                self,
            ).experience_to_next_level ==> old(self).player_stats.level < u32::MAX,
        ensures
            *final(self) == spec_gain_experience(*old(self), experience),
    {
        self.current_experience = self.current_experience.saturating_add(experience);
        if self.current_experience >= self.experience_to_next_level {
            self.level_up();
        }
    }
}

/// The concrete powers of two the threshold proofs lean on, built up one
/// doubling at a time.
proof fn lemma_pow2_table()
    ensures
        pow2(18) == 262144,
        pow2(19) == 524288,
        pow2(20) == 1048576,
        pow2(25) == 33554432,
        pow2(26) == 67108864,
{
    assert(pow2(0) == 1);
    assert(pow2(1) == 2);
    assert(pow2(2) == 4);
    assert(pow2(3) == 8);
    assert(pow2(4) == 16);
    assert(pow2(5) == 32);
    assert(pow2(6) == 64);
    assert(pow2(7) == 128);
    assert(pow2(8) == 256);
    assert(pow2(9) == 512);
    assert(pow2(10) == 1024);
    assert(pow2(11) == 2048);
    assert(pow2(12) == 4096);
    assert(pow2(13) == 8192);
    assert(pow2(14) == 16384);
    assert(pow2(15) == 32768);
    assert(pow2(16) == 65536);
    assert(pow2(17) == 131072);
    assert(pow2(18) == 262144);
    assert(pow2(19) == 524288);
    assert(pow2(20) == 1048576);
    assert(pow2(21) == 2097152);
    assert(pow2(22) == 4194304);
    assert(pow2(23) == 8388608);
    assert(pow2(24) == 16777216);
    assert(pow2(25) == 33554432);
    assert(pow2(26) == 67108864);
}

/// Thresholds strictly grow from each level to the next, as long as the
/// next level's raw formula still fits in `u32` (that is, up to the step
/// from level 25 to 26; beyond it both sides saturate at `u32::MAX`).
pub proof fn lemma_threshold_strictly_increases(level: nat)
    requires
        level <= 25,
    ensures
        spec_experience_threshold(level) < spec_experience_threshold(level + 1),
{
    lemma_pow2_table();
    lemma_pow2_positive(level);
    if level <= 18 {
        lemma_pow2_monotonic(level, 18);
        assert(pow2((level + 1) as nat) == 2 * pow2(level));
    } else if level == 19 {
    } else {
        lemma_pow2_monotonic(level, 25);
        assert(pow2((level + 1) as nat) == 2 * pow2(level));
    }
}

/// Gaining exactly the experience missing to the threshold triggers exactly
/// one level-up and installs a new, strictly larger threshold.
pub proof fn lemma_exact_threshold_gain_levels_once(s: PlayerState, amount: u32)
    requires
        s.current_experience + amount == s.experience_to_next_level,
        s.experience_to_next_level == spec_experience_threshold(s.player_stats.level as nat),
        s.player_stats.level <= 25,
    ensures
        spec_gain_experience(s, amount).player_stats.level == s.player_stats.level + 1,
        spec_gain_experience(s, amount).experience_to_next_level > s.experience_to_next_level,
{
    lemma_threshold_strictly_increases(s.player_stats.level as nat);
}

} // verus!
