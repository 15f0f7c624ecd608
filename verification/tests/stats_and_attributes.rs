use rpg_core::base_enemy::BaseEnemyStats;
use rpg_core::stats::{ComputedAttributeEnum, ComputedAttributes, StatBlock, StatsEnum};

fn block(
    strength: i32,
    dexterity: i32,
    constitution: i32,
    intelligence: i32,
    wisdom: i32,
    charisma: i32,
    luck: i32,
) -> StatBlock {
    StatBlock { strength, dexterity, constitution, intelligence, wisdom, charisma, luck }
}

#[test]
fn default_stat_block_is_all_tens() {
    let b = StatBlock::default();
    assert_eq!(b.get_stat(StatsEnum::Strength), 10);
    assert_eq!(b.get_stat(StatsEnum::Dexterity), 10);
    assert_eq!(b.get_stat(StatsEnum::Constitution), 10);
    assert_eq!(b.get_stat(StatsEnum::Intelligence), 10);
    assert_eq!(b.get_stat(StatsEnum::Wisdom), 10);
    assert_eq!(b.get_stat(StatsEnum::Charisma), 10);
    assert_eq!(b.get_stat(StatsEnum::Luck), 10);
}

#[test]
fn default_block_attributes() {
    let attrs = ComputedAttributes::new(StatBlock::default());
    assert_eq!(attrs.get_computed_attribute(ComputedAttributeEnum::Health), 110);
    assert_eq!(attrs.get_computed_attribute(ComputedAttributeEnum::Mana), 110);
    assert_eq!(attrs.get_computed_attribute(ComputedAttributeEnum::Stamina), 60);
    assert_eq!(attrs.get_computed_attribute(ComputedAttributeEnum::PhysicalResistance), 110);
    assert_eq!(attrs.get_computed_attribute(ComputedAttributeEnum::PsychologicalResistance), 110);
    assert_eq!(attrs.get_computed_attribute(ComputedAttributeEnum::MadnessLimit), 105);
}

#[test]
fn attribute_formulas_on_a_custom_block() {
    let b = StatBlock::new(block(3, 5, 7, 11, 13, 17, 19));
    let attrs = ComputedAttributes::new(b);
    assert_eq!(attrs.health, 7 + 3 * 10);
    assert_eq!(attrs.mana, 11 + 13 * 10);
    assert_eq!(attrs.stamina, 7 + 5 * 5);
    assert_eq!(attrs.physical_resistance, 3 + 7 * 10);
    assert_eq!(attrs.psychological_resistance, 7 + 13 * 10);
    assert_eq!(attrs.madness_limit, 19 * 10 + 11 / 2);
}

#[test]
fn madness_limit_division_truncates_toward_zero() {
    let attrs = ComputedAttributes::new(block(0, 0, 0, -11, 0, 0, 19));
    // -11 / 2 truncates to -5, not -6.
    assert_eq!(attrs.madness_limit, 190 - 5);
}

#[test]
fn stat_block_set_and_get() {
    let mut b = StatBlock::default();
    b.set_stat(StatsEnum::Luck, 42);
    b.set_stat(StatsEnum::Strength, -3);
    assert_eq!(b.get_stat(StatsEnum::Luck), 42);
    assert_eq!(b.get_stat(StatsEnum::Strength), -3);
    assert_eq!(b.get_stat(StatsEnum::Dexterity), 10);
}

#[test]
fn computed_attributes_set_and_get() {
    let mut attrs = ComputedAttributes::new(StatBlock::default());
    attrs.set_computed_attribute(ComputedAttributeEnum::Health, 999);
    assert_eq!(attrs.get_computed_attribute(ComputedAttributeEnum::Health), 999);
    assert_eq!(attrs.get_computed_attribute(ComputedAttributeEnum::Mana), 110);
}

#[test]
fn increase_strength_raises_health_by_ten_per_point() {
    let mut enemy = BaseEnemyStats::new(1, None);
    let before = enemy.computed_attributes;
    enemy.increase_stat(StatsEnum::Strength, 5);
    let after = enemy.computed_attributes;
    assert_eq!(after.health, before.health + 50);
    // Attributes whose formula excludes Strength stay as they were.
    assert_eq!(after.mana, before.mana);
    assert_eq!(after.stamina, before.stamina);
    assert_eq!(after.psychological_resistance, before.psychological_resistance);
    assert_eq!(after.madness_limit, before.madness_limit);
    // PhysicalResistance includes Strength additively.
    assert_eq!(after.physical_resistance, before.physical_resistance + 5);
}

#[test]
fn enemy_takes_custom_block_and_level() {
    let custom = block(1, 2, 3, 4, 5, 6, 7);
    let enemy = BaseEnemyStats::new(9, Some(custom));
    assert_eq!(enemy.level, 9);
    assert_eq!(enemy.base_stats, custom);
    assert_eq!(enemy.computed_attributes, ComputedAttributes::new(custom));

    let plain = BaseEnemyStats::new(2, None);
    assert_eq!(plain.base_stats, StatBlock::default());
}

#[test]
fn increase_stat_saturates_instead_of_wrapping() {
    let mut enemy = BaseEnemyStats::new(1, None);
    enemy.set_stat(StatsEnum::Strength, i32::MAX);
    enemy.increase_stat(StatsEnum::Strength, 1);
    assert_eq!(enemy.get_stat(StatsEnum::Strength), i32::MAX);
    // The health formula overflows i32 and clamps at the top.
    assert_eq!(enemy.get_computed_attribute(ComputedAttributeEnum::Health), i32::MAX);
}

#[test]
fn negative_deltas_go_negative_without_clamping() {
    let mut enemy = BaseEnemyStats::new(1, None);
    enemy.increase_stat(StatsEnum::Constitution, -25);
    assert_eq!(enemy.get_stat(StatsEnum::Constitution), -15);
    assert_eq!(
        enemy.get_computed_attribute(ComputedAttributeEnum::Health),
        -15 + 10 * 10,
    );
}
