use rpg_core::equipment::{Equipment, EquipmentManager, EquipmentSlot, WeaponType};
use rpg_core::sacrificial_dagger::SacrificialDagger;
use rpg_core::sacrificial_robes::SacrificialRobes;
use rpg_core::stats::{ComputedAttributes, StatBlock, StatsEnum};
use rpg_core::story::{PlayerStoryTree, StoryNode, StoryOption};

fn item(slot: EquipmentSlot, name: &str) -> Equipment {
    Equipment {
        slot,
        name: name.to_string(),
        description: String::new(),
        required_stats: StatBlock::default(),
        stat_modifiers: StatBlock::default(),
        attribute_modifiers: ComputedAttributes::new(StatBlock::default()),
    }
}

#[test]
fn equip_and_look_up_by_slot() {
    let mut manager = EquipmentManager::new();
    assert!(manager.get_equipment(EquipmentSlot::Torso).is_none());

    manager.equip(item(EquipmentSlot::Torso, "robe"));
    manager.equip(item(EquipmentSlot::Head, "hat"));

    let found = manager.get_equipment(EquipmentSlot::Torso).unwrap();
    assert_eq!(found.name, "robe");
    assert_eq!(manager.get_equipment(EquipmentSlot::Head).unwrap().name, "hat");
    assert!(manager.get_equipment(EquipmentSlot::Legs).is_none());
}

#[test]
fn equipping_an_occupied_slot_replaces_the_item() {
    let mut manager = EquipmentManager::new();
    manager.equip(item(EquipmentSlot::Torso, "old robe"));
    manager.equip(item(EquipmentSlot::Torso, "new robe"));
    assert_eq!(manager.get_equipment(EquipmentSlot::Torso).unwrap().name, "new robe");
}

#[test]
fn unequip_empties_only_its_slot() {
    let mut manager = EquipmentManager::new();
    manager.equip(item(EquipmentSlot::Torso, "robe"));
    manager.equip(item(EquipmentSlot::Neck, "amulet"));
    manager.unequip(EquipmentSlot::Torso);
    assert!(manager.get_equipment(EquipmentSlot::Torso).is_none());
    assert_eq!(manager.get_equipment(EquipmentSlot::Neck).unwrap().name, "amulet");
    // Unequipping an empty slot is harmless.
    manager.unequip(EquipmentSlot::Torso);
    assert!(manager.get_equipment(EquipmentSlot::Torso).is_none());
}

#[test]
fn hand_slots_are_keyed_by_weapon_type() {
    let mut manager = EquipmentManager::new();
    manager.equip(item(EquipmentSlot::MainHand(WeaponType::Dagger), "dagger"));
    manager.equip(item(EquipmentSlot::OffHand(WeaponType::Shield), "shield"));
    assert_eq!(
        manager.get_equipment(EquipmentSlot::MainHand(WeaponType::Dagger)).unwrap().name,
        "dagger"
    );
    assert!(manager.get_equipment(EquipmentSlot::MainHand(WeaponType::Sword)).is_none());
    assert!(manager.get_equipment(EquipmentSlot::OffHand(WeaponType::Dagger)).is_none());
}

#[test]
fn effective_stats_sum_all_equipped_modifiers() {
    let mut manager = EquipmentManager::new();
    let base = StatBlock::default();

    // With nothing equipped the effective block is the base block.
    let (plain, plain_attrs) = manager.effective_stats(&base);
    assert_eq!(plain, base);
    assert_eq!(plain_attrs, ComputedAttributes::new(base));

    let mut robe = item(EquipmentSlot::Torso, "robe");
    robe.stat_modifiers = {
        let mut m = StatBlock::default();
        // Zero out the default tens so only the wisdom bonus remains.
        for stat in [
            StatsEnum::Strength,
            StatsEnum::Dexterity,
            StatsEnum::Constitution,
            StatsEnum::Intelligence,
            StatsEnum::Wisdom,
            StatsEnum::Charisma,
            StatsEnum::Luck,
        ] {
            m.set_stat(stat, 0);
        }
        m.set_stat(StatsEnum::Wisdom, 3);
        m
    };
    let mut sword = item(EquipmentSlot::MainHand(WeaponType::Sword), "sword");
    sword.stat_modifiers = robe.stat_modifiers;
    sword.stat_modifiers.set_stat(StatsEnum::Wisdom, 0);
    sword.stat_modifiers.set_stat(StatsEnum::Strength, 2);

    manager.equip(robe);
    manager.equip(sword);

    let (effective, attrs) = manager.effective_stats(&base);
    assert_eq!(effective.get_stat(StatsEnum::Strength), 12);
    assert_eq!(effective.get_stat(StatsEnum::Wisdom), 13);
    assert_eq!(effective.get_stat(StatsEnum::Constitution), 10);
    // The attributes are rebuilt wholesale from the effective block.
    assert_eq!(attrs.health, 10 + 12 * 10);
    assert_eq!(attrs.mana, 10 + 13 * 10);
}

#[test]
fn sacrificial_robes_descriptor() {
    let robes = SacrificialRobes::new();
    assert_eq!(robes.slot, EquipmentSlot::Torso);
    assert_eq!(robes.name, "Sacrificial Robes");
    assert_eq!(robes.description, "Robes that are used in sacrificial rituals.");
    assert_eq!(robes.required_stats, StatBlock::default());
    assert_eq!(robes.stat_modifiers, StatBlock::default());
    assert_eq!(robes.attribute_modifiers.health, 0);
    assert_eq!(robes.attribute_modifiers.madness_limit, 0);
}

#[test]
fn sacrificial_robes_with_modifiers() {
    let mut bonus = StatBlock::default();
    bonus.set_stat(StatsEnum::Wisdom, 3);
    let mut attr_bonus = ComputedAttributes::new(StatBlock::default());
    attr_bonus.set_computed_attribute(rpg_core::stats::ComputedAttributeEnum::Mana, 25);
    let robes = SacrificialRobes::new_with_modifiers(bonus, attr_bonus);
    assert_eq!(robes.stat_modifiers, bonus);
    assert_eq!(robes.attribute_modifiers, attr_bonus);
    assert_eq!(robes.slot, EquipmentSlot::Torso);
}

#[test]
fn sacrificial_dagger_descriptor() {
    let dagger = SacrificialDagger::new();
    assert_eq!(dagger.slot, EquipmentSlot::MainHand(WeaponType::Dagger));
    assert_eq!(dagger.weapon_type, WeaponType::Dagger);
    assert_eq!(dagger.name, "Sacrificial Dagger");
    assert_eq!(dagger.description, "A dagger that is used in sacrificial rituals.");
    assert_eq!(dagger.required_stats, StatBlock::default());

    let dagger2 = SacrificialDagger::new_with_modifiers(
        StatBlock::default(),
        ComputedAttributes::new(StatBlock::default()),
    );
    assert_eq!(dagger2.slot, EquipmentSlot::MainHand(WeaponType::Dagger));
}

fn option_to(next: u32, text: &str) -> StoryOption {
    StoryOption { next_node_id: next, text: text.to_string(), is_available: true }
}

#[test]
fn story_node_links_to_its_neighbours() {
    let node = StoryNode::new(5, "title".to_string(), "text".to_string(), vec![], false, false);
    assert_eq!(node.id, 5);
    assert_eq!(node.previous_node_id, Some(4));
    assert_eq!(node.next_node_id, Some(6));
    assert!(!node.is_end_node);
    assert!(!node.is_start_node);
}

#[test]
fn story_node_edges_of_the_story() {
    let first = StoryNode::new(0, "a".to_string(), "b".to_string(), vec![], false, true);
    assert_eq!(first.previous_node_id, None);
    assert_eq!(first.next_node_id, Some(1));

    let last = StoryNode::new(9, "y".to_string(), "z".to_string(), vec![], true, false);
    assert_eq!(last.previous_node_id, Some(8));
    assert_eq!(last.next_node_id, None);
}

#[test]
fn story_node_links_can_be_overwritten() {
    let mut node = StoryNode::new(5, "t".to_string(), "x".to_string(), vec![], false, false);
    node.set_previous_node_id(2);
    node.set_next_node_id(8);
    assert_eq!(node.previous_node_id, Some(2));
    assert_eq!(node.next_node_id, Some(8));
}

#[test]
fn story_tree_records_path_and_choices() {
    let mut tree = PlayerStoryTree::new();
    assert!(tree.get_last_story_node().is_none());
    assert!(tree.get_story_node(1).is_none());
    assert!(tree.get_past_node_choice(1).is_none());

    let node1 = StoryNode::new(1, "one".to_string(), "first".to_string(), vec![], false, false);
    let node2 = StoryNode::new(2, "two".to_string(), "second".to_string(), vec![], false, false);
    tree.add_past_node_choice(node1, option_to(2, "go on"));
    tree.add_past_node_choice(node2, option_to(3, "and on"));

    assert_eq!(tree.get_last_story_node().unwrap().id, 2);
    assert_eq!(tree.get_story_node(1).unwrap().title, "one");
    assert!(tree.get_story_node(7).is_none());
    assert_eq!(tree.get_past_node_choice(1).unwrap().next_node_id, 2);
    assert_eq!(tree.get_past_node_choice(2).unwrap().text, "and on");
}

#[test]
fn a_second_choice_for_a_node_replaces_the_first() {
    let mut tree = PlayerStoryTree::new();
    let node = StoryNode::new(1, "one".to_string(), "first".to_string(), vec![], false, false);
    tree.add_past_node_choice(node.clone(), option_to(2, "left"));
    tree.add_past_node_choice(node, option_to(3, "right"));
    assert_eq!(tree.get_past_node_choice(1).unwrap().text, "right");
    // The path keeps both visits; lookup finds the first.
    assert_eq!(tree.get_story_node(1).unwrap().text, "first");
}
