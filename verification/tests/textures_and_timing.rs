use std::time::Duration;

use rpg_core::textures::{
    create_cobble_stone_texture_tile, update_color_based_on_light_direction, LightDirection,
};
use rpg_core::timing::TimingManager;

#[test]
fn shading_moves_channels_by_the_light_distance() {
    let base = [200u8, 100, 50];
    assert_eq!(
        update_color_based_on_light_direction(LightDirection::Left, base, 3, 0),
        [170, 70, 20]
    );
    assert_eq!(
        update_color_based_on_light_direction(LightDirection::Right, base, 2, 7),
        [220, 120, 70]
    );
    assert_eq!(
        update_color_based_on_light_direction(LightDirection::Front, base, 9, 4),
        [160, 60, 10]
    );
    assert_eq!(
        update_color_based_on_light_direction(LightDirection::Back, base, 0, 3),
        [230, 130, 80]
    );
}

#[test]
fn diagonal_shading_combines_both_axes() {
    let base = [100u8, 100, 100];
    assert_eq!(
        update_color_based_on_light_direction(LightDirection::LeftFront, base, 2, 3),
        [65, 65, 65]
    );
    assert_eq!(
        update_color_based_on_light_direction(LightDirection::RightFront, base, 2, 3),
        [105, 105, 105]
    );
    assert_eq!(
        update_color_based_on_light_direction(LightDirection::LeftBack, base, 2, 3),
        [95, 95, 95]
    );
    assert_eq!(
        update_color_based_on_light_direction(LightDirection::RightBack, base, 2, 3),
        [135, 135, 135]
    );
}

#[test]
fn zero_distance_keeps_the_base_color() {
    let base = [12u8, 34, 56];
    assert_eq!(
        update_color_based_on_light_direction(LightDirection::RightBack, base, 0, 0),
        base
    );
}

#[test]
fn border_tiles_are_translucent() {
    let base = [100u8, 100, 100];
    let edge = create_cobble_stone_texture_tile(0, 1, base, LightDirection::Right);
    for pixel in edge.iter() {
        assert_eq!(*pixel, [100, 100, 100, 100]);
    }
    let inner = create_cobble_stone_texture_tile(3, 1, base, LightDirection::Right);
    for pixel in inner.iter() {
        assert_eq!(*pixel, [130, 130, 130, 255]);
    }
    let bottom = create_cobble_stone_texture_tile(4, 3, base, LightDirection::Left);
    for pixel in bottom.iter() {
        assert_eq!(*pixel, [60, 60, 60, 100]);
    }
}

#[test]
fn a_fresh_timing_starts_from_a_zero_delta() {
    let mut manager = TimingManager::new();
    manager.start_frame("render");
    assert_eq!(manager.get_delta_time("render"), Duration::from_secs(0));
}

#[test]
fn ending_a_frame_records_its_span() {
    let mut manager = TimingManager::new();
    manager.start_frame("logic");
    manager.end_frame("logic");
    let delta = manager.get_delta_time("logic");
    assert!(delta < Duration::from_secs(60));
}

#[test]
fn timings_are_kept_per_name() {
    let mut manager = TimingManager::new();
    manager.start_frame("a");
    manager.start_frame("b");
    manager.end_frame("a");
    // "b" was never ended: its delta is still the zero it started with.
    assert_eq!(manager.get_delta_time("b"), Duration::from_secs(0));
    // Restarting "a" keeps the delta its last ended frame recorded.
    let recorded = manager.get_delta_time("a");
    manager.start_frame("a");
    assert_eq!(manager.get_delta_time("a"), recorded);
}
