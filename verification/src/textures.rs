//! Procedural texture rules: how a tile's base color is shifted by the
//! light direction, and the pixel data of one cobble-stone tile.
//!
//! Only the pixel arithmetic lives here; encoding the pixels as an image
//! file is left to the caller.

use vstd::prelude::*;

verus! {

/// Raised when a texture image cannot be loaded or written.
#[derive(Debug)]
pub enum TextureError {
    ImageError(String),
}

/// Where the light falls on a tile from.
#[derive(Debug, Clone, Copy, PartialEq, Eq)]
pub enum LightDirection {
    Left,
    Right,
    Front,
    Back,
    LeftFront,
    RightFront,
    LeftBack,
    RightBack,
}

/// One color channel shifted by the tile's distance to the light: 10 units
/// per horizontal step toward or away, 5 per diagonal vertical step.
pub open spec fn spec_shaded_channel(
    light: LightDirection,
    channel: int,
    x: int,
    y: int,
) -> int {
    match light {
        LightDirection::Left => channel - 10 * x,
        LightDirection::Right => channel + 10 * x,
        LightDirection::Front => channel - 10 * y,
        LightDirection::Back => channel + 10 * y,
        LightDirection::LeftFront => channel - 10 * x - 5 * y,
        LightDirection::RightFront => channel + 10 * x - 5 * y,
        LightDirection::LeftBack => channel - 10 * x + 5 * y,
        LightDirection::RightBack => channel + 10 * x + 5 * y,
    }
}

/// Whether the shading arithmetic stays inside the `u8` range for one
/// channel, every intermediate step included; the shading is computed in
/// `u8` and never clamps, so positions that would leave the range are
/// outside the rule.
pub open spec fn spec_shade_defined(
    light: LightDirection,
    channel: int,
    x: int,
    y: int,
) -> bool {
    match light {
        LightDirection::Left => 10 * x <= 255 && channel - 10 * x >= 0,
        LightDirection::Right => 10 * x <= 255 && channel + 10 * x <= 255,
        LightDirection::Front => 10 * y <= 255 && channel - 10 * y >= 0,
        LightDirection::Back => 10 * y <= 255 && channel + 10 * y <= 255,
        LightDirection::LeftFront => 10 * x <= 255 && 5 * y <= 255 && channel - 10 * x >= 0
            && channel - 10 * x - 5 * y >= 0,
        LightDirection::RightFront => 10 * x <= 255 && 5 * y <= 255 && channel + 10 * x <= 255
            && channel + 10 * x - 5 * y >= 0,
        LightDirection::LeftBack => 10 * x <= 255 && 5 * y <= 255 && channel - 10 * x >= 0
            && channel - 10 * x + 5 * y <= 255,
        LightDirection::RightBack => 10 * x <= 255 && 5 * y <= 255 && channel + 10 * x <= 255
            && channel + 10 * x + 5 * y <= 255,
    }
}

/// Shades one color channel for the tile at `(x, y)`.
fn shade_channel(light: LightDirection, channel: u8, x: u8, y: u8) -> (result: u8)
    requires
        spec_shade_defined(light, channel as int, x as int, y as int),
    ensures
        result as int == spec_shaded_channel(light, channel as int, x as int, y as int),
{
    match light {
        LightDirection::Left => channel - x * 10,
        LightDirection::Right => channel + x * 10,
        LightDirection::Front => channel - y * 10,
        LightDirection::Back => channel + y * 10,
        LightDirection::LeftFront => channel - x * 10 - y * 5,
        LightDirection::RightFront => channel + x * 10 - y * 5,
        LightDirection::LeftBack => channel - x * 10 + y * 5,
        LightDirection::RightBack => channel + x * 10 + y * 5,
    }
}

/// Shifts a base color by the light direction for the tile at the given
/// position. The positions must keep every channel's arithmetic inside the
/// `u8` range.
pub fn update_color_based_on_light_direction(
    light_direction: LightDirection,
    base_color: [u8; 3],
    x_pos: usize,
    y_pos: usize,
) -> (color: [u8; 3])
    requires
        x_pos <= 255,
        y_pos <= 255,
        forall|i: int|
            0 <= i < 3 ==> spec_shade_defined(
                light_direction,
                base_color@[i] as int,
                x_pos as int,
                y_pos as int,
            ),
    ensures
        forall|i: int|
            0 <= i < 3 ==> color@[i] as int == spec_shaded_channel(
                light_direction,
                base_color@[i] as int,
                x_pos as int,
                y_pos as int,
            ),
{
    let x = x_pos as u8;
    let y = y_pos as u8;
    let color = [
        shade_channel(light_direction, base_color[0], x, y),
        shade_channel(light_direction, base_color[1], x, y),
        shade_channel(light_direction, base_color[2], x, y),
    ];
    color
}

/// The alpha of the tile at `(x, y)` inside a cobble-stone brick: the
/// border tiles (first or last column, first or last row) are translucent.
pub open spec fn spec_tile_alpha(x: int, y: int) -> int {
    if x == 0 || x == 7 || y == 0 || y == 3 {
        100
    } else {
        255
    }
}

/// The pixel data of one 2-by-2 cobble-stone tile: four identical pixels of
/// the shaded color, with the border alpha. Writing the pixels out as an
/// image file is the caller's business.
pub fn create_cobble_stone_texture_tile(
    x_pos: usize,
    y_pos: usize,
    base_color: [u8; 3],
    light_direction: LightDirection,
) -> (data: [[u8; 4]; 4])
    requires
        x_pos <= 255,
        y_pos <= 255,
        forall|i: int|
            0 <= i < 3 ==> spec_shade_defined(
                light_direction,
                base_color@[i] as int,
                x_pos as int,
                y_pos as int,
            ),
    ensures
        forall|row: int|
            #![auto]
            0 <= row < 4 ==> {
                &&& data@[row]@[0] as int == spec_shaded_channel(
                    light_direction,
                    base_color@[0] as int,
                    x_pos as int,
                    y_pos as int,
                )
                &&& data@[row]@[1] as int == spec_shaded_channel(
                    light_direction,
                    base_color@[1] as int,
                    x_pos as int,
                    y_pos as int,
                )
                &&& data@[row]@[2] as int == spec_shaded_channel(
                    light_direction,
                    base_color@[2] as int,
                    x_pos as int,
                    y_pos as int,
                )
                &&& data@[row]@[3] as int == spec_tile_alpha(x_pos as int, y_pos as int)
            },
{
    let color = update_color_based_on_light_direction(
        light_direction,
        base_color,
        x_pos,
        y_pos,
    );
    let alpha: u8 = if x_pos == 0 || x_pos == 7 || y_pos == 0 || y_pos == 3 {
        100
    } else {
        255
    };
    let pixel = [color[0], color[1], color[2], alpha];
    [pixel, pixel, pixel, pixel]
}

} // verus!
