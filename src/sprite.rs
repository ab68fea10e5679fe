//! Where each sprite id lies on its sprite sheet, in sheet pixels.
use vstd::prelude::*;

verus! {

/// Side of a sprite on its sheet, in pixels.
pub const SPRITE_SIZE: usize = 16;

/// Factor from sheet pixels to world units when drawing.
pub const SCALE_FACTOR: usize = 2;

/// Tile sprites in one row of the tile sheet.
pub const SPRITES_PER_ROW: usize = 33;

/// Player sprites in one row of the player sheet.
pub const PLAYER_SPRITES_PER_ROW: usize = 21;

/// Corner of the first player sprite on its sheet.
pub const PLAYER_SPRITE_OFFSET_X: usize = 80;
pub const PLAYER_SPRITE_OFFSET_Y: usize = 2;

/// Distance between neighbouring player sprites across and down the sheet.
pub const PLAYER_SPRITE_STEP_X: usize = 17;
pub const PLAYER_SPRITE_STEP_Y: usize = 16;

/// Sheet corner of player sprite `index`.
pub open spec fn player_sprite_corner(index: int) -> (int, int) {
    (
        PLAYER_SPRITE_OFFSET_X + (index % PLAYER_SPRITES_PER_ROW as int) * PLAYER_SPRITE_STEP_X,
        PLAYER_SPRITE_OFFSET_Y + (index / PLAYER_SPRITES_PER_ROW as int) * PLAYER_SPRITE_STEP_Y,
    )
}

/// Sheet corner of tile sprite `index`.
pub open spec fn tile_sprite_corner(index: int) -> (int, int) {
    (
        (index % SPRITES_PER_ROW as int) * SPRITE_SIZE,
        (index / SPRITES_PER_ROW as int) * SPRITE_SIZE,
    )
}

/// Gets the location of player sprite `index` on the player sheet.
pub fn id_to_player_sprite(index: usize) -> (r: (usize, usize))
    ensures
        (r.0 as int, r.1 as int) == player_sprite_corner(index as int),
{
    let x = PLAYER_SPRITE_OFFSET_X + (index % PLAYER_SPRITES_PER_ROW) * PLAYER_SPRITE_STEP_X;
    let q = index / PLAYER_SPRITES_PER_ROW;
    assert(q * 21 <= index);
    let y = PLAYER_SPRITE_OFFSET_Y + q * PLAYER_SPRITE_STEP_Y;
    (x, y)
}

/// Gets the location of sprite `index` on the player sheet or on the tile
/// sheet.
pub fn sprite_source(index: usize, player_sprite: bool) -> (r: (usize, usize))
    ensures
        (r.0 as int, r.1 as int) == if player_sprite {
            player_sprite_corner(index as int)
        } else {
            tile_sprite_corner(index as int)
        },
{
    if player_sprite {
        id_to_player_sprite(index)
    } else {
        let q = index / SPRITES_PER_ROW;
        assert(q * 33 <= index);
        (SPRITE_SIZE * (index % SPRITES_PER_ROW), SPRITE_SIZE * q)
    }
}

} // verus!
