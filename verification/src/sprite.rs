use vstd::prelude::*;

verus! {

/// Whether the pixel `c` columns from the left of a sprite row is set: the
/// most significant bit is the leftmost pixel.
pub open spec fn sprite_bit(row: u8, c: u8) -> bool {
    row & (0x80u8 >> c) != 0
}

/// Column of the sprite, counted from its left edge, that falls on display
/// cell `p` when the sprite's origin is at column `vx`.
pub open spec fn sprite_column(vx: int, p: int) -> int {
    (p % 64 - vx) % 64
}

/// Row of the sprite, counted from its top, that falls on display cell `p`
/// when the sprite's origin is at row `vy`.
pub open spec fn sprite_row(vy: int, p: int) -> int {
    (p / 64 - vy) % 32
}

/// The display cell on which column `c`, row `r` of a sprite with origin
/// `(vx, vy)` falls: each coordinate wraps around its own axis.
pub open spec fn target_cell(vx: int, vy: int, c: int, r: int) -> int {
    (vx + c) % 64 + ((vy + r) % 32) * 64
}

/// The target cell lies on the display, and the sprite column and row that
/// fall on it are the ones it was computed from.
pub proof fn lemma_target_cell(vx: int, vy: int, c: int, r: int)
    requires
        0 <= vx,
        0 <= vy,
        0 <= c < 64,
        0 <= r < 32,
    ensures
        0 <= target_cell(vx, vy, c, r) < 2048,
        sprite_column(vx, target_cell(vx, vy, c, r)) == c,
        sprite_row(vy, target_cell(vx, vy, c, r)) == r,
{
}

/// A display cell is the target of the sprite column and row that fall on
/// it.
pub proof fn lemma_cell_is_target(vx: int, vy: int, p: int)
    requires
        0 <= vx,
        0 <= vy,
        0 <= p < 2048,
    ensures
        0 <= sprite_column(vx, p) < 64,
        0 <= sprite_row(vy, p) < 32,
        target_cell(vx, vy, sprite_column(vx, p), sprite_row(vy, p)) == p,
{
}

} // verus!
