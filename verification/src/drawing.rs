use vstd::prelude::*;
use crate::machine::Machine;
use crate::sprite::{
    lemma_cell_is_target, lemma_target_cell, sprite_bit, sprite_column, sprite_row, target_cell,
};

verus! {

/// Whether the part of the sprite drawn so far, the rows above `rows` and
/// the columns of row `rows` left of `cols`, has a set pixel on cell `p`.
pub(crate) open spec fn covered_before(
    m: Machine,
    x: int,
    y: int,
    rows: int,
    cols: int,
    p: int,
) -> bool {
    let c = sprite_column(m.v[x] as int, p);
    let r = sprite_row(m.v[y] as int, p);
    c < 8 && (r < rows || (r == rows && c < cols)) && sprite_bit(m.memory[m.i + r], c as u8)
}

/// Whether that part of the sprite has a set pixel on a cell that held 1.
pub(crate) open spec fn collided_before(m: Machine, x: int, y: int, rows: int, cols: int) -> bool {
    exists|p: int| 0 <= p < 2048 && covered_before(m, x, y, rows, cols, p) && m.gfx[p] == 1
}

/// The machine in the middle of drawing: that part of the sprite is on the
/// display and in the flag; the redraw request and the program counter wait
/// for the end.
pub(crate) open spec fn drawn_before(m: Machine, x: int, y: int, rows: int, cols: int) -> Machine {
    Machine {
        gfx: Seq::new(
            2048,
            |p: int|
                if covered_before(m, x, y, rows, cols, p) {
                    m.gfx[p] ^ 1
                } else {
                    m.gfx[p]
                },
        ),
        v: m.v.update(0xF, if collided_before(m, x, y, rows, cols) { 1u8 } else { 0u8 }),
        ..m
    }
}

/// Drawing column `cols` of row `rows` takes the machine from one part of
/// the sprite to the next: the target cell is flipped and joins the flag if
/// the pixel is set, and nothing happens if it is not.
pub(crate) proof fn lemma_draw_step(m: Machine, x: int, y: int, rows: int, cols: int)
    requires
        0 <= x < 16,
        0 <= y < 16,
        0 <= rows < 16,
        0 <= cols < 8,
        m.v.len() == 16,
        m.gfx.len() == 2048,
    ensures
        ({
            let pos = target_cell(m.v[x] as int, m.v[y] as int, cols, rows);
            let before = drawn_before(m, x, y, rows, cols);
            let after = drawn_before(m, x, y, rows, cols + 1);
            let set = sprite_bit(m.memory[m.i + rows], cols as u8);
            &&& 0 <= pos < 2048
            &&& before.gfx[pos] == m.gfx[pos]
            &&& !set ==> after == before
            &&& set ==> after == (Machine {
                gfx: before.gfx.update(pos, before.gfx[pos] ^ 1),
                v: before.v.update(
                    0xF,
                    if before.v[0xF] == 1 || m.gfx[pos] == 1 {
                        1u8
                    } else {
                        0u8
                    },
                ),
                ..before
            })
        }),
{
    let vx: int = m.v[x] as int;
    let vy: int = m.v[y] as int;
    let pos: int = target_cell(vx, vy, cols, rows);
    let before = drawn_before(m, x, y, rows, cols);
    let after = drawn_before(m, x, y, rows, cols + 1);
    let set = sprite_bit(m.memory[m.i + rows], cols as u8);
    lemma_target_cell(vx, vy, cols, rows);
    assert forall|p: int| 0 <= p < 2048 implies (covered_before(m, x, y, rows, cols + 1, p) <==> (
        covered_before(m, x, y, rows, cols, p) || (set && p == pos))) by {
        lemma_cell_is_target(vx, vy, p);
    }
    assert(!covered_before(m, x, y, rows, cols, pos));
    if set {
        assert(covered_before(m, x, y, rows, cols + 1, pos));
        if collided_before(m, x, y, rows, cols + 1) {
            let p: int = choose|p: int|
                0 <= p < 2048 && covered_before(m, x, y, rows, cols + 1, p) && m.gfx[p] == 1;
            if p != pos {
                assert(covered_before(m, x, y, rows, cols, p));
            }
        }
        if collided_before(m, x, y, rows, cols) {
            let p: int = choose|p: int|
                0 <= p < 2048 && covered_before(m, x, y, rows, cols, p) && m.gfx[p] == 1;
            assert(covered_before(m, x, y, rows, cols + 1, p));
        }
        assert(after.gfx =~= before.gfx.update(pos, before.gfx[pos] ^ 1));
        assert(after.v =~= before.v.update(
            0xF,
            if before.v[0xF] == 1 || m.gfx[pos] == 1 {
                1u8
            } else {
                0u8
            },
        ));
    } else {
        if collided_before(m, x, y, rows, cols + 1) {
            let p: int = choose|p: int|
                0 <= p < 2048 && covered_before(m, x, y, rows, cols + 1, p) && m.gfx[p] == 1;
            assert(covered_before(m, x, y, rows, cols, p));
        }
        if collided_before(m, x, y, rows, cols) {
            let p: int = choose|p: int|
                0 <= p < 2048 && covered_before(m, x, y, rows, cols, p) && m.gfx[p] == 1;
            assert(covered_before(m, x, y, rows, cols + 1, p));
        }
        assert(after.gfx =~= before.gfx);
        assert(after.v =~= before.v);
    }
}

/// A row drawn to its eighth column is the next row not yet begun.
pub(crate) proof fn lemma_draw_row(m: Machine, x: int, y: int, rows: int)
    requires
        0 <= rows,
    ensures
        drawn_before(m, x, y, rows, 8) == drawn_before(m, x, y, rows + 1, 0),
{
    assert forall|p: int|
        covered_before(m, x, y, rows, 8, p) == covered_before(m, x, y, rows + 1, 0, p) by {}
    assert(collided_before(m, x, y, rows, 8) == collided_before(m, x, y, rows + 1, 0)) by {
        if collided_before(m, x, y, rows, 8) {
            let p: int = choose|p: int|
                0 <= p < 2048 && covered_before(m, x, y, rows, 8, p) && m.gfx[p] == 1;
            assert(covered_before(m, x, y, rows + 1, 0, p));
        }
        if collided_before(m, x, y, rows + 1, 0) {
            let p: int = choose|p: int|
                0 <= p < 2048 && covered_before(m, x, y, rows + 1, 0, p) && m.gfx[p] == 1;
            assert(covered_before(m, x, y, rows, 8, p));
        }
    }
    assert(drawn_before(m, x, y, rows, 8).gfx =~= drawn_before(m, x, y, rows + 1, 0).gfx);
}

/// Nothing is drawn before the first row, and all `n` rows drawn are the
/// sprite.
pub(crate) proof fn lemma_draw_done(m: Machine, x: int, y: int, n: int)
    requires
        0 <= n,
        n > 0 ==> m.i + n <= 4096,
        m.v.len() == 16,
        m.gfx.len() == 2048,
    ensures
        drawn_before(m, x, y, 0, 0) == (Machine { v: m.v.update(0xF, 0u8), ..m }),
        drawn_before(m, x, y, n, 0) == (Machine {
            gfx: m.draw_sprite(x, y, n).gfx,
            v: m.draw_sprite(x, y, n).v,
            ..m
        }),
{
    assert forall|p: int| !covered_before(m, x, y, 0, 0, p) by {}
    assert(drawn_before(m, x, y, 0, 0).gfx =~= m.gfx);
    assert forall|p: int| covered_before(m, x, y, n, 0, p) == m.sprite_covers(x, y, n, p) by {}
    assert(collided_before(m, x, y, n, 0) == m.sprite_collides(x, y, n)) by {
        if collided_before(m, x, y, n, 0) {
            let p: int = choose|p: int|
                0 <= p < 2048 && covered_before(m, x, y, n, 0, p) && m.gfx[p] == 1;
            assert(m.sprite_covers(x, y, n, p));
        }
        if m.sprite_collides(x, y, n) {
            let p: int = choose|p: int| 0 <= p < 2048 && m.sprite_covers(x, y, n, p) && m.gfx[p] == 1;
            assert(covered_before(m, x, y, n, 0, p));
        }
    }
    assert(drawn_before(m, x, y, n, 0).gfx =~= m.draw_sprite(x, y, n).gfx);
}

} // verus!
