//! The screen: drawing sprites and reading pixels.
use crate::chip8::{mask_addr, ChipEight};
use crate::model::{sprite_bit, Machine};
use vstd::prelude::*;

verus! {

/// Bit `c` of a sprite row, counted from the left.
fn row_bit(row: u8, c: u8) -> (bit: bool)
    requires
        c < 8,
    ensures
        bit == sprite_bit(row, c as int),
{
    (row >> (7 - c)) & 1 == 1
}

/// Whether the sprite of `m` at `(left, top)` has a set bit on pixel
/// `(px, py)` among the cells drawn so far: the rows above `rows`, and the
/// cells left of `cols` in row `rows`.
spec fn drawn(m: Machine, left: u8, top: u8, rows: int, cols: int, px: int, py: int) -> bool {
    let r = (py - top) % 32;
    let c = (px - left) % 64;
    c < 8 && (r < rows || (r == rows && c < cols)) && sprite_bit(m.sprite_row(r), c)
}

/// Whether `(px, py)` is a pixel of `m` that is on and on which a cell drawn
/// so far has a set bit.
spec fn hit_at(m: Machine, left: u8, top: u8, rows: int, cols: int, px: int, py: int) -> bool {
    0 <= px < 64 && 0 <= py < 32 && m.screen[py][px] && drawn(m, left, top, rows, cols, px, py)
}

/// Whether a cell drawn so far has a set bit on a pixel of `m` that is on.
spec fn drawn_hit(m: Machine, left: u8, top: u8, rows: int, cols: int) -> bool {
    exists|px: int, py: int| hit_at(m, left, top, rows, cols, px, py)
}

/// Drawing cell `c` of row `r` adds the bit of that cell on the one pixel
/// that the cell falls on, and changes nothing on any other pixel.
proof fn lemma_draw_cell(m: Machine, left: u8, top: u8, r: int, c: int)
    requires
        0 <= r < 16,
        0 <= c < 8,
    ensures
        !drawn(m, left, top, r, c, (left + c) % 64, (top + r) % 32),
        forall|px: int, py: int|
            0 <= px < 64 && 0 <= py < 32 ==> #[trigger] drawn(m, left, top, r, c + 1, px, py) == (
            drawn(m, left, top, r, c, px, py) || (px == (left + c) % 64 && py == (top + r) % 32
                && sprite_bit(m.sprite_row(r), c))),
{
    assert forall|px: int, py: int| 0 <= px < 64 && 0 <= py < 32 implies #[trigger] drawn(
        m,
        left,
        top,
        r,
        c + 1,
        px,
        py,
    ) == (drawn(m, left, top, r, c, px, py) || (px == (left + c) % 64 && py == (top + r) % 32
        && sprite_bit(m.sprite_row(r), c))) by {
        assert(((py - top) % 32 == r) == (py == (top + r) % 32));
        assert(((px - left) % 64 == c) == (px == (left + c) % 64));
    }
}

/// Drawing cell `c` of row `r` collides if the cell has a set bit and the
/// pixel that it falls on is on.
proof fn lemma_hit_cell(m: Machine, left: u8, top: u8, r: int, c: int)
    requires
        0 <= r < 16,
        0 <= c < 8,
    ensures
        drawn_hit(m, left, top, r, c + 1) == (drawn_hit(m, left, top, r, c) || (m.screen[(top + r)
            % 32][(left + c) % 64] && sprite_bit(m.sprite_row(r), c))),
{
    let sx = (left + c) % 64;
    let sy = (top + r) % 32;
    let next = c + 1;
    lemma_draw_cell(m, left, top, r, c);
    if drawn_hit(m, left, top, r, next) {
        let (px, py) = choose|px: int, py: int| hit_at(m, left, top, r, next, px, py);
        if !(px == sx && py == sy) {
            assert(hit_at(m, left, top, r, c, px, py));
        }
    }
    if drawn_hit(m, left, top, r, c) {
        let (px, py) = choose|px: int, py: int| hit_at(m, left, top, r, c, px, py);
        assert(hit_at(m, left, top, r, next, px, py));
    }
    if m.screen[sy][sx] && sprite_bit(m.sprite_row(r), c) {
        assert(hit_at(m, left, top, r, next, sx, sy));
    }
}

/// A row drawn to its end is the next row not yet begun.
proof fn lemma_draw_row(m: Machine, left: u8, top: u8, r: int, next: int)
    requires
        next == r + 1,
    ensures
        forall|px: int, py: int|
            drawn(m, left, top, r, 8, px, py) == #[trigger] drawn(m, left, top, next, 0, px, py),
        drawn_hit(m, left, top, r, 8) == drawn_hit(m, left, top, next, 0),
{
    if drawn_hit(m, left, top, r, 8) {
        let (px, py) = choose|px: int, py: int| hit_at(m, left, top, r, 8, px, py);
        assert(hit_at(m, left, top, next, 0, px, py));
    }
    if drawn_hit(m, left, top, next, 0) {
        let (px, py) = choose|px: int, py: int| hit_at(m, left, top, next, 0, px, py);
        assert(hit_at(m, left, top, r, 8, px, py));
    }
}

/// With every row drawn, the cells drawn so far are the whole sprite.
proof fn lemma_draw_done(m: Machine, left: u8, top: u8, rows: int)
    ensures
        forall|px: int, py: int|
            drawn(m, left, top, rows, 0, px, py) == #[trigger] m.sprite_covers(
                left,
                top,
                rows,
                px,
                py,
            ),
        drawn_hit(m, left, top, rows, 0) == m.sprite_collides(left, top, rows),
{
    if drawn_hit(m, left, top, rows, 0) {
        let (px, py) = choose|px: int, py: int| hit_at(m, left, top, rows, 0, px, py);
        assert(m.screen[py][px] && m.sprite_covers(left, top, rows, px, py));
    }
    if m.sprite_collides(left, top, rows) {
        let (px, py) = choose|px: int, py: int|
            0 <= px < 64 && 0 <= py < 32 && m.screen[py][px] && m.sprite_covers(
                left,
                top,
                rows,
                px,
                py,
            );
        assert(hit_at(m, left, top, rows, 0, px, py));
    }
}

impl ChipEight {
    /// `Dxyn`: draws the `n`-row sprite at `I` with its top left corner at
    /// `(Vx, Vy)`, by exclusive or and wrapped round the edges of the screen,
    /// and sets `VF` to 1 if that turned a pixel off and to 0 if not.
    pub fn draw_n_bytes_at_xy(&mut self, x: usize, y: usize, n: u16)
        requires
            old(self).wf(),
            x < 16,
            y < 16,
            n < 16,
        ensures
            final(self)@ == old(self)@.drw(x as int, y as int, n as int),
            final(self).wf(),
    {
        let f: usize = 0xF;
        let ghost before = self@;
        let left: u8 = self.v_registers[x];
        let top: u8 = self.v_registers[y];
        let rows: usize = n as usize;
        let mut collision: bool = false;
        let mut i: usize = 0;
        while i < rows
            invariant
                i <= rows < 16,
                before.wf(),
                self@ == (Machine { screen: self@.screen, ..before }),
                self@.screen.len() == 32,
                forall|py: int| 0 <= py < 32 ==> (#[trigger] self@.screen[py]).len() == 64,
                forall|px: int, py: int|
                    0 <= px < 64 && 0 <= py < 32 ==> self@.screen[py][px] == (before.screen[py][px]
                        ^ drawn(before, left, top, i as int, 0, px, py)),
                collision == drawn_hit(before, left, top, i as int, 0),
            decreases rows - i,
        {
            let row: u8 = self.memory[mask_addr(self.i_register as usize + i)];
            // A sprite that runs past the bottom of the screen goes on at the top.
            let sy: usize = (top as usize + i) % 32;
            let mut j: u8 = 0;
            while j < 8
                invariant
                    i < rows < 16,
                    j <= 8,
                    before.wf(),
                    row == before.sprite_row(i as int),
                    sy == (top + i) % 32,
                    self@ == (Machine { screen: self@.screen, ..before }),
                    self@.screen.len() == 32,
                    forall|py: int| 0 <= py < 32 ==> (#[trigger] self@.screen[py]).len() == 64,
                    forall|px: int, py: int|
                        0 <= px < 64 && 0 <= py < 32 ==> self@.screen[py][px] == (
                        before.screen[py][px] ^ drawn(before, left, top, i as int, j as int, px, py)),
                    collision == drawn_hit(before, left, top, i as int, j as int),
                decreases 8 - j,
            {
                // And one that runs past the right edge goes on at the left.
                let sx: usize = (left as usize + j as usize) % 64;
                let bit: bool = row_bit(row, j);
                let current_pixel: bool = self.screen[sy][sx];
                let ghost shown = self@.screen;
                self.screen[sy][sx] = current_pixel ^ bit;
                proof {
                    lemma_draw_cell(before, left, top, i as int, j as int);
                    lemma_hit_cell(before, left, top, i as int, j as int);
                    assert forall|px: int, py: int| 0 <= px < 64 && 0 <= py < 32 implies (
                    #[trigger] self@.screen[py][px]) == (before.screen[py][px] ^ drawn(
                        before,
                        left,
                        top,
                        i as int,
                        j + 1,
                        px,
                        py,
                    )) by {
                        if !(py == sy && px == sx) {
                            assert(self@.screen[py][px] == shown[py][px]);
                        }
                    }
                }
                // The pixel was on and the sprite turned it off: a collision.
                if current_pixel && bit {
                    collision = true;
                }
                j += 1;
            }
            proof {
                lemma_draw_row(before, left, top, i as int, i + 1);
            }
            i += 1;
        }
        proof {
            lemma_draw_done(before, left, top, n as int);
            assert(self@.screen =~~= before.screen_with_sprite(left, top, n as int));
        }
        self.v_registers[f] = if collision { 1 } else { 0 };
        self.pc = Self::pc_after(self.pc, 2);
    }

    /// The pixel in column `x` of row `y`.
    pub fn pixel(&self, x: usize, y: usize) -> (on: bool)
        requires
            x < 64,
            y < 32,
        ensures
            on == self@.pixel(x as int, y as int),
    {
        self.screen[y][x]
    }

    /// A snapshot of the screen, row by row: pixel `(x, y)` is entry
    /// `64 * y + x`.
    pub fn framebuffer(&self) -> (pixels: Vec<bool>)
        ensures
            pixels@.len() == 2048,
            forall|x: int, y: int|
                0 <= x < 64 && 0 <= y < 32 ==> pixels@[64 * y + x] == self@.pixel(x, y),
    {
        let mut pixels: Vec<bool> = Vec::with_capacity(2048);
        let mut y: usize = 0;
        while y < 32
            invariant
                y <= 32,
                pixels@.len() == 64 * y,
                forall|px: int, py: int|
                    0 <= px < 64 && 0 <= py < y ==> pixels@[64 * py + px] == self@.pixel(px, py),
            decreases 32 - y,
        {
            let mut x: usize = 0;
            while x < 64
                invariant
                    y < 32,
                    x <= 64,
                    pixels@.len() == 64 * y + x,
                    forall|px: int, py: int|
                        0 <= px < 64 && 0 <= py < y ==> pixels@[64 * py + px] == self@.pixel(
                            px,
                            py,
                        ),
                    forall|px: int| 0 <= px < x ==> pixels@[64 * y + px] == self@.pixel(px, y as int),
                decreases 64 - x,
            {
                pixels.push(self.screen[y][x]);
                x += 1;
            }
            y += 1;
        }
        pixels
    }
}

} // verus!
