use vstd::prelude::*;
use crate::color::Color;
use crate::machine::cell_of;
use crate::machine::MEMORY;
use crate::screen::Framebuffer;
use crate::screen::CELLS;
use crate::screen::HEIGHT;
use crate::screen::WIDTH;

verus! {

/// Whether column `col` of row `row` lies on the display.
pub open spec fn on_grid(col: int, row: int) -> bool {
    0 <= col < WIDTH && 0 <= row < HEIGHT
}

/// The grid after one pixel of palette index `index` is put at column
/// `col` of row `row`: a transparent pixel and a pixel off the display
/// change nothing.
pub open spec fn plotted(screen: Seq<u32>, col: int, row: int, index: u8) -> Seq<u32> {
    if index != 0 && on_grid(col, row) {
        screen.update(row * WIDTH + col, Color::of_index(index).packed())
    } else {
        screen
    }
}

/// Whether an opaque pixel put at column `col` of row `row` lands on a
/// cell that does not show the background.
pub open spec fn overlaps(screen: Seq<u32>, col: int, row: int, index: u8, background: u32) -> bool {
    index != 0 && on_grid(col, row) && screen[row * WIDTH + col] != background
}

/// A sprite to draw: `height` rows of `width` bytes each, read from
/// address `addr` on, with its top left pixel at column `x` of row `y`.
/// Each byte holds two pixels, the left one in its high nibble.
#[derive(Clone, Copy, Debug, PartialEq, Eq, Structural)]
pub struct Sprite {
    pub addr: u16,
    pub width: u8,
    pub height: u8,
    pub x: i16,
    pub y: i16,
}

impl Sprite {
    /// The palette index of the sprite's own pixel in column `c` of its
    /// row `r`.
    pub open spec fn pixel(self, memory: Seq<u8>, c: int, r: int) -> u8 {
        let byte = memory[cell_of(self.addr + r * self.width + c / 2)];
        if c % 2 == 0 {
            byte / 16
        } else {
            byte % 16
        }
    }

    /// Whether the sprite's rectangle holds display column `col` of row
    /// `row`.
    pub open spec fn covers(self, col: int, row: int) -> bool {
        &&& self.x <= col < self.x + 2 * self.width
        &&& self.y <= row < self.y + self.height
    }

    /// The palette index that the sprite puts at display column `col` of
    /// row `row`: 0, the transparent one, outside its rectangle.
    pub open spec fn index_at(self, memory: Seq<u8>, col: int, row: int) -> u8 {
        if self.covers(col, row) {
            self.pixel(memory, col - self.x, row - self.y)
        } else {
            0
        }
    }

    /// The value of cell `k` once the sprite is drawn over `screen`.
    pub open spec fn drawn_cell(self, memory: Seq<u8>, screen: Seq<u32>, k: int) -> u32 {
        let index = self.index_at(memory, k % (WIDTH as int), k / (WIDTH as int));
        if index != 0 {
            Color::of_index(index).packed()
        } else {
            screen[k]
        }
    }

    /// The grid once the sprite is drawn over `screen`. Only cells of the
    /// grid exist, so pixels that fall off the display are dropped.
    pub open spec fn draw(self, memory: Seq<u8>, screen: Seq<u32>) -> Seq<u32> {
        Seq::new(screen.len(), |k: int| self.drawn_cell(memory, screen, k))
    }

    /// Whether the sprite puts an opaque pixel on cell `k` while that cell
    /// does not show the background.
    pub open spec fn touches(self, memory: Seq<u8>, screen: Seq<u32>, background: u32, k: int) -> bool {
        &&& self.index_at(memory, k % (WIDTH as int), k / (WIDTH as int)) != 0
        &&& screen[k] != background
    }

    /// Whether any opaque pixel of the sprite lands on a cell of `screen`
    /// that does not show the background.
    pub open spec fn collides(self, memory: Seq<u8>, screen: Seq<u32>, background: u32) -> bool {
        exists|k: int| 0 <= k < screen.len() && #[trigger] self.touches(memory, screen, background, k)
    }

    /// Position of a display cell in the order in which the sprite's
    /// pixels are drawn: row by row, each row from the left.
    spec fn ordinal(self, col: int, row: int) -> int {
        (row - self.y) * (2 * self.width) + (col - self.x)
    }

    /// Whether cell `k` is where the pixel with ordinal `done` goes.
    spec fn drawn_at(self, k: int, done: int) -> bool {
        &&& self.covers(k % (WIDTH as int), k / (WIDTH as int))
        &&& self.ordinal(k % (WIDTH as int), k / (WIDTH as int)) == done
    }

    /// As `index_at`, with only the first `done` pixels drawn.
    spec fn index_upto(self, memory: Seq<u8>, col: int, row: int, done: int) -> u8 {
        if self.covers(col, row) && self.ordinal(col, row) < done {
            self.pixel(memory, col - self.x, row - self.y)
        } else {
            0
        }
    }

    /// As `drawn_cell`, with only the first `done` pixels drawn.
    spec fn cell_upto(self, memory: Seq<u8>, screen: Seq<u32>, k: int, done: int) -> u32 {
        let index = self.index_upto(memory, k % (WIDTH as int), k / (WIDTH as int), done);
        if index != 0 {
            Color::of_index(index).packed()
        } else {
            screen[k]
        }
    }

    /// As `touches`, with only the first `done` pixels drawn.
    spec fn touches_upto(
        self,
        memory: Seq<u8>,
        screen: Seq<u32>,
        background: u32,
        k: int,
        done: int,
    ) -> bool {
        &&& self.index_upto(memory, k % (WIDTH as int), k / (WIDTH as int), done) != 0
        &&& screen[k] != background
    }

    /// As `collides`, with only the first `done` pixels drawn.
    spec fn collides_upto(self, memory: Seq<u8>, screen: Seq<u32>, background: u32, done: int) -> bool {
        exists|k: int|
            0 <= k < screen.len() && #[trigger] self.touches_upto(memory, screen, background, k, done)
    }
}

/// Two positions in a row-major order of rows of `m` cells coincide when
/// their ordinals do.
proof fn lemma_ordinal_unique(a: int, b: int, r: int, c: int, m: int)
    requires
        0 <= b < m,
        0 <= c < m,
        a * m + b == r * m + c,
    ensures
        a == r,
        b == c,
{
    if a > r {
        assert((a - r) * m >= m) by (nonlinear_arith)
            requires
                a - r >= 1,
                m > 0,
        ;
        assert((a - r) * m == a * m - r * m) by (nonlinear_arith);
    } else if a < r {
        assert((r - a) * m >= m) by (nonlinear_arith)
            requires
                r - a >= 1,
                m > 0,
        ;
        assert((r - a) * m == r * m - a * m) by (nonlinear_arith);
    }
}

/// Every position inside `h` rows of `m` cells has an ordinal below
/// `h * m`.
proof fn lemma_ordinal_bound(a: int, b: int, h: int, m: int)
    requires
        0 <= a < h,
        0 <= b < m,
    ensures
        a * m + b < h * m,
{
    assert(a * m + m <= h * m) by (nonlinear_arith)
        requires
            a + 1 <= h,
            m > 0,
    ;
}

/// Drawing the pixel with ordinal `done`, after those before it, gives
/// the state with `done + 1` pixels drawn.
proof fn lemma_plot_step(
    s: Sprite,
    memory: Seq<u8>,
    screen: Seq<u32>,
    before: Seq<u32>,
    background: u32,
    c: int,
    r: int,
)
    requires
        screen.len() == CELLS,
        before.len() == CELLS,
        0 <= c < 2 * s.width,
        0 <= r < s.height,
        forall|k: int|
            0 <= k < CELLS ==> before[k] == #[trigger] s.cell_upto(
                memory,
                screen,
                k,
                r * (2 * s.width) + c,
            ),
    ensures
        forall|k: int|
            0 <= k < CELLS ==> plotted(before, s.x + c, s.y + r, s.pixel(memory, c, r))[k]
                == #[trigger] s.cell_upto(memory, screen, k, r * (2 * s.width) + c + 1),
        s.collides_upto(memory, screen, background, r * (2 * s.width) + c + 1) == (s.collides_upto(
            memory,
            screen,
            background,
            r * (2 * s.width) + c,
        ) || overlaps(before, s.x + c, s.y + r, s.pixel(memory, c, r), background)),
{
    let m = 2 * s.width;
    let done = r * m + c;
    let index = s.pixel(memory, c, r);
    let col0 = s.x + c;
    let row0 = s.y + r;
    let after = plotted(before, col0, row0, index);
    let cell0 = row0 * WIDTH + col0;
    assert(s.covers(col0, row0));
    assert(s.ordinal(col0, row0) == done);
    assert forall|k: int| 0 <= k < CELLS implies #[trigger] s.drawn_at(k, done) == (on_grid(
        col0,
        row0,
    ) && k == cell0) by {
        let col = k % (WIDTH as int);
        let row = k / (WIDTH as int);
        if s.drawn_at(k, done) {
            lemma_ordinal_unique(row - s.y, col - s.x, r, c, m);
        }
    }
    assert forall|k: int| 0 <= k < CELLS implies after[k] == #[trigger] s.cell_upto(
        memory,
        screen,
        k,
        done + 1,
    ) by {
        assert(before[k] == s.cell_upto(memory, screen, k, done));
        assert(s.drawn_at(k, done) == (on_grid(col0, row0) && k == cell0));
    }
    if on_grid(col0, row0) {
        assert(s.drawn_at(cell0, done));
        assert(before[cell0] == s.cell_upto(memory, screen, cell0, done));
        assert(before[cell0] == screen[cell0]);
    }
    let grown = s.collides_upto(memory, screen, background, done + 1);
    let had = s.collides_upto(memory, screen, background, done);
    let lands = overlaps(before, col0, row0, index, background);
    if had {
        let k = choose|k: int|
            0 <= k < screen.len() && #[trigger] s.touches_upto(memory, screen, background, k, done);
        assert(s.touches_upto(memory, screen, background, k, done + 1));
    }
    if lands {
        assert(s.touches_upto(memory, screen, background, cell0, done + 1));
    }
    if grown {
        let k = choose|k: int|
            0 <= k < screen.len() && #[trigger] s.touches_upto(
                memory,
                screen,
                background,
                k,
                done + 1,
            );
        if s.ordinal(k % (WIDTH as int), k / (WIDTH as int)) < done {
            assert(s.touches_upto(memory, screen, background, k, done));
        } else {
            assert(s.drawn_at(k, done));
            assert(k == cell0);
        }
    }
}

/// With every pixel drawn, the partial view is the whole one.
proof fn lemma_all_drawn(s: Sprite, memory: Seq<u8>, screen: Seq<u32>, background: u32)
    requires
        screen.len() == CELLS,
    ensures
        forall|k: int|
            0 <= k < CELLS ==> #[trigger] s.cell_upto(memory, screen, k, s.height * (2 * s.width))
                == s.drawn_cell(memory, screen, k),
        s.collides_upto(memory, screen, background, s.height * (2 * s.width)) == s.collides(
            memory,
            screen,
            background,
        ),
{
    let m = 2 * s.width;
    let all = s.height * m;
    assert forall|k: int| 0 <= k < CELLS implies #[trigger] s.index_upto(
        memory,
        k % (WIDTH as int),
        k / (WIDTH as int),
        all,
    ) == s.index_at(memory, k % (WIDTH as int), k / (WIDTH as int)) by {
        let col = k % (WIDTH as int);
        let row = k / (WIDTH as int);
        if s.covers(col, row) {
            lemma_ordinal_bound(row - s.y, col - s.x, s.height as int, m);
        }
    }
    assert forall|k: int| 0 <= k < CELLS implies #[trigger] s.cell_upto(memory, screen, k, all)
        == s.drawn_cell(memory, screen, k) by {
        assert(s.index_upto(memory, k % (WIDTH as int), k / (WIDTH as int), all) == s.index_at(
            memory,
            k % (WIDTH as int),
            k / (WIDTH as int),
        ));
    }
    if s.collides_upto(memory, screen, background, all) {
        let k = choose|k: int|
            0 <= k < screen.len() && #[trigger] s.touches_upto(memory, screen, background, k, all);
        assert(s.index_upto(memory, k % (WIDTH as int), k / (WIDTH as int), all) == s.index_at(
            memory,
            k % (WIDTH as int),
            k / (WIDTH as int),
        ));
        assert(s.touches(memory, screen, background, k));
    }
    if s.collides(memory, screen, background) {
        let k = choose|k: int|
            0 <= k < screen.len() && #[trigger] s.touches(memory, screen, background, k);
        assert(s.index_upto(memory, k % (WIDTH as int), k / (WIDTH as int), all) == s.index_at(
            memory,
            k % (WIDTH as int),
            k / (WIDTH as int),
        ));
        assert(s.touches_upto(memory, screen, background, k, all));
    }
}

/// Puts one pixel of palette index `index` at column `col` of row `row`,
/// unless it is transparent or off the display, and reports whether it
/// landed on a cell that did not show `background`.
pub fn plot(screen: &mut Framebuffer, col: i32, row: i32, index: u8, background: u32) -> (hit: bool)
    ensures
        final(screen)@ == plotted(old(screen)@, col as int, row as int, index),
        hit == overlaps(old(screen)@, col as int, row as int, index, background),
{
    if index != 0 && 0 <= col && col < WIDTH as i32 && 0 <= row && row < HEIGHT as i32 {
        let cell: usize = row as usize * WIDTH + col as usize;
        let hit = screen.get(cell) != background;
        screen.set(cell, u32::from(Color::from(index)));
        hit
    } else {
        false
    }
}

/// Draws `sprite` from `memory` onto `screen` and reports whether it
/// collided with anything that was not `background`.
pub fn draw_sprite(
    memory: &[u8; MEMORY],
    sprite: Sprite,
    background: u32,
    screen: &mut Framebuffer,
) -> (hit: bool)
    ensures
        final(screen)@ == sprite.draw(memory@, old(screen)@),
        hit == sprite.collides(memory@, old(screen)@, background),
{
    let ghost start = screen@;
    let _ = screen.len();
    let w: usize = sprite.width as usize;
    let h: usize = sprite.height as usize;
    let mut hit = false;
    let mut base: usize = 0;
    let mut j: usize = 0;
    proof {
        assert(!sprite.collides_upto(memory@, start, background, 0));
    }
    while j < h
        invariant
            j <= h,
            w == sprite.width,
            h == sprite.height,
            base == j * w,
            start.len() == CELLS,
            screen@.len() == CELLS,
            forall|k: int|
                0 <= k < CELLS ==> screen@[k] == #[trigger] sprite.cell_upto(
                    memory@,
                    start,
                    k,
                    j * (2 * w),
                ),
            hit == sprite.collides_upto(memory@, start, background, j * (2 * w)),
        decreases h - j,
    {
        let row: i32 = sprite.y as i32 + j as i32;
        let mut i: usize = 0;
        proof {
            assert(j * w <= 254 * 255) by (nonlinear_arith)
                requires
                    0 <= j <= 254,
                    0 <= w <= 255,
            ;
        }
        while i < w
            invariant
                i <= w,
                j < h,
                w == sprite.width,
                h == sprite.height,
                base == j * w,
                base <= 254 * 255,
                row == sprite.y + j,
                start.len() == CELLS,
                screen@.len() == CELLS,
                forall|k: int|
                    0 <= k < CELLS ==> screen@[k] == #[trigger] sprite.cell_upto(
                        memory@,
                        start,
                        k,
                        j * (2 * w) + 2 * i,
                    ),
                hit == sprite.collides_upto(memory@, start, background, j * (2 * w) + 2 * i),
            decreases w - i,
        {
            let byte: u8 = memory[(sprite.addr as usize + base + i) % 0x1_0000 % MEMORY];
            let left: u8 = byte >> 4;
            let right: u8 = byte & 0x0F;
            let col: i32 = sprite.x as i32 + 2 * (i as i32);
            proof {
                assert(byte >> 4 == byte / 16 && byte & 0x0F == byte % 16) by (bit_vector);
                assert(left == sprite.pixel(memory@, 2 * i, j as int));
                assert(right == sprite.pixel(memory@, 2 * i + 1, j as int));
                lemma_plot_step(sprite, memory@, start, screen@, background, 2 * i, j as int);
            }
            let first = plot(screen, col, row, left, background);
            proof {
                lemma_plot_step(sprite, memory@, start, screen@, background, 2 * i + 1, j as int);
            }
            let second = plot(screen, col + 1, row, right, background);
            hit = hit || first || second;
            i = i + 1;
        }
        proof {
            assert((j + 1) * (2 * w) == j * (2 * w) + 2 * w) by (nonlinear_arith);
            assert((j + 1) * w == j * w + w) by (nonlinear_arith);
        }
        base = base + w;
        j = j + 1;
    }
    proof {
        lemma_all_drawn(sprite, memory@, start, background);
        assert forall|k: int| 0 <= k < CELLS implies screen@[k] == sprite.drawn_cell(
            memory@,
            start,
            k,
        ) by {
            assert(screen@[k] == sprite.cell_upto(memory@, start, k, h * (2 * w)));
        }
        assert(screen@ =~= sprite.draw(memory@, start));
    }
    hit
}

} // verus!
