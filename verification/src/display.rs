use vstd::prelude::*;

verus! {

/// Pixels in a row of the display.
pub const DISPLAY_WIDTH: usize = 64;

/// Rows of the display.
pub const DISPLAY_HEIGHT: usize = 32;

/// Whether pixel `k` of a sprite row is set, counted from the left: bit
/// `7 - k` of the row's byte.
pub open spec fn pixel_of(bits: u8, k: int) -> bool {
    (bits >> ((7 - k) as u8)) & 1u8 == 1u8
}

/// Whether a sprite row drawn with its left end at column `x` of row `y`
/// sets pixel `p` of the display. Columns wrap modulo 64, rows modulo 32.
pub open spec fn row_covers(bits: u8, x: int, y: int, p: int) -> bool {
    let dx = (p % 64 - x) % 64;
    &&& p / 64 == y % 32
    &&& dx < 8
    &&& pixel_of(bits, dx)
}

/// Whether a sprite drawn with its top left corner at column `x` of row `y`
/// sets pixel `p` of the display: `p` lies `dx` columns right of `x` and
/// `dy` rows below `y`, both counted with wrap-around, and pixel `dx` of the
/// sprite's row `dy` is set. Meant for sprites of at most 32 rows, which
/// never overlap themselves.
pub open spec fn sprite_covers(sprite: Seq<u8>, x: int, y: int, p: int) -> bool {
    let dx = (p % 64 - x) % 64;
    let dy = (p / 64 - y) % 32;
    &&& dx < 8
    &&& dy < sprite.len()
    &&& pixel_of(sprite[dy], dx)
}

/// The model of a [`Display`]: the pixels row by row, and whether they
/// changed since the host last read them.
#[verifier::ext_equal]
pub struct DisplayView {
    pub pixels: Seq<bool>,
    pub dirty: bool,
}

impl DisplayView {
    /// One flag for each of the 64 x 32 pixels.
    pub open spec fn wf(self) -> bool {
        self.pixels.len() == 2048
    }

    /// A dark display that has not changed.
    pub open spec fn blank() -> DisplayView {
        DisplayView { pixels: Seq::new(2048, |p: int| false), dirty: false }
    }

    /// The display after it was cleared.
    pub open spec fn cleared(self) -> DisplayView {
        DisplayView { pixels: Seq::new(2048, |p: int| false), dirty: true }
    }

    /// The display after one sprite row was combined into it by exclusive or.
    pub open spec fn xor_row(self, bits: u8, x: int, y: int) -> DisplayView {
        DisplayView {
            pixels: Seq::new(2048, |p: int| self.pixels[p] != row_covers(bits, x, y, p)),
            dirty: true,
        }
    }

    /// Whether that row turns a lit pixel off.
    pub open spec fn row_collides(self, bits: u8, x: int, y: int) -> bool {
        exists|p: int| 0 <= p < 2048 && self.pixels[p] && #[trigger] row_covers(bits, x, y, p)
    }

    /// The display after a sprite was combined into it by exclusive or.
    pub open spec fn xor_sprite(self, sprite: Seq<u8>, x: int, y: int) -> DisplayView {
        DisplayView {
            pixels: Seq::new(2048, |p: int| self.pixels[p] != sprite_covers(sprite, x, y, p)),
            dirty: true,
        }
    }

    /// Whether that sprite turns a lit pixel off.
    pub open spec fn collides(self, sprite: Seq<u8>, x: int, y: int) -> bool {
        exists|p: int|
            0 <= p < 2048 && self.pixels[p] && #[trigger] sprite_covers(sprite, x, y, p)
    }
}

/// The part of a row that has been drawn when its first `upto` pixels are
/// done.
pub open spec fn row_covers_upto(bits: u8, x: int, y: int, upto: int, p: int) -> bool {
    row_covers(bits, x, y, p) && (p % 64 - x) % 64 < upto
}

/// The part of a sprite that has been drawn when its first `rows` rows are
/// done.
pub open spec fn sprite_covers_upto(sprite: Seq<u8>, x: int, y: int, rows: int, p: int) -> bool {
    sprite_covers(sprite, x, y, p) && (p / 64 - y) % 32 < rows
}

/// One more row of a sprite: where `shown` is `before` with the first `row`
/// rows drawn and `hit` says whether these turned a lit pixel off, drawing
/// row `row` gives `before` with the first `row + 1` rows drawn, and a lit
/// pixel of `before` went dark if `hit` holds or this row turns one off.
#[verifier::rlimit(40)]
pub(crate) proof fn lemma_draw_row(
    before: DisplayView,
    shown: DisplayView,
    sprite: Seq<u8>,
    x: int,
    y: int,
    row: int,
    hit: bool,
)
    requires
        before.wf(),
        shown.wf(),
        0 <= row < sprite.len() <= 32,
        0 <= y,
        forall|p: int|
            0 <= p < 2048 ==> #[trigger] shown.pixels[p] == (before.pixels[p] != sprite_covers_upto(
                sprite,
                x,
                y,
                row,
                p,
            )),
        hit == (exists|p: int|
            0 <= p < 2048 && before.pixels[p] && #[trigger] sprite_covers_upto(sprite, x, y, row, p)),
    ensures
        forall|p: int|
            0 <= p < 2048 ==> #[trigger] shown.xor_row(sprite[row], x, (y + row) % 32).pixels[p] == (
            before.pixels[p] != sprite_covers_upto(sprite, x, y, row + 1, p)),
        (hit || shown.row_collides(sprite[row], x, (y + row) % 32)) == (exists|p: int|
            0 <= p < 2048 && before.pixels[p] && #[trigger] sprite_covers_upto(
                sprite,
                x,
                y,
                row + 1,
                p,
            )),
{
    let bits = sprite[row];
    let yr = (y + row) % 32;
    assert forall|p: int| 0 <= p < 2048 implies #[trigger] row_covers(bits, x, yr, p) == (
    sprite_covers(sprite, x, y, p) && (p / 64 - y) % 32 == row) by {}
    assert forall|p: int| 0 <= p < 2048 implies #[trigger] sprite_covers_upto(
        sprite,
        x,
        y,
        row + 1,
        p,
    ) == (sprite_covers_upto(sprite, x, y, row, p) || row_covers(bits, x, yr, p)) by {}
    assert forall|p: int| 0 <= p < 2048 && row_covers(bits, x, yr, p) implies #[trigger] shown.pixels[p]
        == before.pixels[p] by {
        assert(!sprite_covers_upto(sprite, x, y, row, p));
    }
    let hit_here = shown.row_collides(bits, x, yr);
    if hit_here {
        let q = choose|q: int| 0 <= q < 2048 && shown.pixels[q] && #[trigger] row_covers(bits, x, yr, q);
        assert(shown.pixels[q] == before.pixels[q]);
        assert(sprite_covers_upto(sprite, x, y, row + 1, q));
    } else if hit {
        let q = choose|q: int|
            0 <= q < 2048 && before.pixels[q] && #[trigger] sprite_covers_upto(sprite, x, y, row, q);
        assert(sprite_covers_upto(sprite, x, y, row + 1, q));
    } else {
        assert forall|q: int| 0 <= q < 2048 && before.pixels[q] implies !#[trigger] sprite_covers_upto(
            sprite,
            x,
            y,
            row + 1,
            q,
        ) by {
            if row_covers(bits, x, yr, q) {
                assert(shown.pixels[q] == before.pixels[q]);
            }
        }
    }
}

/// All rows of a sprite: where `drawn` is `before` with every row drawn and
/// `hit` says whether these turned a lit pixel off, `drawn` holds the pixels
/// of `before` combined with the sprite, and `hit` is its collision.
pub(crate) proof fn lemma_draw_done(
    before: DisplayView,
    drawn: DisplayView,
    sprite: Seq<u8>,
    x: int,
    y: int,
    hit: bool,
)
    requires
        before.wf(),
        drawn.wf(),
        forall|p: int|
            0 <= p < 2048 ==> #[trigger] drawn.pixels[p] == (before.pixels[p] != sprite_covers_upto(
                sprite,
                x,
                y,
                sprite.len() as int,
                p,
            )),
        hit == (exists|p: int|
            0 <= p < 2048 && before.pixels[p] && #[trigger] sprite_covers_upto(
                sprite,
                x,
                y,
                sprite.len() as int,
                p,
            )),
    ensures
        drawn.pixels == before.xor_sprite(sprite, x, y).pixels,
        hit == before.collides(sprite, x, y),
{
    let n = sprite.len() as int;
    assert forall|p: int| 0 <= p < 2048 implies #[trigger] sprite_covers_upto(sprite, x, y, n, p)
        == sprite_covers(sprite, x, y, p) by {}
    assert(drawn.pixels =~= before.xor_sprite(sprite, x, y).pixels);
    if hit {
        let q = choose|q: int|
            0 <= q < 2048 && before.pixels[q] && #[trigger] sprite_covers_upto(sprite, x, y, n, q);
        assert(sprite_covers(sprite, x, y, q));
    } else {
        assert forall|q: int| 0 <= q < 2048 && before.pixels[q] implies !#[trigger] sprite_covers(
            sprite,
            x,
            y,
            q,
        ) by {
            assert(sprite_covers_upto(sprite, x, y, n, q) == sprite_covers(sprite, x, y, q));
        }
    }
}

/// The 64x32 display: one flag per pixel, row by row, and a flag that says
/// whether the pixels changed since the host last read them.
pub struct Display {
    pub vram: [bool; 2048],
    pub dirty: bool,
}

impl View for Display {
    type V = DisplayView;

    open spec fn view(&self) -> DisplayView {
        DisplayView { pixels: self.vram@, dirty: self.dirty }
    }
}

impl Display {
    /// A dark display.
    pub fn new() -> (r: Display)
        ensures
            r@ == DisplayView::blank(),
    {
        let r = Display { vram: [false; 2048], dirty: false };
        assert(r@ =~= DisplayView::blank());
        r
    }

    /// Marks the pixels as changed.
    pub fn update_display(&mut self)
        ensures
            final(self)@ == (DisplayView { dirty: true, ..old(self)@ }),
    {
        self.dirty = true;
    }

    /// Hands the host the pixels and whether they changed since the last
    /// read, and clears that flag.
    pub fn receive_change(&mut self) -> (r: ([bool; 2048], bool))
        ensures
            r.0@ == old(self)@.pixels,
            r.1 == old(self)@.dirty,
            final(self)@ == (DisplayView { dirty: false, ..old(self)@ }),
    {
        let changed = self.dirty;
        self.dirty = false;
        (self.vram, changed)
    }

    /// Turns every pixel off and marks the pixels as changed.
    pub fn clear(&mut self)
        ensures
            final(self)@ == old(self)@.cleared(),
    {
        self.vram = [false; 2048];
        self.dirty = true;
        assert(self@ =~= old(self)@.cleared());
    }

    /// Combines one sprite row into the display by exclusive or, its left end
    /// at column `x` of row `y`, both taken with wrap-around, and marks the
    /// pixels as changed. Returns whether a lit pixel went dark.
    #[verifier::rlimit(40)]
    pub fn draw_row(&mut self, bits: u8, x: u8, y: u8) -> (collision: bool)
        ensures
            final(self)@ == old(self)@.xor_row(bits, x as int, y as int),
            collision == old(self)@.row_collides(bits, x as int, y as int),
    {
        let row: usize = (y % 32) as usize;
        let mut collision = false;
        let mut bit: u8 = 0;
        while bit < 8
            invariant
                bit <= 8,
                row == y % 32,
                self.dirty == old(self).dirty,
                forall|p: int|
                    0 <= p < 2048 ==> #[trigger] self.vram@[p] == (old(self).vram@[p]
                        != row_covers_upto(bits, x as int, y as int, bit as int, p)),
                collision == (exists|p: int|
                    0 <= p < 2048 && old(self).vram@[p] && #[trigger] row_covers_upto(
                        bits,
                        x as int,
                        y as int,
                        bit as int,
                        p,
                    )),
            decreases 8 - bit,
        {
            let col: usize = (x as usize + bit as usize) % 64;
            let at: usize = row * 64 + col;
            let on: bool = (bits >> (7 - bit)) & 1 == 1;
            let ghost before = self.vram@;
            let ghost hit = collision;
            proof {
                assert((at as int % 64 - x as int) % 64 == bit as int);
                assert(at as int / 64 == y as int % 32);
                assert(on == pixel_of(bits, bit as int));
                assert(!row_covers_upto(bits, x as int, y as int, bit as int, at as int));
                assert(before[at as int] == old(self).vram@[at as int]);
            }
            if on {
                if self.vram[at] {
                    collision = true;
                }
                self.vram[at] = !self.vram[at];
            }
            proof {
                assert forall|p: int| 0 <= p < 2048 implies #[trigger] self.vram@[p] == (old(
                    self,
                ).vram@[p] != row_covers_upto(bits, x as int, y as int, bit as int + 1, p)) by {
                    if p == at as int {
                    } else {
                        assert(before[p] == self.vram@[p]);
                        assert(row_covers_upto(bits, x as int, y as int, bit as int + 1, p)
                            == row_covers_upto(bits, x as int, y as int, bit as int, p));
                    }
                }
                if collision {
                    if hit {
                        let q = choose|q: int|
                            0 <= q < 2048 && old(self).vram@[q] && #[trigger] row_covers_upto(
                                bits,
                                x as int,
                                y as int,
                                bit as int,
                                q,
                            );
                        assert(row_covers_upto(bits, x as int, y as int, bit as int + 1, q));
                    } else {
                        assert(row_covers_upto(
                            bits,
                            x as int,
                            y as int,
                            bit as int + 1,
                            at as int,
                        ));
                    }
                } else {
                    assert forall|q: int|
                        0 <= q < 2048 && old(self).vram@[q] implies !#[trigger] row_covers_upto(
                        bits,
                        x as int,
                        y as int,
                        bit as int + 1,
                        q,
                    ) by {
                        if q != at as int {
                            assert(row_covers_upto(bits, x as int, y as int, bit as int + 1, q)
                                == row_covers_upto(bits, x as int, y as int, bit as int, q));
                        }
                    }
                }
            }
            bit += 1;
        }
        self.dirty = true;
        proof {
            assert forall|p: int| 0 <= p < 2048 implies row_covers_upto(
                bits,
                x as int,
                y as int,
                8,
                p,
            ) == row_covers(bits, x as int, y as int, p) by {}
            assert(self@ =~= old(self)@.xor_row(bits, x as int, y as int));
            if collision {
                let q = choose|q: int|
                    0 <= q < 2048 && old(self).vram@[q] && #[trigger] row_covers_upto(
                        bits,
                        x as int,
                        y as int,
                        8,
                        q,
                    );
                assert(row_covers(bits, x as int, y as int, q));
            } else {
                assert forall|q: int|
                    0 <= q < 2048 && old(self)@.pixels[q] implies !#[trigger] row_covers(
                    bits,
                    x as int,
                    y as int,
                    q,
                ) by {
                    assert(row_covers_upto(bits, x as int, y as int, 8, q) == row_covers(
                        bits,
                        x as int,
                        y as int,
                        q,
                    ));
                }
            }
        }
        collision
    }
}

} // verus!
