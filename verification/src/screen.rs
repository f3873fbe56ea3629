//! The framebuffer: 64 by 32 pixels, each on or off, and the drawing of
//! sprites onto it.

use vstd::prelude::*;

verus! {

/// The framebuffer, row by row from the top; `true` is a pixel that is on.
pub type Display = [[bool; 64]; 32];

/// A framebuffer as a sequence of 32 rows of 64 pixels.
pub open spec fn grid(d: Display) -> Seq<Seq<bool>> {
    Seq::new(32, |y: int| d@[y]@)
}

/// `g` has the screen's shape.
pub open spec fn is_grid(g: Seq<Seq<bool>>) -> bool {
    g.len() == 32 && forall|y: int| 0 <= y < 32 ==> (#[trigger] g[y]).len() == 64
}

/// The pixel in column `x` of row `y`.
pub open spec fn lit(g: Seq<Seq<bool>>, x: int, y: int) -> bool {
    g[y][x]
}

/// `(x, y)` is a place on the screen.
pub open spec fn on_screen(x: int, y: int) -> bool {
    0 <= x < 64 && 0 <= y < 32
}

/// The screen with every pixel off.
pub open spec fn blank() -> Seq<Seq<bool>> {
    Seq::new(32, |y: int| Seq::new(64, |x: int| false))
}

/// Bit `col` of a sprite row, counted from the left: column 0 is the byte's
/// highest bit.
pub open spec fn sprite_bit(row: u8, col: int) -> bool
    recommends
        0 <= col < 8,
{
    (row >> ((7 - col) as u8)) & 1u8 == 1u8
}

/// The sprite `rows`, with its top left corner at `(left, top)`, has a set bit
/// at `(x, y)`.
pub open spec fn covers(rows: Seq<u8>, left: int, top: int, x: int, y: int) -> bool {
    &&& top <= y < top + rows.len()
    &&& left <= x < left + 8
    &&& sprite_bit(rows[y - top], x - left)
}

/// The screen after the sprite was drawn: each pixel under a set bit is
/// flipped. What falls beyond the right or the lower edge is not drawn.
pub open spec fn drawn(g: Seq<Seq<bool>>, rows: Seq<u8>, left: int, top: int) -> Seq<Seq<bool>> {
    Seq::new(32, |y: int| Seq::new(64, |x: int| lit(g, x, y) != covers(rows, left, top, x, y)))
}

/// Drawing the sprite switches off a pixel that was on.
pub open spec fn collides(g: Seq<Seq<bool>>, rows: Seq<u8>, left: int, top: int) -> bool {
    exists|x: int, y: int|
        on_screen(x, y) && #[trigger] lit(g, x, y) && covers(rows, left, top, x, y)
}

/// The scan of a sprite, row by row and in each row from the left, has
/// passed `(x, y)` when it stands at column `j` of row `i` of the sprite.
pub open spec fn passed(left: int, top: int, i: int, j: int, x: int, y: int) -> bool {
    y - top < i || (y - top == i && x - left < j)
}

/// Two screens of the right shape with the same pixels are the same.
pub proof fn lemma_grid_ext(a: Seq<Seq<bool>>, b: Seq<Seq<bool>>)
    requires
        is_grid(a),
        is_grid(b),
        forall|x: int, y: int| on_screen(x, y) ==> #[trigger] lit(a, x, y) == lit(b, x, y),
    ensures
        a == b,
{
    assert forall|y: int| 0 <= y < 32 implies a[y] == b[y] by {
        assert forall|x: int| 0 <= x < 64 implies a[y][x] == b[y][x] by {
            assert(lit(a, x, y) == lit(b, x, y));
        }
        assert(a[y] =~= b[y]);
    }
    assert(a =~= b);
}

/// A blank framebuffer.
pub fn blank_display() -> (d: Display)
    ensures
        grid(d) == blank(),
{
    let d: Display = [[false; 64]; 32];
    proof {
        assert forall|x: int, y: int| on_screen(x, y) implies #[trigger] lit(grid(d), x, y) == lit(
            blank(),
            x,
            y,
        ) by {}
        lemma_grid_ext(grid(d), blank());
    }
    d
}

/// Draws the `n`-row sprite that stands at `memory[start..start + n]` with
/// its top left corner at `(left, top)`, flipping the pixels under its set
/// bits; says whether a pixel that was on went off.
pub fn draw_sprite(
    display: &mut Display,
    memory: &[u8; 4096],
    start: usize,
    n: usize,
    left: u8,
    top: u8,
) -> (hit: bool)
    requires
        start + n <= 4096,
        left < 64,
        top < 32,
    ensures
        grid(*final(display)) == drawn(
            grid(*old(display)),
            memory@.subrange(start as int, start + n),
            left as int,
            top as int,
        ),
        hit == collides(
            grid(*old(display)),
            memory@.subrange(start as int, start + n),
            left as int,
            top as int,
        ),
{
    let ghost g0 = grid(*display);
    let ghost rows = memory@.subrange(start as int, start + n);
    let ghost l = left as int;
    let ghost t = top as int;
    let mut hit = false;
    let mut i: usize = 0;
    while i < n && top as usize + i < 32
        invariant
            i <= n,
            start + n <= 4096,
            left < 64,
            top < 32,
            g0 == grid(*old(display)),
            rows == memory@.subrange(start as int, start + n),
            l == left as int,
            t == top as int,
            forall|x: int, y: int|
                on_screen(x, y) ==> #[trigger] lit(grid(*display), x, y) == (lit(g0, x, y) != (
                covers(rows, l, t, x, y) && passed(l, t, i as int, 0, x, y))),
            hit <==> exists|x: int, y: int|
                on_screen(x, y) && #[trigger] lit(g0, x, y) && covers(rows, l, t, x, y) && passed(
                    l,
                    t,
                    i as int,
                    0,
                    x,
                    y,
                ),
        decreases n - i,
    {
        let row: u8 = memory[start + i];
        let py: usize = top as usize + i;
        let mut j: u8 = 0;
        while j < 8 && left + j < 64
            invariant
                j <= 8,
                i < n,
                start + n <= 4096,
                left < 64,
                top < 32,
                py == top + i,
                py < 32,
                row == rows[i as int],
                g0 == grid(*old(display)),
                rows == memory@.subrange(start as int, start + n),
                l == left as int,
                t == top as int,
                forall|x: int, y: int|
                    on_screen(x, y) ==> #[trigger] lit(grid(*display), x, y) == (lit(g0, x, y) != (
                    covers(rows, l, t, x, y) && passed(l, t, i as int, j as int, x, y))),
                hit <==> exists|x: int, y: int|
                    on_screen(x, y) && #[trigger] lit(g0, x, y) && covers(rows, l, t, x, y)
                        && passed(l, t, i as int, j as int, x, y),
            decreases 8 - j,
        {
            let px: usize = (left + j) as usize;
            let bit: bool = (row >> (7 - j)) & 1 == 1;
            let before: bool = display[py][px];
            let ghost shown = grid(*display);
            let ghost was_hit = hit;
            proof {
                assert(bit == sprite_bit(row, j as int));
                assert(covers(rows, l, t, px as int, py as int) == bit);
                assert(before == lit(shown, px as int, py as int));
                assert(!passed(l, t, i as int, j as int, px as int, py as int));
                assert(before == lit(g0, px as int, py as int));
            }
            if bit && before {
                hit = true;
            }
            display[py][px] = before != bit;
            proof {
                assert forall|x: int, y: int| on_screen(x, y) implies #[trigger] lit(
                    grid(*display),
                    x,
                    y,
                ) == (lit(g0, x, y) != (covers(rows, l, t, x, y) && passed(
                    l,
                    t,
                    i as int,
                    j + 1,
                    x,
                    y,
                ))) by {
                    if x == px && y == py {
                    } else {
                        assert(lit(grid(*display), x, y) == lit(shown, x, y));
                        assert(passed(l, t, i as int, j + 1, x, y) == passed(
                            l,
                            t,
                            i as int,
                            j as int,
                            x,
                            y,
                        ));
                    }
                }
                if hit {
                    if was_hit {
                        let (x, y) = choose|x: int, y: int|
                            on_screen(x, y) && #[trigger] lit(g0, x, y) && covers(rows, l, t, x, y)
                                && passed(l, t, i as int, j as int, x, y);
                        assert(on_screen(x, y) && lit(g0, x, y) && covers(rows, l, t, x, y)
                            && passed(l, t, i as int, j + 1, x, y));
                    } else {
                        assert(on_screen(px as int, py as int) && lit(g0, px as int, py as int)
                            && covers(rows, l, t, px as int, py as int) && passed(
                            l,
                            t,
                            i as int,
                            j + 1,
                            px as int,
                            py as int,
                        ));
                    }
                } else {
                    assert forall|x: int, y: int|
                        !(on_screen(x, y) && #[trigger] lit(g0, x, y) && covers(rows, l, t, x, y)
                            && passed(l, t, i as int, j + 1, x, y)) by {
                        if x == px && y == py {
                        } else {
                            assert(passed(l, t, i as int, j + 1, x, y) == passed(
                                l,
                                t,
                                i as int,
                                j as int,
                                x,
                                y,
                            ));
                        }
                    }
                }
            }
            j += 1;
        }
        proof {
            assert forall|x: int, y: int|
                on_screen(x, y) && covers(rows, l, t, x, y) implies passed(
                l,
                t,
                i as int,
                j as int,
                x,
                y,
            ) == passed(l, t, i + 1, 0, x, y) by {}
            assert forall|x: int, y: int| on_screen(x, y) implies #[trigger] lit(
                grid(*display),
                x,
                y,
            ) == (lit(g0, x, y) != (covers(rows, l, t, x, y) && passed(l, t, i + 1, 0, x, y))) by {}
            if hit {
                let (x, y) = choose|x: int, y: int|
                    on_screen(x, y) && #[trigger] lit(g0, x, y) && covers(rows, l, t, x, y)
                        && passed(l, t, i as int, j as int, x, y);
                assert(on_screen(x, y) && lit(g0, x, y) && covers(rows, l, t, x, y) && passed(
                    l,
                    t,
                    i + 1,
                    0,
                    x,
                    y,
                ));
            }
        }
        i += 1;
    }
    proof {
        assert forall|x: int, y: int| on_screen(x, y) && covers(rows, l, t, x, y) implies passed(
            l,
            t,
            i as int,
            0,
            x,
            y,
        ) by {}
        assert forall|x: int, y: int| on_screen(x, y) implies #[trigger] lit(
            grid(*display),
            x,
            y,
        ) == lit(drawn(g0, rows, l, t), x, y) by {}
        lemma_grid_ext(grid(*display), drawn(g0, rows, l, t));
        if hit {
            let (x, y) = choose|x: int, y: int|
                on_screen(x, y) && #[trigger] lit(g0, x, y) && covers(rows, l, t, x, y) && passed(
                    l,
                    t,
                    i as int,
                    0,
                    x,
                    y,
                );
            assert(on_screen(x, y) && lit(g0, x, y) && covers(rows, l, t, x, y));
        }
    }
    hit
}

} // verus!
