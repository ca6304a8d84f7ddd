use vstd::prelude::*;
use arrayvec::ArrayVec;
use crate::bits::lemma_and_le;
use crate::ppu::{Ppu, palette_color, plane_color};

verus! {

#[verifier::external_type_specification]
#[verifier::external_body]
#[verifier::reject_recursive_types(T)]
pub struct ExArrayVec<T, const CAP: usize>(ArrayVec<T, CAP>);

/// The keys held by a sprite list, in order.
pub uninterp spec fn sprite_keys(v: ArrayVec<u64, 10>) -> Seq<u64>;

/// Relies on `ArrayVec::new`: an empty list.
#[verifier::external_body]
fn sprite_list_new() -> (r: ArrayVec<u64, 10>)
    ensures
        sprite_keys(r) == Seq::<u64>::empty(),
{
    ArrayVec::new()
}

/// Relies on `ArrayVec::push`: appends at the end; it panics only when full.
#[verifier::external_body]
fn sprite_list_push(v: &mut ArrayVec<u64, 10>, key: u64)
    requires
        sprite_keys(*old(v)).len() < 10,
    ensures
        sprite_keys(*final(v)) == sprite_keys(*old(v)).push(key),
{
    v.push(key)
}

/// Relies on `ArrayVec::len`: the number of items held.
#[verifier::external_body]
fn sprite_list_len(v: &ArrayVec<u64, 10>) -> (r: usize)
    ensures
        r == sprite_keys(*v).len(),
{
    v.len()
}

/// Relies on indexing through `ArrayVec`'s slice view: the item at `i`.
#[verifier::external_body]
fn sprite_list_get(v: &ArrayVec<u64, 10>, i: usize) -> (r: u64)
    requires
        i < sprite_keys(*v).len(),
    ensures
        r == sprite_keys(*v)[i as int],
{
    v[i]
}

/// Relies on `slice::sort_unstable` through `ArrayVec`'s mutable slice view:
/// the same items, in ascending order.
#[verifier::external_body]
fn sprite_list_sort(v: &mut ArrayVec<u64, 10>)
    ensures
        sprite_keys(*final(v)).to_multiset() == sprite_keys(*old(v)).to_multiset(),
        sprite_keys(*final(v)).len() == sprite_keys(*old(v)).len(),
        forall|i: int, j: int|
            0 <= i < j < sprite_keys(*final(v)).len() ==> sprite_keys(*final(v))[i] <= sprite_keys(
                *final(v),
            )[j],
{
    v.sort_unstable()
}

/// Sprite height: 8, or 16 when LCDC bit 2 is set.
pub open spec fn sprite_height(lcdc: u8) -> u8 {
    if lcdc & 0x04 == 0x04 {
        16
    } else {
        8
    }
}

/// A sprite's top line on screen: its raw Y minus 16, wrapping.
pub open spec fn sprite_top(p: &Ppu, i: int) -> u8 {
    if p.oam@[4 * i] >= 16 {
        (p.oam@[4 * i] - 16) as u8
    } else {
        (p.oam@[4 * i] + 240) as u8
    }
}

/// A sprite's left column on screen: its raw X minus 8, wrapping.
pub open spec fn sprite_left(p: &Ppu, i: int) -> u8 {
    if p.oam@[4 * i + 1] >= 8 {
        (p.oam@[4 * i + 1] - 8) as u8
    } else {
        (p.oam@[4 * i + 1] + 248) as u8
    }
}

/// Whether OAM entry `i` covers the current line. Raw Y of 0 or at least 160
/// is skipped without taking a slot.
pub open spec fn sprite_on_line(p: &Ppu, i: int) -> bool {
    let raw_y = p.oam@[4 * i];
    let top = sprite_top(p, i);
    !(raw_y == 0 || raw_y >= 160 || p.ly < top || p.ly >= top + sprite_height(p.lcdc))
}

/// A sprite's sort key: left column, then OAM index.
pub open spec fn sprite_key(p: &Ppu, i: int) -> u64 {
    (sprite_left(p, i) * 64 + i) as u64
}

/// The keys of the first ten sprites on the line among the first `n` OAM entries.
pub open spec fn selected_sprites(p: &Ppu, n: nat) -> Seq<u64>
    decreases n,
{
    if n == 0 {
        Seq::empty()
    } else {
        let prev = selected_sprites(p, (n - 1) as nat);
        if prev.len() < 10 && sprite_on_line(p, n - 1) {
            prev.push(sprite_key(p, n - 1))
        } else {
            prev
        }
    }
}

/// The 2-bit color of a sprite tile at a row and column, with horizontal flip.
pub open spec fn sprite_color(p: &Ppu, tile: u8, row: u8, x: u8, flip_x: bool) -> u8 {
    let addr = 0x8000 + tile * 16 + row * 2;
    plane_color(p.vram(addr), p.vram(addr + 1), if flip_x { x } else { (7 - x) as u8 })
}

/// The color of the sprite of OAM entry `i` at column offset `off`.
pub open spec fn sprite_pixel_at(p: &Ppu, i: int, off: u8) -> u8 {
    let h = sprite_height(p.lcdc);
    let attr = p.oam@[4 * i + 3];
    let tile = p.oam@[4 * i + 2];
    let line = (p.ly - sprite_top(p, i)) as u8;
    let row = if attr & 0x40 == 0x40 {
        (h - 1 - line) as u8
    } else {
        line
    };
    let (t, r) = if h == 16 {
        if row < 8 {
            (tile & 0xFE, row)
        } else {
            (tile | 0x01, (row - 8) as u8)
        }
    } else {
        (tile, row)
    };
    sprite_color(p, t, r, off, attr & 0x20 == 0x20)
}

/// One pixel of a line with a sprite drawn over its old value `below`: color
/// 0 is transparent, and a sprite with the priority bit never covers a
/// nonzero pixel.
pub open spec fn sprite_over(p: &Ppu, below: u8, key: u64, x: int) -> u8 {
    let i = (key % 64) as int;
    let left = key / 64;
    let attr = p.oam@[4 * i + 3];
    let off = ((x - left) % 256) as u8;
    let color = sprite_pixel_at(p, i, off);
    if ((x - left) % 256) < 8 && !(attr & 0x80 == 0x80 && below != 0) && color != 0 {
        palette_color(if attr & 0x10 == 0x10 { p.obp1 } else { p.obp0 }, color)
    } else {
        below
    }
}

/// A line with one sprite drawn.
pub open spec fn draw_one(p: &Ppu, line: Seq<u8>, key: u64) -> Seq<u8> {
    Seq::new(160, |x: int| sprite_over(p, line[x], key, x))
}

/// A column is at offset `off` of a sprite exactly when it is the sprite's
/// left column plus `off`, wrapping.
pub proof fn lemma_column_offset(x: int, left: int, off: int)
    requires
        0 <= x < 256,
        0 <= left < 256,
        0 <= off < 256,
    ensures
        ((x - left) % 256 == off) <==> (x == (left + off) % 256),
{
}

/// A line with the sprites of `keys` drawn, the first key last (on top).
pub open spec fn draw_all(p: &Ppu, line: Seq<u8>, keys: Seq<u64>) -> Seq<u8>
    decreases keys.len(),
{
    if keys.len() == 0 {
        line
    } else {
        draw_one(p, draw_all(p, line, keys.drop_first()), keys[0])
    }
}

/// `ks` is the drawing order of the sprites on the line: the selected keys
/// in ascending order.
pub open spec fn sprite_order(p: &Ppu, ks: Seq<u64>) -> bool {
    &&& ks.to_multiset() == selected_sprites(p, 40).to_multiset()
    &&& ks.len() == selected_sprites(p, 40).len()
    &&& forall|a: int, b: int| 0 <= a < b < ks.len() ==> ks[a] <= ks[b]
}

impl Ppu {
    /// Fetches the color of a sprite tile at a row and column.
    pub fn get_sprite_pixel(&self, tile_index: u8, row: u8, x: u8, flip_x: bool) -> (r: u8)
        requires
            self.wf(),
            row < 8,
            x < 8,
        ensures
            r == sprite_color(self, tile_index, row, x, flip_x),
            r < 4,
    {
        let tile_offset = tile_index as usize * 16;
        let row_offset = row as usize * 2;
        let lower = self.memory[tile_offset + row_offset];
        let upper = self.memory[tile_offset + row_offset + 1];
        let bit: u8 = if flip_x {
            x
        } else {
            7 - x
        };
        let r = (((upper >> bit) & 1) << 1u8) | ((lower >> bit) & 1);
        assert(r < 4) by (bit_vector)
            requires
                r == (((upper >> bit) & 1) << 1u8) | ((lower >> bit) & 1),
        ;
        r
    }

    /// Draws one sprite into the line.
    #[verifier::loop_isolation(false)]
    pub fn draw_sprite(&self, scanline: &mut [u8; 160], key: u64)
        requires
            self.wf(),
            key % 64 < 40,
            key / 64 < 256,
            sprite_on_line(self, (key % 64) as int),
        ensures
            final(scanline)@ == draw_one(self, old(scanline)@, key),
    {
        let i = (key % 64) as usize;
        let left = (key / 64) as u8;
        let h: u8 = if self.lcdc & 0x04 == 0x04 {
            16
        } else {
            8
        };
        let attr = self.oam[4 * i + 3];
        let tile = self.oam[4 * i + 2];
        let raw_y = self.oam[4 * i];
        let top: u8 = if raw_y >= 16 {
            raw_y - 16
        } else {
            raw_y + 240
        };
        let line = self.ly - top;
        let row = if attr & 0x40 == 0x40 {
            h - 1 - line
        } else {
            line
        };
        let (tile_to_use, tile_row) = if h == 16 {
            if row < 8 {
                (tile & 0xFE, row)
            } else {
                (tile | 0x01, row - 8)
            }
        } else {
            (tile, row)
        };
        let flip_x = attr & 0x20 == 0x20;
        let palette = if attr & 0x10 == 0x10 {
            self.obp1
        } else {
            self.obp0
        };
        let ghost old_line = scanline@;
        let mut off: u8 = 0;
        while off < 8
            invariant
                self.wf(),
                off <= 8,
                tile_row < 8,
                i < 40,
                i == key % 64,
                left == key / 64,
                old_line.len() == 160,
                tile_row == (if h == 16 && row >= 8 { (row - 8) as u8 } else { row }),
                forall|x: int|
                    0 <= x < 160 ==> #[trigger] scanline@[x] == if ((x - left) % 256) < off {
                        draw_one(self, old_line, key)[x]
                    } else {
                        old_line[x]
                    },
            decreases 8 - off,
        {
            let screen_x = left.wrapping_add(off);
            let ghost prev = scanline@;
            if screen_x < 160 {
                let cur = scanline[screen_x as usize];
                let color = self.get_sprite_pixel(tile_to_use, tile_row, off, flip_x);
                let mut v = cur;
                if !(attr & 0x80 == 0x80 && cur != 0) {
                    if color != 0 {
                        v = (palette >> (color * 2)) & 0x03;
                    }
                }
                proof {
                    lemma_column_offset(screen_x as int, left as int, off as int);
                    assert(top == sprite_top(self, i as int));
                    assert(color == sprite_pixel_at(self, i as int, off));
                    assert(cur == old_line[screen_x as int]);
                }
                assert(v == sprite_over(self, old_line[screen_x as int], key, screen_x as int));
                scanline[screen_x as usize] = v;
            }
            proof {
                assert forall|x: int| 0 <= x < 160 implies #[trigger] scanline@[x] == if ((x - left)
                    % 256) < off + 1 {
                    draw_one(self, old_line, key)[x]
                } else {
                    old_line[x]
                } by {
                    lemma_column_offset(x, left as int, off as int);
                    assert(prev[x] == if ((x - left) % 256) < off {
                        draw_one(self, old_line, key)[x]
                    } else {
                        old_line[x]
                    });
                }
            }
            off = off + 1;
        }
    }

    /// Draws the sprites of the current line: at most ten, in OAM order, drawn
    /// so that a smaller X, then a smaller OAM index, ends on top.
    pub fn render_sprites(&self, scanline: &mut [u8; 160])
        requires
            self.wf(),
        ensures
            exists|ks: Seq<u64>|
                sprite_order(self, ks) && final(scanline)@ == draw_all(self, old(scanline)@, ks),
    {
        let h: u8 = if self.lcdc & 0x04 == 0x04 {
            16
        } else {
            8
        };
        let mut sprites = sprite_list_new();
        let mut i: usize = 0;
        while i < 40
            invariant
                self.wf(),
                i <= 40,
                h == sprite_height(self.lcdc),
                sprite_keys(sprites) == selected_sprites(self, i as nat),
            decreases 40 - i,
        {
            let raw_y = self.oam[4 * i];
            let raw_x = self.oam[4 * i + 1];
            let top: u8 = if raw_y >= 16 {
                raw_y - 16
            } else {
                raw_y + 240
            };
            let visible = !(raw_y == 0 || raw_y >= 160 || self.ly < top || self.ly >= top + h);
            if sprite_list_len(&sprites) < 10 && visible {
                let left: u8 = if raw_x >= 8 {
                    raw_x - 8
                } else {
                    raw_x + 248
                };
                sprite_list_push(&mut sprites, left as u64 * 64 + i as u64);
            }
            i = i + 1;
        }
        sprite_list_sort(&mut sprites);
        let ghost ks = sprite_keys(sprites);
        let ghost line0 = scanline@;
        let n = sprite_list_len(&sprites);
        let mut k = n;
        while k > 0
            invariant
                self.wf(),
                k <= n,
                n == ks.len(),
                ks == sprite_keys(sprites),
                sprite_order(self, ks),
                scanline@ == draw_all(self, line0, ks.subrange(k as int, n as int)),
            decreases k,
        {
            k = k - 1;
            let key = sprite_list_get(&sprites, k);
            proof {
                lemma_selected_keys(self, 40);
                ks.to_multiset_ensures();
                selected_sprites(self, 40).to_multiset_ensures();
                assert(ks.contains(key));
                assert(ks.to_multiset().count(key) > 0);
                assert(selected_sprites(self, 40).to_multiset().count(key) > 0);
                assert(selected_sprites(self, 40).contains(key));
                assert(ks.subrange(k as int, n as int).drop_first() =~= ks.subrange(k + 1, n as int));
            }
            self.draw_sprite(scanline, key);
        }
        assert(ks.subrange(0, n as int) =~= ks);
    }
}

/// The color a sprite's tile has at screen column `x`, 0 outside its eight columns.
pub open spec fn sprite_color_at(p: &Ppu, key: u64, x: int) -> u8 {
    sprite_pixel_at(p, (key % 64) as int, ((x - key / 64) % 256) as u8)
}

/// Whether a sprite shows a nonzero color at screen column `x`.
pub open spec fn sprite_covers(p: &Ppu, key: u64, x: int) -> bool {
    (x - key / 64) % 256 < 8 && sprite_color_at(p, key, x) != 0
}

/// The first sprite of `keys` that shows a color at column `x`.
pub open spec fn top_sprite(p: &Ppu, keys: Seq<u64>, x: int) -> Option<u64>
    decreases keys.len(),
{
    if keys.len() == 0 {
        None
    } else if sprite_covers(p, keys[0], x) {
        Some(keys[0])
    } else {
        top_sprite(p, keys.drop_first(), x)
    }
}

/// A sprite's color at column `x` through its palette.
pub open spec fn sprite_shade_at(p: &Ppu, key: u64, x: int) -> u8 {
    let attr = p.oam@[4 * (key % 64) + 3];
    palette_color(if attr & 0x10 == 0x10 { p.obp1 } else { p.obp0 }, sprite_color_at(p, key, x))
}

/// Without background priority, each column shows the first sprite of the
/// drawing order that has a color there: the smallest X, and on equal X the
/// lowest OAM index, is on top.
pub proof fn lemma_top_sprite_wins(p: &Ppu, line: Seq<u8>, keys: Seq<u64>, x: int)
    requires
        line.len() == 160,
        0 <= x < 160,
        forall|j: int| 0 <= j < keys.len() ==> #[trigger] p.oam@[4 * (keys[j] % 64) + 3] & 0x80 != 0x80,
    ensures
        draw_all(p, line, keys)[x] == match top_sprite(p, keys, x) {
            Some(k) => sprite_shade_at(p, k, x),
            None => line[x],
        },
    decreases keys.len(),
{
    if keys.len() > 0 {
        let rest = keys.drop_first();
        assert forall|j: int| 0 <= j < rest.len() implies #[trigger] p.oam@[4 * (rest[j] % 64) + 3] & 0x80 != 0x80 by {
            assert(rest[j] == keys[j + 1]);
        }
        lemma_top_sprite_wins(p, line, rest, x);
        assert(p.oam@[4 * (keys[0] % 64) + 3] & 0x80 != 0x80);
    }
}

/// The sprites chosen for a line do not depend on the window line counter.
pub proof fn lemma_selected_ignore_wly(p1: &Ppu, p2: &Ppu, n: nat)
    requires
        *p2 == (Ppu { wly: p2.wly, ..*p1 }),
    ensures
        selected_sprites(p1, n) == selected_sprites(p2, n),
    decreases n,
{
    if n > 0 {
        lemma_selected_ignore_wly(p1, p2, (n - 1) as nat);
    }
}

/// Drawing sprites does not depend on the window line counter.
pub proof fn lemma_draw_ignore_wly(p1: &Ppu, p2: &Ppu, line: Seq<u8>, keys: Seq<u64>)
    requires
        *p2 == (Ppu { wly: p2.wly, ..*p1 }),
    ensures
        draw_all(p1, line, keys) == draw_all(p2, line, keys),
    decreases keys.len(),
{
    if keys.len() > 0 {
        lemma_draw_ignore_wly(p1, p2, line, keys.drop_first());
        let below = draw_all(p1, line, keys.drop_first());
        assert(draw_one(p1, below, keys[0]) =~= draw_one(p2, below, keys[0]));
    }
}

/// Every selected key names an on-line entry below `n` by its index and
/// encodes that entry's left column.
pub proof fn lemma_selected_keys(p: &Ppu, n: nat)
    requires
        n <= 40,
        p.wf(),
    ensures
        forall|k: u64|
            selected_sprites(p, n).contains(k) ==> k % 64 < 40 && k / 64 < 256 && sprite_on_line(
                p,
                (k % 64) as int,
            ),
    decreases n,
{
    if n > 0 {
        lemma_selected_keys(p, (n - 1) as nat);
        let i = (n - 1) as int;
        let l = sprite_left(p, i) as int;
        assert(0 <= l * 64 + i <= 0x4000) by (nonlinear_arith)
            requires
                0 <= l < 256,
                0 <= i < 40,
        ;
        let k = sprite_key(p, i);
        assert(k == l * 64 + i);
        assert((l * 64 + i) % 64 == i && (l * 64 + i) / 64 == l) by (nonlinear_arith)
            requires
                0 <= l < 256,
                0 <= i < 40,
        ;
        let prev = selected_sprites(p, (n - 1) as nat);
        assert forall|k2: u64| selected_sprites(p, n).contains(k2) implies k2 % 64 < 40 && k2 / 64
            < 256 && sprite_on_line(p, (k2 % 64) as int) by {
            if !prev.contains(k2) {
                let j = choose|j: int| 0 <= j < selected_sprites(p, n).len() && selected_sprites(p, n)[j] == k2;
                assert(j == prev.len());
            }
        }
    }
}

} // verus!
