use vstd::prelude::*;
use crate::bgmap::TileFlags;
use crate::tile::{bank_pixel, bank_pixel_at, flip_coord, Tile, TileID};

verus! {

/// Largest screen height, in scanlines.
pub const MAX_LINES: u16 = 240;

/// One sprite row recorded on one scanline.
#[derive(Debug, Clone, Copy, PartialEq, Eq, Structural)]
pub struct SpriteEntry {
    /// Device column of the tile's left edge.
    pub x: i32,
    /// Tile row, before any vertical flip, that this scanline shows.
    pub row: u8,
    pub id: TileID,
    pub flags: TileFlags,
}

/// A visible sprite pixel: its value and the flags of the sprite it belongs to.
#[derive(Debug, Clone, Copy, PartialEq, Eq, Structural)]
pub struct SpritePixel {
    pub value: u8,
    pub flags: TileFlags,
}

/// Value that `e` shows at device column `x` (0 where it does not cover `x`).
pub open spec fn entry_pixel(e: SpriteEntry, tiles: Seq<Tile<2>>, x: int) -> u8 {
    if e.x <= x < e.x + 8 {
        bank_pixel(
            tiles,
            e.id,
            flip_coord(x - e.x, e.flags.flip_x),
            flip_coord(e.row as int, e.flags.flip_y),
        )
    } else {
        0
    }
}

/// The visible sprite pixel at column `x` of a scanline: the latest recorded entry
/// whose pixel there is not transparent.
pub open spec fn top_sprite(entries: Seq<SpriteEntry>, tiles: Seq<Tile<2>>, x: int) -> Option<
    SpritePixel,
>
    decreases entries.len(),
{
    if entries.len() == 0 {
        None
    } else {
        let e = entries.last();
        let v = entry_pixel(e, tiles, x);
        if v != 0 {
            Some(SpritePixel { value: v, flags: e.flags })
        } else {
            top_sprite(entries.drop_last(), tiles, x)
        }
    }
}

/// The entry that a sprite drawn at (x, y) adds to scanline `line`, if any.
pub open spec fn sprite_row(
    x: int,
    y: int,
    screen_w: int,
    screen_h: int,
    flags: TileFlags,
    id: TileID,
    line: int,
) -> Option<SpriteEntry> {
    if y <= line < y + 8 && 0 <= line < screen_h && -8 < x < screen_w {
        Some(SpriteEntry { x: x as i32, row: (line - y) as u8, id, flags })
    } else {
        None
    }
}

/// Frame-scoped sprite placements, kept per scanline in drawing order.
#[derive(Debug)]
pub struct SpriteGenerator {
    lines: Vec<Vec<SpriteEntry>>,
}

impl SpriteGenerator {
    /// Entries recorded on scanline `l`, oldest first.
    pub closed spec fn line(&self, l: int) -> Seq<SpriteEntry> {
        self.lines@[l]@
    }

    pub closed spec fn wf(&self) -> bool {
        &&& self.lines@.len() == MAX_LINES
        &&& forall|l: int, k: int|
            0 <= l < MAX_LINES && 0 <= k < self.lines@[l]@.len() ==> (#[trigger] self.lines@[l]@[k]).row
                < 8 && self.lines@[l]@[k].flags.wf()
    }

    /// No sprite is recorded on any scanline.
    pub open spec fn is_clear(&self) -> bool {
        forall|l: int| 0 <= l < MAX_LINES ==> (#[trigger] self.line(l)).len() == 0
    }

    pub fn new() -> (r: Self)
        ensures
            r.wf(),
            r.is_clear(),
    {
        let mut lines: Vec<Vec<SpriteEntry>> = Vec::new();
        let mut i: usize = 0;
        while i < MAX_LINES as usize
            invariant
                i <= MAX_LINES,
                lines@.len() == i,
                forall|l: int| 0 <= l < i ==> (#[trigger] lines@[l])@.len() == 0,
            decreases MAX_LINES - i,
        {
            lines.push(Vec::new());
            i += 1;
        }
        SpriteGenerator { lines }
    }

    /// Forgets every placement.
    pub fn reset(&mut self)
        requires
            old(self).wf(),
        ensures
            final(self).wf(),
            final(self).is_clear(),
    {
        let mut i: usize = 0;
        while i < self.lines.len()
            invariant
                self.lines@.len() == MAX_LINES,
                i <= MAX_LINES,
                forall|l: int| 0 <= l < i ==> (#[trigger] self.lines@[l])@.len() == 0,
            decreases MAX_LINES - i,
        {
            self.lines[i].clear();
            i += 1;
        }
    }

    /// Records a sprite whose top-left corner is at device (x, y): one entry on each
    /// scanline of the screen that the tile covers, placed after earlier entries so
    /// that it shows on top of them. A tile that misses the screen horizontally adds
    /// nothing.
    pub fn insert(
        &mut self,
        x: i32,
        y: i32,
        screen_w: u16,
        screen_h: u16,
        flags: TileFlags,
        id: TileID,
    )
        requires
            old(self).wf(),
            screen_h <= MAX_LINES,
            flags.wf(),
        ensures
            final(self).wf(),
            forall|l: int|
                0 <= l < MAX_LINES ==> #[trigger] final(self).line(l) == match sprite_row(
                    x as int,
                    y as int,
                    screen_w as int,
                    screen_h as int,
                    flags,
                    id,
                    l,
                ) {
                    Some(e) => old(self).line(l).push(e),
                    None => old(self).line(l),
                },
    {
        if x <= -8 || x >= screen_w as i32 {
            return ;
        }
        let start: i32 = if y < 0 {
            0
        } else {
            y
        };
        let end: i32 = if y > screen_h as i32 - 8 {
            screen_h as i32
        } else {
            y + 8
        };
        let mut l: i32 = start;
        while l < end
            invariant
                self.wf(),
                flags.wf(),
                screen_h <= MAX_LINES,
                -8 < x < screen_w,
                start == if y < 0 { 0 } else { y },
                end == if y > screen_h - 8 { screen_h as int } else { y + 8 },
                0 <= start,
                y <= start,
                end <= y + 8,
                end <= screen_h,
                start <= l,
                l <= end || l == start,
                forall|k: int|
                    0 <= k < MAX_LINES ==> #[trigger] self.line(k) == if start <= k < l
                        && k < end {
                        old(self).line(k).push(
                            SpriteEntry { x, row: (k - y) as u8, id, flags },
                        )
                    } else {
                        old(self).line(k)
                    },
            decreases end - l,
        {
            let e = SpriteEntry { x, row: (l - y) as u8, id, flags };
            let ghost before = *self;
            self.lines[l as usize].push(e);
            proof {
                assert forall|k: int| 0 <= k < MAX_LINES implies #[trigger] self.line(k) == if start
                    <= k < l + 1 && k < end {
                    old(self).line(k).push(SpriteEntry { x, row: (k - y) as u8, id, flags })
                } else {
                    old(self).line(k)
                } by {
                    assert(before.line(k) == if start <= k < l && k < end {
                        old(self).line(k).push(SpriteEntry { x, row: (k - y) as u8, id, flags })
                    } else {
                        old(self).line(k)
                    });
                    if k != l {
                        assert(self.lines@[k] == before.lines@[k]);
                    }
                }
                assert forall|a: int, k: int|
                    0 <= a < MAX_LINES && 0 <= k < self.lines@[a]@.len() implies (
                    #[trigger] self.lines@[a]@[k]).row < 8 && self.lines@[a]@[k].flags.wf() by {
                    if a != l {
                        assert(self.lines@[a] == before.lines@[a]);
                    } else if k < before.lines@[a]@.len() {
                        assert(self.lines@[a]@[k] == before.lines@[a]@[k]);
                    }
                }
            }
            l += 1;
        }
    }

    /// Entries recorded on scanline `line`, oldest first.
    pub fn entries(&self, line: u16) -> (r: &Vec<SpriteEntry>)
        requires
            self.wf(),
            line < MAX_LINES,
        ensures
            r@ == self.line(line as int),
    {
        &self.lines[line as usize]
    }

    /// The sprite pixel visible at device (x, y), looked up in the tile bank.
    pub fn pixel_at(&self, tiles: &[Tile<2>], x: i32, y: u16) -> (r: Option<SpritePixel>)
        requires
            self.wf(),
            y < MAX_LINES,
        ensures
            r == top_sprite(self.line(y as int), tiles@, x as int),
            r matches Some(s) ==> s.value < 4 && s.flags.wf(),
    {
        let entries = &self.lines[y as usize];
        let mut i: usize = entries.len();
        assert(entries@.subrange(0, i as int) == entries@);
        while i > 0
            invariant
                i <= entries@.len(),
                entries@ == self.line(y as int),
                forall|k: int| 0 <= k < entries@.len() ==> (#[trigger] entries@[k]).row < 8
                    && entries@[k].flags.wf(),
                top_sprite(entries@, tiles@, x as int) == top_sprite(
                    entries@.subrange(0, i as int),
                    tiles@,
                    x as int,
                ),
            decreases i,
        {
            let e = entries[i - 1];
            proof {
                let sub = entries@.subrange(0, i as int);
                assert(sub.drop_last() == entries@.subrange(0, i - 1));
                assert(sub.last() == e);
            }
            if e.x <= x && (x as i64) < (e.x as i64) + 8 {
                let lx = (x - e.x) as u8;
                let fx = if e.flags.flip_x {
                    7 - lx
                } else {
                    lx
                };
                let fy = if e.flags.flip_y {
                    7 - e.row
                } else {
                    e.row
                };
                let v = bank_pixel_at(tiles, e.id, fx, fy);
                if v != 0 {
                    return Some(SpritePixel { value: v, flags: e.flags });
                }
            }
            i -= 1;
        }
        proof {
            assert(entries@.subrange(0, 0).len() == 0);
        }
        None
    }
}

} // verus!
