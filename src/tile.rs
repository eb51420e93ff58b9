use vstd::prelude::*;

verus! {

/// Number of pixels along each side of a tile.
pub const TILE_SIZE: u8 = 8;

/// Unique identifier for a tile inside a caller-owned tile bank.
#[derive(Debug, Clone, Copy, PartialEq, Eq, Structural, PartialOrd, Ord, Hash, Default)]
pub struct TileID(pub u16);

/// Largest value a pixel of `bits` bits can hold, plus one.
pub open spec fn pixel_limit(bits: nat) -> nat
    decreases bits,
{
    if bits == 0 {
        1
    } else {
        2 * pixel_limit((bits - 1) as nat)
    }
}

/// Mask selecting the low `bits` bits of a word.
pub open spec fn low_mask(bits: u64) -> u64 {
    ((1u64 << bits) - 1) as u64
}

/// The pixel stored at bit offset `shift` of a packed row.
pub open spec fn packed_pixel(data: u64, shift: u64, bits: u64) -> u64 {
    (data >> shift) & low_mask(bits)
}

/// One tile row of eight pixels packed into a single word, `BITS_PER_PIXEL` bits each.
#[derive(Debug, Clone, Copy, PartialEq, Eq, Hash, Default)]
pub struct Cluster<const BITS_PER_PIXEL: usize> {
    pub data: u64,
}

/// Pixel depths a cluster can pack: eight pixels must fit the backing word.
pub open spec fn depth_ok(bits: usize) -> bool {
    1 <= bits <= 8
}

proof fn lemma_pixel_limit_mask(b: u64)
    requires
        1 <= b <= 8,
    ensures
        low_mask(b) + 1 == pixel_limit(b as nat),
        low_mask(b) <= 255,
{
    reveal_with_fuel(pixel_limit, 9);
    assert(b == 1 ==> low_mask(b) == 1) by (bit_vector);
    assert(b == 2 ==> low_mask(b) == 3) by (bit_vector);
    assert(b == 3 ==> low_mask(b) == 7) by (bit_vector);
    assert(b == 4 ==> low_mask(b) == 15) by (bit_vector);
    assert(b == 5 ==> low_mask(b) == 31) by (bit_vector);
    assert(b == 6 ==> low_mask(b) == 63) by (bit_vector);
    assert(b == 7 ==> low_mask(b) == 127) by (bit_vector);
    assert(b == 8 ==> low_mask(b) == 255) by (bit_vector);
}

proof fn lemma_row_offsets(x: u64, bits: u64)
    requires
        x < 8,
        1 <= bits <= 8,
    ensures
        x * bits + bits <= 64,
        (1u64 << bits) >= 2,
{
    assert(x * bits + bits <= 64) by (nonlinear_arith)
        requires
            x < 8,
            bits <= 8,
    ;
    assert((1u64 << bits) >= 2) by (bit_vector)
        requires
            1 <= bits <= 8,
    ;
}

impl<const BITS_PER_PIXEL: usize> Cluster<BITS_PER_PIXEL> {
    /// The value of pixel `x` of this row.
    pub open spec fn pixel(self, x: int) -> u8 {
        packed_pixel(self.data, (x * BITS_PER_PIXEL) as u64, BITS_PER_PIXEL as u64) as u8
    }

    /// Reads pixel `x`, masked to the pixel depth.
    pub fn get_subpixel(&self, x: u8) -> (r: u8)
        requires
            depth_ok(BITS_PER_PIXEL),
            x < 8,
        ensures
            r == self.pixel(x as int),
            (r as nat) < pixel_limit(BITS_PER_PIXEL as nat),
    {
        let bits = BITS_PER_PIXEL as u64;
        proof {
            lemma_row_offsets(x as u64, bits);
        }
        let shift = (x as u64) * bits;
        let mask = (1u64 << bits) - 1;
        let data = self.data;
        let v = (data >> shift) & mask;
        proof {
            lemma_pixel_limit_mask(bits);
            assert(v <= mask) by (bit_vector)
                requires
                    v == (data >> shift) & mask,
            ;
        }
        v as u8
    }

    /// Writes pixel `x`, leaving the other seven untouched.
    pub fn set_subpixel(&mut self, x: u8, value: u8)
        requires
            depth_ok(BITS_PER_PIXEL),
            x < 8,
            (value as nat) < pixel_limit(BITS_PER_PIXEL as nat),
        ensures
            final(self).pixel(x as int) == value,
            forall|i: int| 0 <= i < 8 && i != x ==> final(self).pixel(i) == old(self).pixel(i),
    {
        let bits = BITS_PER_PIXEL as u64;
        proof {
            lemma_row_offsets(x as u64, bits);
        }
        let shift = (x as u64) * bits;
        let mask = (1u64 << bits) - 1;
        let v = value as u64;
        let old_data = self.data;
        let new_data = (old_data & !(mask << shift)) | (v << shift);
        proof {
            lemma_pixel_limit_mask(bits);
            assert(((new_data >> shift) & mask) == v) by (bit_vector)
                requires
                    new_data == (old_data & !(mask << shift)) | (v << shift),
                    mask == ((1u64 << bits) - 1),
                    v <= mask,
                    1 <= bits <= 8,
                    shift + bits <= 64,
            ;
            assert forall|i: int| 0 <= i < 8 && i != x implies #[trigger] packed_pixel(
                new_data,
                (i * BITS_PER_PIXEL) as u64,
                bits,
            ) == packed_pixel(old_data, (i * BITS_PER_PIXEL) as u64, bits) by {
                let s2 = (i * BITS_PER_PIXEL) as u64;
                lemma_row_offsets(i as u64, bits);
                assert(s2 + bits <= shift || shift + bits <= s2) by (nonlinear_arith)
                    requires
                        s2 == i * bits,
                        shift == x * bits,
                        0 <= i < 8,
                        x < 8,
                        i != x,
                        1 <= bits <= 8,
                ;
                assert(s2 + bits <= 64) by (nonlinear_arith)
                    requires
                        s2 == i * bits,
                        0 <= i < 8,
                        bits <= 8,
                ;
                assert(((new_data >> s2) & mask) == ((old_data >> s2) & mask)) by (bit_vector)
                    requires
                        new_data == (old_data & !(mask << shift)) | (v << shift),
                        mask == ((1u64 << bits) - 1),
                        v <= mask,
                        1 <= bits <= 8,
                        shift + bits <= 64,
                        s2 + bits <= 64,
                        s2 + bits <= shift || shift + bits <= s2,
                ;
            }
        }
        self.data = new_data;
    }
}

/// An 8x8 grid of pixels, stored as eight packed rows.
#[derive(Debug, Clone, Copy, PartialEq, Eq, Hash, Default)]
pub struct Tile<const BITS_PER_PIXEL: usize> {
    pub clusters: [Cluster<BITS_PER_PIXEL>; 8],
}

impl<const BITS_PER_PIXEL: usize> Tile<BITS_PER_PIXEL> {
    /// The value of pixel (x, y) of this tile.
    pub open spec fn pixel(self, x: int, y: int) -> u8 {
        self.clusters@[y].pixel(x)
    }

    pub fn get_pixel(&self, x: u8, y: u8) -> (r: u8)
        requires
            depth_ok(BITS_PER_PIXEL),
            x < 8,
            y < 8,
        ensures
            r == self.pixel(x as int, y as int),
            (r as nat) < pixel_limit(BITS_PER_PIXEL as nat),
    {
        self.clusters[y as usize].get_subpixel(x)
    }

    pub fn set_pixel(&mut self, x: u8, y: u8, value: u8)
        requires
            depth_ok(BITS_PER_PIXEL),
            x < 8,
            y < 8,
            (value as nat) < pixel_limit(BITS_PER_PIXEL as nat),
        ensures
            final(self).pixel(x as int, y as int) == value,
            forall|i: int, j: int|
                0 <= i < 8 && 0 <= j < 8 && (i != x || j != y) ==> final(self).pixel(i, j)
                    == old(self).pixel(i, j),
    {
        let mut row = self.clusters[y as usize];
        row.set_subpixel(x, value);
        self.clusters[y as usize] = row;
    }
}

} // verus!

verus! {

/// Mirrors a tile coordinate when `flip` is set.
pub open spec fn flip_coord(v: int, flip: bool) -> int {
    if flip {
        7 - v
    } else {
        v
    }
}

/// Pixel (x, y) of tile `id` in a two-bit tile bank; an id past the bank's end reads as
/// transparent.
pub open spec fn bank_pixel(tiles: Seq<Tile<2>>, id: TileID, x: int, y: int) -> u8 {
    if (id.0 as int) < tiles.len() {
        tiles[id.0 as int].pixel(x, y)
    } else {
        0
    }
}

/// Reads pixel (x, y) of tile `id` of the bank, or 0 when the bank has no such tile.
pub fn bank_pixel_at(tiles: &[Tile<2>], id: TileID, x: u8, y: u8) -> (r: u8)
    requires
        x < 8,
        y < 8,
    ensures
        r == bank_pixel(tiles@, id, x as int, y as int),
        r < 4,
{
    proof {
        reveal_with_fuel(pixel_limit, 3);
    }
    if (id.0 as usize) < tiles.len() {
        tiles[id.0 as usize].get_pixel(x, y)
    } else {
        0
    }
}

} // verus!
