use vstd::prelude::*;
use crate::coords::floor_div_mod;
use crate::palette::PaletteID;
use crate::tile::TileID;

verus! {

/// Default number of background map columns.
pub const BG_MAX_COLUMNS: u16 = 64;

/// Default number of background map rows.
pub const BG_MAX_ROWS: u16 = 64;

/// Per-tile drawing options.
#[derive(Debug, Clone, Copy, PartialEq, Eq, Structural, Hash, Default)]
pub struct TileFlags {
    /// Mirrors the tile horizontally.
    pub flip_x: bool,
    /// Mirrors the tile vertically.
    pub flip_y: bool,
    /// For sprites: drawn above opaque background pixels when set, below them otherwise.
    pub is_fg: bool,
    /// Local sub-palette that colors the tile.
    pub palette: PaletteID,
}

impl TileFlags {
    /// The flags name an existing sub-palette.
    pub open spec fn wf(self) -> bool {
        self.palette.0 < 16
    }

    /// No flip, drawn behind the background, sub-palette 0.
    pub open spec fn default_flags() -> TileFlags {
        TileFlags { flip_x: false, flip_y: false, is_fg: false, palette: PaletteID(0) }
    }
}

/// One background map position.
#[derive(Debug, Clone, Copy, PartialEq, Eq, Structural, Hash, Default)]
pub struct BgCell {
    pub id: TileID,
    pub flags: TileFlags,
}

/// Where a device pixel lands on the background: the cell and the pixel inside its tile.
pub struct BgSample {
    pub cell: BgCell,
    pub local_x: u8,
    pub local_y: u8,
}

/// A grid of background cells, stored row by row.
#[derive(Debug)]
pub struct BGMap {
    columns: u16,
    rows: u16,
    cells: Vec<BgCell>,
}

/// The cell a map holds at (col, row).
pub open spec fn cell_at(cells: Seq<BgCell>, columns: int, col: int, row: int) -> BgCell {
    cells[row * columns + col]
}

impl BGMap {
    pub closed spec fn spec_columns(&self) -> int {
        self.columns as int
    }

    pub closed spec fn spec_rows(&self) -> int {
        self.rows as int
    }

    /// The cell at (col, row).
    pub closed spec fn cell(&self, col: int, row: int) -> BgCell {
        cell_at(self.cells@, self.columns as int, col, row)
    }

    pub closed spec fn wf(&self) -> bool {
        &&& self.columns > 0
        &&& self.rows > 0
        &&& self.cells@.len() == self.columns * self.rows
        &&& forall|i: int| 0 <= i < self.cells@.len() ==> (#[trigger] self.cells@[i]).flags.wf()
    }

    /// A well-formed map has at least one column and one row.
    pub proof fn lemma_dims_positive(&self)
        requires
            self.wf(),
        ensures
            self.spec_columns() > 0,
            self.spec_rows() > 0,
    {
    }

    /// Every cell refers to the empty tile reference.
    pub open spec fn is_empty(&self) -> bool {
        forall|c: int, r: int|
            0 <= c < self.spec_columns() && 0 <= r < self.spec_rows() ==> #[trigger] self.cell(c, r)
                == BgCell::default_spec()
    }

    /// What the background shows at world pixel (px, py).
    pub open spec fn sample_spec(&self, px: int, py: int, wrap: bool) -> Option<(BgCell, int, int)> {
        let col = px / 8;
        let row = py / 8;
        if wrap {
            Some((self.cell(col % self.spec_columns(), row % self.spec_rows()), px % 8, py % 8))
        } else if 0 <= px && 0 <= py && col < self.spec_columns() && row < self.spec_rows() {
            Some((self.cell(col, row), px % 8, py % 8))
        } else {
            None
        }
    }

    /// A map of `columns` x `rows` empty cells.
    pub fn new(columns: u16, rows: u16) -> (r: Self)
        requires
            columns > 0,
            rows > 0,
        ensures
            r.wf(),
            r.spec_columns() == columns,
            r.spec_rows() == rows,
            r.is_empty(),
    {
        proof {
            lemma_map_size(columns as int, rows as int);
        }
        let n = columns as usize * rows as usize;
        let mut cells: Vec<BgCell> = Vec::with_capacity(n);
        let mut i: usize = 0;
        while i < n
            invariant
                n == columns * rows,
                i <= n,
                cells@.len() == i,
                forall|k: int| 0 <= k < i ==> cells@[k] == BgCell::default_spec(),
            decreases n - i,
        {
            cells.push(BgCell::default_cell());
            i += 1;
        }
        let r = BGMap { columns, rows, cells };
        proof {
            assert forall|c: int, w: int| 0 <= c < columns && 0 <= w < rows implies #[trigger] r.cell(
                c,
                w,
            ) == BgCell::default_spec() by {
                lemma_cell_index(c, w, columns as int, rows as int);
            }
        }
        r
    }

    pub fn columns(&self) -> (r: u16)
        ensures
            r == self.spec_columns(),
    {
        self.columns
    }

    pub fn rows(&self) -> (r: u16)
        ensures
            r == self.spec_rows(),
    {
        self.rows
    }

    /// The cell at (col, row).
    pub fn get(&self, col: u16, row: u16) -> (r: BgCell)
        requires
            self.wf(),
            col < self.spec_columns(),
            row < self.spec_rows(),
        ensures
            r == self.cell(col as int, row as int),
            r.flags.wf(),
    {
        proof {
            lemma_cell_index(col as int, row as int, self.columns as int, self.rows as int);
            assert(row * self.columns <= row * self.columns + col);
        }
        self.cells[row as usize * self.columns as usize + col as usize]
    }

    /// Overwrites the cell at (col, row).
    pub fn set(&mut self, col: u16, row: u16, cell: BgCell)
        requires
            old(self).wf(),
            col < old(self).spec_columns(),
            row < old(self).spec_rows(),
            cell.flags.wf(),
        ensures
            final(self).wf(),
            final(self).spec_columns() == old(self).spec_columns(),
            final(self).spec_rows() == old(self).spec_rows(),
            final(self).cell(col as int, row as int) == cell,
            forall|c: int, w: int|
                0 <= c < old(self).spec_columns() && 0 <= w < old(self).spec_rows() && (c != col
                    || w != row) ==> #[trigger] final(self).cell(c, w) == old(self).cell(c, w),
    {
        proof {
            lemma_cell_index(col as int, row as int, self.columns as int, self.rows as int);
            assert(row * self.columns <= row * self.columns + col);
        }
        let idx = row as usize * self.columns as usize + col as usize;
        self.cells.set(idx, cell);
        proof {
            assert forall|c: int, w: int|
                0 <= c < self.columns && 0 <= w < self.rows && (c != col || w != row) implies
                #[trigger] self.cell(c, w) == old(self).cell(c, w) by {
                lemma_cell_index(c, w, self.columns as int, self.rows as int);
                lemma_cell_index_distinct(c, w, col as int, row as int, self.columns as int);
            }
        }
    }

    /// Resolves world pixel (px, py) to a cell and a pixel inside its tile; with `wrap`
    /// the map repeats in both directions, without it pixels off the map show nothing.
    pub fn sample(&self, px: i32, py: i32, wrap: bool) -> (r: Option<BgSample>)
        requires
            self.wf(),
        ensures
            match (r, self.sample_spec(px as int, py as int, wrap)) {
                (Some(s), Some(t)) => s.cell == t.0 && s.local_x == t.1 && s.local_y == t.2
                    && s.local_x < 8 && s.local_y < 8 && s.cell.flags.wf(),
                (None, None) => true,
                _ => false,
            },
    {
        let (col, lx) = floor_div_mod(px, 8);
        let (row, ly) = floor_div_mod(py, 8);
        if wrap {
            let (_, c) = floor_div_mod(col, self.columns as i32);
            let (_, w) = floor_div_mod(row, self.rows as i32);
            let cell = self.get(c as u16, w as u16);
            Some(BgSample { cell, local_x: lx as u8, local_y: ly as u8 })
        } else if px >= 0 && py >= 0 && col < self.columns as i32 && row < self.rows as i32 {
            let cell = self.get(col as u16, row as u16);
            Some(BgSample { cell, local_x: lx as u8, local_y: ly as u8 })
        } else {
            None
        }
    }
}

impl BgCell {
    /// The empty tile reference: tile 0 with default flags.
    pub open spec fn default_spec() -> BgCell {
        BgCell { id: TileID(0), flags: TileFlags::default_flags() }
    }

    pub fn default_cell() -> (r: BgCell)
        ensures
            r == BgCell::default_spec(),
    {
        BgCell {
            id: TileID(0),
            flags: TileFlags { flip_x: false, flip_y: false, is_fg: false, palette: PaletteID(0) },
        }
    }
}

proof fn lemma_cell_index(c: int, w: int, columns: int, rows: int)
    requires
        0 <= c < columns <= 0xFFFF,
        0 <= w < rows <= 0xFFFF,
    ensures
        0 <= w * columns + c < columns * rows <= 0xFFFF_FFFF,
{
    lemma_map_size(columns, rows);
    assert(w * columns + c < columns * rows) by (nonlinear_arith)
        requires
            0 <= c < columns,
            0 <= w < rows,
    ;
    assert(0 <= w * columns) by (nonlinear_arith)
        requires
            0 <= w,
            0 <= columns,
    ;
}

proof fn lemma_map_size(columns: int, rows: int)
    requires
        0 <= columns <= 0xFFFF,
        0 <= rows <= 0xFFFF,
    ensures
        columns * rows <= 0xFFFF_FFFF,
{
    assert(columns * rows <= 0xFFFF * 0xFFFF) by (nonlinear_arith)
        requires
            0 <= columns <= 0xFFFF,
            0 <= rows <= 0xFFFF,
    ;
}

proof fn lemma_cell_index_distinct(c: int, w: int, c2: int, w2: int, columns: int)
    requires
        0 <= c < columns,
        0 <= c2 < columns,
        c != c2 || w != w2,
    ensures
        w * columns + c != w2 * columns + c2,
{
    if w == w2 {
    } else {
        assert(w * columns + c != w2 * columns + c2) by (nonlinear_arith)
            requires
                0 <= c < columns,
                0 <= c2 < columns,
                w != w2,
        ;
    }
}

} // verus!
