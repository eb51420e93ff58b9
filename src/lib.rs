//! Rendering core of a small tile-and-sprite video chip: packed tiles, two-level palettes,
//! a scrollable background map, per-scanline sprites and a row-major pixel stream with a
//! mid-frame scanline hook.
pub mod bgmap;
pub mod coords;
pub mod palette;
pub mod pixels;
pub mod sprites;
pub mod tile;
pub mod videochip;

pub use bgmap::{BGMap, BgCell, BgSample, TileFlags, BG_MAX_COLUMNS, BG_MAX_ROWS};
pub use coords::floor_div_mod;
pub use palette::{
    default_color, Color12Bit, ColorID, PaletteID, COLORS_PER_PALETTE, COLORS_PER_TILE, GRAY,
    LOCAL_PALETTE_COUNT,
};
pub use pixels::{NoHook, PixelIter, ScanlineHook};
pub use sprites::{SpriteEntry, SpriteGenerator, SpritePixel, MAX_LINES};
pub use tile::{bank_pixel_at, Cluster, Tile, TileID, TILE_SIZE};
pub use videochip::{DisplayParams, DrawBundle, VideoChip};
