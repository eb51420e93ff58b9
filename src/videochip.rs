use vstd::prelude::*;
use crate::bgmap::{BGMap, BgCell, TileFlags, BG_MAX_COLUMNS, BG_MAX_ROWS};
use crate::coords::floor_div_mod;
use crate::pixels::PixelIter;
use crate::palette::{
    colors_ok, default_color, default_color_value, local_palettes_ok, resolve_color, Color12Bit,
    ColorID, PaletteID, GRAY,
};
use crate::sprites::{sprite_row, top_sprite, SpriteEntry, SpriteGenerator, MAX_LINES};
use crate::tile::{bank_pixel, bank_pixel_at, flip_coord, Tile, TileID};

verus! {

/// A convenient packet of data used to draw a tile as a sprite.
#[derive(Debug, Clone, Copy)]
pub struct DrawBundle {
    pub x: i16,
    pub y: i16,
    pub id: TileID,
    pub flags: TileFlags,
}

/// Display parameters that may change in the middle of a frame: scroll offsets and the
/// viewport rectangle (inclusive edges).
#[derive(Debug, Clone, Copy, PartialEq, Eq, Structural)]
pub struct DisplayParams {
    pub scroll_x: i16,
    pub scroll_y: i16,
    pub view_left: u16,
    pub view_top: u16,
    pub view_right: u16,
    pub view_bottom: u16,
}

/// Folds a screen coordinate into the range [-8, size + 8), a torus one tile wider
/// than the screen on each side.
pub open spec fn wrap_coord(v: int, size: int) -> int {
    (v + 8) % (size + 16) - 8
}

/// Main drawing context that manages the screen, tiles, and palette.
#[derive(Debug)]
pub struct VideoChip {
    /// Fixed BG Tilemap
    pub bg: BGMap,
    /// The color rendered if resulting pixel is transparent
    pub bg_color: ColorID,
    /// The main FG palette with 16 colors. Used by sprites.
    pub fg_palette: [Color12Bit; 16],
    /// The main BG palette with 16 colors. Used by BG tiles.
    pub bg_palette: [Color12Bit; 16],
    /// Local Palettes, 16 with 4 ColorIDs each, each naming a color of a global palette.
    pub local_palettes: [[ColorID; 4]; 16],
    /// Maps i16 coordinates onto the screen, bringing sprites "outside the screen" into view.
    pub wrap_sprites: bool,
    /// Repeats the BG Map outside its borders
    pub wrap_bg: bool,
    /// Offsets the BG Map and Sprite tiles horizontally
    pub scroll_x: i16,
    /// Offsets the BG Map and Sprite tiles vertically
    pub scroll_y: i16,
    /// Determines which X coordinate triggers the horizontal IRQ callback
    pub horizontal_irq_position: u16,
    /// Whether a scanline callback is registered for the pixel stream.
    pub horizontal_irq_enabled: bool,
    /// Sprite placements of the current frame.
    pub sprite_gen: SpriteGenerator,
    /// Screen width in pixels.
    pub w: u16,
    /// Screen height in pixels (scanlines).
    pub h: u16,
    /// Viewport rectangle, inclusive edges.
    pub view_left: u16,
    pub view_top: u16,
    pub view_right: u16,
    pub view_bottom: u16,
    /// Frames started since the last reset.
    pub frame_count: usize,
    /// Next available tile ID.
    pub tile_id_head: usize,
    /// Next available pixel position in tile memory.
    pub tile_pixel_head: usize,
    /// Next sub-palette slot that `push_subpalette` fills.
    pub palette_head: u8,
}

impl VideoChip {
    pub open spec fn spec_width(&self) -> int {
        self.w as int
    }

    pub open spec fn spec_height(&self) -> int {
        self.h as int
    }

    pub open spec fn spec_frame_count(&self) -> int {
        self.frame_count as int
    }

    /// Next sub-palette slot that `push_subpalette` fills.
    pub open spec fn spec_palette_head(&self) -> int {
        self.palette_head as int
    }

    /// Sprite entries recorded on scanline `l` this frame.
    pub open spec fn sprite_line(&self, l: int) -> Seq<SpriteEntry> {
        self.sprite_gen.line(l)
    }

    /// The display parameters the chip holds outside any frame pass.
    pub open spec fn spec_params(&self) -> DisplayParams {
        DisplayParams {
            scroll_x: self.scroll_x,
            scroll_y: self.scroll_y,
            view_left: self.view_left,
            view_top: self.view_top,
            view_right: self.view_right,
            view_bottom: self.view_bottom,
        }
    }

    pub open spec fn wf(&self) -> bool {
        &&& 8 <= self.h <= MAX_LINES
        &&& self.w >= 1
        &&& self.bg.wf()
        &&& self.sprite_gen.wf()
        &&& local_palettes_ok(self.local_palettes)
        &&& self.bg_color.0 < 16
        &&& self.palette_head <= 16
    }

    /// No sprite has been placed this frame.
    pub open spec fn sprites_clear(&self) -> bool {
        forall|l: int| 0 <= l < MAX_LINES ==> (#[trigger] self.sprite_line(l)).len() == 0
    }

    /// Both global palettes hold the default colors.
    pub open spec fn palettes_default(&self) -> bool {
        &&& forall|i: int|
            0 <= i < 16 ==> (#[trigger] self.fg_palette@[i]).0 == default_color_value(i)
        &&& forall|i: int|
            0 <= i < 16 ==> (#[trigger] self.bg_palette@[i]).0 == default_color_value(i)
        &&& forall|p: int, s: int|
            0 <= p < 16 && 0 <= s < 4 ==> (#[trigger] self.local_palettes@[p]@[s]).0 == s
    }

    /// The power-on state of a chip with a `w` x `h` screen.
    pub open spec fn is_power_on(&self, w: int, h: int) -> bool {
        &&& self.wf()
        &&& self.spec_width() == w
        &&& self.spec_height() == h
        &&& self.bg_color == ColorID(GRAY)
        &&& self.wrap_sprites
        &&& self.wrap_bg
        &&& self.horizontal_irq_position == 0
        &&& !self.horizontal_irq_enabled
        &&& self.spec_frame_count() == 0
        &&& self.spec_palette_head() == 0
        &&& self.palettes_default()
        &&& self.bg.spec_columns() == BG_MAX_COLUMNS
        &&& self.bg.spec_rows() == BG_MAX_ROWS
        &&& self.bg.is_empty()
        &&& self.sprites_clear()
        &&& self.spec_params() == DisplayParams {
            scroll_x: 0,
            scroll_y: 0,
            view_left: 0,
            view_top: 0,
            view_right: (w - 1) as u16,
            view_bottom: (h - 1) as u16,
        }
    }

    /// The background color as the screen shows it.
    pub open spec fn backdrop(&self) -> Color12Bit {
        self.bg_palette@[self.bg_color.0 as int]
    }

    /// Color of a sprite pixel: its value through its sub-palette into the sprite palette.
    pub open spec fn sprite_color(&self, value: int, flags: TileFlags) -> Color12Bit {
        resolve_color(self.fg_palette, self.local_palettes, flags.palette.0 as int, value)
    }

    /// Background pixel value and flags at device (x, y) under parameters `p`.
    pub open spec fn bg_pixel(&self, tiles: Seq<Tile<2>>, p: DisplayParams, x: int, y: int) -> (
        u8,
        TileFlags,
    ) {
        match self.bg.sample_spec(x + p.scroll_x, y + p.scroll_y, self.wrap_bg) {
            Some((cell, lx, ly)) => (
                bank_pixel(
                    tiles,
                    cell.id,
                    flip_coord(lx, cell.flags.flip_x),
                    flip_coord(ly, cell.flags.flip_y),
                ),
                cell.flags,
            ),
            None => (0, TileFlags::default_flags()),
        }
    }

    /// Final color of device pixel (x, y) under display parameters `p`: outside the
    /// viewport the backdrop; else a front sprite pixel; else an opaque background
    /// pixel; else a back sprite pixel; else the backdrop.
    pub open spec fn color_at(&self, tiles: Seq<Tile<2>>, p: DisplayParams, x: int, y: int) -> Color12Bit {
        if !(p.view_left <= x <= p.view_right && p.view_top <= y <= p.view_bottom) {
            self.backdrop()
        } else {
            let spr = top_sprite(self.sprite_line(y), tiles, x);
            if spr matches Some(s) && s.flags.is_fg {
                self.sprite_color(spr->0.value as int, spr->0.flags)
            } else {
                let (v, f) = self.bg_pixel(tiles, p, x, y);
                if v != 0 {
                    resolve_color(self.bg_palette, self.local_palettes, f.palette.0 as int, v as int)
                } else if spr is Some {
                    self.sprite_color(spr->0.value as int, spr->0.flags)
                } else {
                    self.backdrop()
                }
            }
        }
    }

    /// Where a sprite drawn with `b` lands in device space, or None when it is culled.
    pub open spec fn placement(&self, b: DrawBundle) -> Option<(int, int)> {
        let sx = self.scroll_x as int;
        let sy = self.scroll_y as int;
        if self.wrap_sprites {
            Some(
                (
                    wrap_coord(b.x - sx, self.spec_width()),
                    wrap_coord(b.y - sy, self.spec_height()),
                ),
            )
        } else if b.x + 8 < sx || b.x > sx + self.spec_width() - 1 || b.y + 8 < sy || b.y > sy
            + self.spec_height() - 1 {
            None
        } else {
            Some((b.x - sx, b.y - sy))
        }
    }

    /// Everything but the sprites, the frame counter and the tile cursors is the same in
    /// both chips.
    pub open spec fn same_scene(&self, other: &VideoChip) -> bool {
        &&& self.bg == other.bg
        &&& self.bg_color == other.bg_color
        &&& self.fg_palette == other.fg_palette
        &&& self.bg_palette == other.bg_palette
        &&& self.local_palettes == other.local_palettes
        &&& self.wrap_sprites == other.wrap_sprites
        &&& self.wrap_bg == other.wrap_bg
        &&& self.horizontal_irq_position == other.horizontal_irq_position
        &&& self.horizontal_irq_enabled == other.horizontal_irq_enabled
        &&& self.spec_width() == other.spec_width()
        &&& self.spec_height() == other.spec_height()
        &&& self.spec_params() == other.spec_params()
        &&& self.spec_palette_head() == other.spec_palette_head()
    }
}

impl VideoChip {
    /// This chip with both scroll offsets set to (x, y).
    pub open spec fn with_scroll(self, x: i16, y: i16) -> VideoChip {
        VideoChip { scroll_x: x, scroll_y: y, ..self }
    }

    /// This chip with the viewport rectangle replaced.
    pub open spec fn with_viewport(self, left: u16, top: u16, right: u16, bottom: u16) -> VideoChip {
        VideoChip { view_left: left, view_top: top, view_right: right, view_bottom: bottom, ..self }
    }

    /// This chip with its palettes and sub-palette cursor replaced.
    pub open spec fn with_palettes(
        self,
        fg: [Color12Bit; 16],
        bg: [Color12Bit; 16],
        local: [[ColorID; 4]; 16],
        head: u8,
    ) -> VideoChip {
        VideoChip { fg_palette: fg, bg_palette: bg, local_palettes: local, palette_head: head, ..self }
    }

    /// This chip with its background map replaced.
    pub open spec fn with_bg(self, bg: BGMap) -> VideoChip {
        VideoChip { bg, ..self }
    }

    /// This chip with its sprite generator replaced.
    pub open spec fn with_sprites(self, sprite_gen: SpriteGenerator) -> VideoChip {
        VideoChip { sprite_gen, ..self }
    }

    /// This chip with its tile allocation cursors at zero.
    pub open spec fn with_tile_cursors_rewound(self) -> VideoChip {
        VideoChip { tile_id_head: 0, tile_pixel_head: 0, ..self }
    }

    /// Creates a chip with a `w` x `h` screen, in its power-on state.
    pub fn new(w: u16, h: u16) -> (r: Self)
        requires
            w >= 1,
            8 <= h <= MAX_LINES,
        ensures
            r.is_power_on(w as int, h as int),
    {
        let mut result = VideoChip {
            bg: BGMap::new(BG_MAX_COLUMNS, BG_MAX_ROWS),
            bg_color: ColorID(GRAY),
            fg_palette: [Color12Bit(0); 16],
            bg_palette: [Color12Bit(0); 16],
            local_palettes: [[ColorID(0); 4]; 16],
            wrap_sprites: true,
            wrap_bg: true,
            scroll_x: 0,
            scroll_y: 0,
            horizontal_irq_position: 0,
            horizontal_irq_enabled: false,
            sprite_gen: SpriteGenerator::new(),
            w,
            h,
            view_left: 0,
            view_top: 0,
            view_right: w - 1,
            view_bottom: h - 1,
            frame_count: 0,
            tile_id_head: 0,
            tile_pixel_head: 0,
            palette_head: 0,
        };
        result.reset_palettes();
        result
    }

    pub fn max_x(&self) -> (r: u16)
        requires
            self.wf(),
        ensures
            r == self.spec_width() - 1,
    {
        self.w - 1
    }

    pub fn max_y(&self) -> (r: u16)
        requires
            self.wf(),
        ensures
            r == self.spec_height() - 1,
    {
        self.h - 1
    }

    pub fn width(&self) -> (r: u16)
        ensures
            r == self.spec_width(),
    {
        self.w
    }

    pub fn height(&self) -> (r: u16)
        ensures
            r == self.spec_height(),
    {
        self.h
    }

    pub fn frame_count(&self) -> (r: usize)
        ensures
            r == self.spec_frame_count(),
    {
        self.frame_count
    }

    /// The display parameters the next pixel stream starts from.
    pub fn display_params(&self) -> (r: DisplayParams)
        ensures
            r == self.spec_params(),
    {
        DisplayParams {
            scroll_x: self.scroll_x,
            scroll_y: self.scroll_y,
            view_left: self.view_left,
            view_top: self.view_top,
            view_right: self.view_right,
            view_bottom: self.view_bottom,
        }
    }

    /// Does not affect BG or Sprites calculation, but "masks" stream pixels outside
    /// this rectangular area with the BG Color.
    pub fn set_viewport(&mut self, left: u16, top: u16, w: u16, h: u16)
        ensures
            *final(self) == old(self).with_viewport(
                left,
                top,
                if left + w > u16::MAX { u16::MAX } else { (left + w) as u16 },
                if top + h > u16::MAX { u16::MAX } else { (top + h) as u16 },
            ),
    {
        self.view_left = left;
        self.view_top = top;
        self.view_right = left.saturating_add(w);
        self.view_bottom = top.saturating_add(h);
    }

    /// Resets the chip to its power-on state, keeping its screen size.
    pub fn reset_all(&mut self)
        requires
            old(self).wf(),
        ensures
            final(self).is_power_on(old(self).spec_width(), old(self).spec_height()),
    {
        self.bg_color = ColorID(GRAY);
        self.wrap_sprites = true;
        self.wrap_bg = true;
        self.horizontal_irq_position = 0;
        self.horizontal_irq_enabled = false;
        self.frame_count = 0;
        self.reset_scroll();
        self.reset_tiles();
        self.reset_palettes();
        self.reset_bgmap();
        self.reset_viewport();
        self.reset_sprites();
    }

    /// Rewinds the tile allocation cursors.
    pub fn reset_tiles(&mut self)
        ensures
            *final(self) == old(self).with_tile_cursors_rewound(),
    {
        self.tile_id_head = 0;
        self.tile_pixel_head = 0;
    }

    /// Restores both global palettes and every sub-palette to their defaults.
    pub fn reset_palettes(&mut self)
        requires
        ensures
            final(self).palettes_default(),
            *final(self) == old(self).with_palettes(
                final(self).fg_palette,
                final(self).bg_palette,
                final(self).local_palettes,
                0,
            ),
    {
        let mut i: usize = 0;
        while i < 16
            invariant
                i <= 16,
                *self == (VideoChip {
                    fg_palette: self.fg_palette,
                    bg_palette: self.bg_palette,
                    local_palettes: self.local_palettes,
                    ..*old(self)
                }),
                forall|k: int| 0 <= k < i ==> (#[trigger] self.fg_palette@[k]).0 == default_color_value(k),
                forall|k: int| 0 <= k < i ==> (#[trigger] self.bg_palette@[k]).0 == default_color_value(k),
                forall|p: int, s: int|
                    0 <= p < i && 0 <= s < 4 ==> (#[trigger] self.local_palettes@[p]@[s]).0 == s,
            decreases 16 - i,
        {
            self.fg_palette[i] = default_color(i);
            self.bg_palette[i] = default_color(i);
            self.local_palettes[i] = [ColorID(0), ColorID(1), ColorID(2), ColorID(3)];
            i += 1;
        }
        self.palette_head = 0;
    }

    pub fn reset_scroll(&mut self)
        ensures
            *final(self) == old(self).with_scroll(0, 0),
    {
        self.scroll_x = 0;
        self.scroll_y = 0;
    }

    /// Replaces the background map with an empty one of the default size.
    pub fn reset_bgmap(&mut self)
        ensures
            final(self).bg.wf(),
            final(self).bg.is_empty(),
            final(self).bg.spec_columns() == BG_MAX_COLUMNS,
            final(self).bg.spec_rows() == BG_MAX_ROWS,
            *final(self) == old(self).with_bg(final(self).bg),
    {
        self.bg = BGMap::new(BG_MAX_COLUMNS, BG_MAX_ROWS);
    }

    /// Makes the viewport cover the whole screen.
    pub fn reset_viewport(&mut self)
        requires
            old(self).spec_width() >= 1,
            old(self).spec_height() >= 1,
        ensures
            *final(self) == old(self).with_viewport(
                0,
                0,
                (old(self).spec_width() - 1) as u16,
                (old(self).spec_height() - 1) as u16,
            ),
    {
        self.view_left = 0;
        self.view_top = 0;
        self.view_right = self.w - 1;
        self.view_bottom = self.h - 1;
    }

    /// Forgets every sprite placed this frame.
    pub fn reset_sprites(&mut self)
        requires
            old(self).wf(),
        ensures
            final(self).wf(),
            final(self).sprites_clear(),
            *final(self) == old(self).with_sprites(final(self).sprite_gen),
    {
        self.sprite_gen.reset();
    }
}


/// One step of a color cycle. With `max > min` the value counts up from `min` to `max`
/// and then starts again at `min`; otherwise it counts down from `min` to `max` and then
/// starts again at `min`.
pub open spec fn cycle_step(c: int, min: int, max: int) -> int {
    if max > min {
        if c >= max {
            min
        } else {
            c + 1
        }
    } else {
        if c <= max {
            min
        } else {
            c - 1
        }
    }
}

impl VideoChip {
    /// Overwrites sub-palette `index`.
    pub fn set_palette(&mut self, index: PaletteID, colors: [ColorID; 4])
        requires
            old(self).wf(),
            index.0 < 16,
            colors_ok(colors),
        ensures
            final(self).wf(),
            *final(self) == old(self).with_palettes(
                old(self).fg_palette,
                old(self).bg_palette,
                final(self).local_palettes,
                old(self).palette_head,
            ),
            final(self).local_palettes@ == old(self).local_palettes@.update(index.0 as int, colors),
    {
        self.local_palettes[index.0 as usize] = colors;
    }

    /// Fills the next free sub-palette slot and returns its ID. The 16 slots are handed
    /// out in order, 0 to 15, once per palette reset; asking for a 17th is a caller error.
    pub fn push_subpalette(&mut self, colors: [ColorID; 4]) -> (r: PaletteID)
        requires
            old(self).wf(),
            old(self).palette_head < 16,
            colors_ok(colors),
        ensures
            final(self).wf(),
            r == PaletteID(old(self).palette_head),
            *final(self) == old(self).with_palettes(
                old(self).fg_palette,
                old(self).bg_palette,
                final(self).local_palettes,
                (old(self).palette_head + 1) as u8,
            ),
            final(self).local_palettes@ == old(self).local_palettes@.update(
                old(self).palette_head as int,
                colors,
            ),
    {
        let result = self.palette_head;
        self.local_palettes[result as usize] = colors;
        self.palette_head = result + 1;
        PaletteID(result)
    }

    /// Draws a tile as a sprite anywhere in world coordinates: with sprite wrapping the
    /// position folds onto the screen, without it a tile entirely off screen is dropped.
    pub fn draw_sprite(&mut self, data: DrawBundle)
        requires
            old(self).wf(),
            data.flags.wf(),
        ensures
            final(self).wf(),
            *final(self) == old(self).with_sprites(final(self).sprite_gen),
            forall|l: int|
                0 <= l < MAX_LINES ==> #[trigger] final(self).sprite_line(l) == match old(
                    self,
                ).placement(data) {
                    Some((x, y)) => match sprite_row(
                        x,
                        y,
                        old(self).spec_width(),
                        old(self).spec_height(),
                        data.flags,
                        data.id,
                        l,
                    ) {
                        Some(e) => old(self).sprite_line(l).push(e),
                        None => old(self).sprite_line(l),
                    },
                    None => old(self).sprite_line(l),
                },
    {
        let size: i32 = 8;
        let wrapped_x: i32;
        let wrapped_y: i32;
        if self.wrap_sprites {
            let screen_x = data.x as i32 - self.scroll_x as i32;
            let screen_y = data.y as i32 - self.scroll_y as i32;
            let (_, fx) = floor_div_mod(screen_x + size, self.w as i32 + size * 2);
            let (_, fy) = floor_div_mod(screen_y + size, self.h as i32 + size * 2);
            wrapped_x = fx - size;
            wrapped_y = fy - size;
        } else {
            let max_x = self.scroll_x as i32 + self.w as i32 - 1;
            if (data.x as i32) + size < self.scroll_x as i32 || data.x as i32 > max_x {
                return ;
            }
            wrapped_x = data.x as i32 - self.scroll_x as i32;
            let max_y = self.scroll_y as i32 + self.h as i32 - 1;
            if (data.y as i32) + size < self.scroll_y as i32 || data.y as i32 > max_y {
                return ;
            }
            wrapped_y = data.y as i32 - self.scroll_y as i32;
        }
        self.sprite_gen.insert(wrapped_x, wrapped_y, self.w, self.h, data.flags, data.id);
    }

    /// Steps the ColorID in slot `color` of sub-palette `palette` by one, cycling between
    /// `min` and `max` (see `cycle_step`).
    pub fn color_cycle(&mut self, palette: PaletteID, color: u8, min: u8, max: u8)
        requires
            old(self).wf(),
            palette.0 < 16,
            color < 4,
            min < 16,
            max < 16,
        ensures
            final(self).wf(),
            *final(self) == old(self).with_palettes(
                old(self).fg_palette,
                old(self).bg_palette,
                final(self).local_palettes,
                old(self).palette_head,
            ),
            forall|p: int, s: int|
                0 <= p < 16 && 0 <= s < 4 ==> #[trigger] final(self).local_palettes@[p]@[s] == if p
                    == palette.0 && s == color {
                    ColorID(
                        cycle_step(old(self).local_palettes@[p]@[s].0 as int, min as int, max as int)
                            as u8,
                    )
                } else {
                    old(self).local_palettes@[p]@[s]
                },
    {
        let mut slots = self.local_palettes[palette.0 as usize];
        let current = slots[color as usize].0;
        let next: u8 = if max > min {
            if current >= max {
                min
            } else {
                current + 1
            }
        } else {
            if current <= max {
                min
            } else {
                current - 1
            }
        };
        slots[color as usize] = ColorID(next);
        self.local_palettes[palette.0 as usize] = slots;
    }
}

impl VideoChip {
    /// Starts a new frame: counts it and forgets the previous frame's sprites.
    pub fn start_frame(&mut self)
        requires
            old(self).wf(),
            old(self).frame_count < usize::MAX,
        ensures
            final(self).wf(),
            final(self).sprites_clear(),
            final(self).frame_count == old(self).frame_count + 1,
            final(self).same_scene(old(self)),
    {
        self.frame_count += 1;
        self.reset_sprites();
    }

    /// Sprite entries recorded on scanline `line` this frame, oldest first.
    pub fn sprite_entries(&self, line: u16) -> (r: &Vec<SpriteEntry>)
        requires
            self.wf(),
            line < MAX_LINES,
        ensures
            r@ == self.sprite_line(line as int),
    {
        self.sprite_gen.entries(line)
    }

    /// Final color of device pixel (x, y) under display parameters `p`.
    pub fn pixel_color(&self, tiles: &[Tile<2>], p: &DisplayParams, x: u16, y: u16) -> (r: Color12Bit)
        requires
            self.wf(),
            y < self.spec_height(),
        ensures
            r == self.color_at(tiles@, *p, x as int, y as int),
    {
        let backdrop = self.bg_palette[self.bg_color.0 as usize];
        if !(p.view_left <= x && x <= p.view_right && p.view_top <= y && y <= p.view_bottom) {
            return backdrop;
        }
        let spr = self.sprite_gen.pixel_at(tiles, x as i32, y);
        if let Some(s) = spr {
            if s.flags.is_fg {
                return self.resolve_fg(s.value, s.flags);
            }
        }
        let px = x as i32 + p.scroll_x as i32;
        let py = y as i32 + p.scroll_y as i32;
        if let Some(sample) = self.bg.sample(px, py, self.wrap_bg) {
            let cell = sample.cell;
            let fx = if cell.flags.flip_x {
                7 - sample.local_x
            } else {
                sample.local_x
            };
            let fy = if cell.flags.flip_y {
                7 - sample.local_y
            } else {
                sample.local_y
            };
            let v = bank_pixel_at(tiles, cell.id, fx, fy);
            if v != 0 {
                let cid = self.local_palettes[cell.flags.palette.0 as usize][v as usize];
                return self.bg_palette[cid.0 as usize];
            }
        }
        match spr {
            Some(s) => self.resolve_fg(s.value, s.flags),
            None => backdrop,
        }
    }

    fn resolve_fg(&self, value: u8, flags: TileFlags) -> (r: Color12Bit)
        requires
            self.wf(),
            value < 4,
            flags.wf(),
        ensures
            r == self.sprite_color(value as int, flags),
    {
        let cid = self.local_palettes[flags.palette.0 as usize][value as usize];
        self.fg_palette[cid.0 as usize]
    }

    /// A pixel stream over this frame, reading tiles from `tiles`.
    pub fn iter_pixels<'a>(&'a self, tiles: &'a [Tile<2>]) -> (r: PixelIter<'a>)
        requires
            self.wf(),
        ensures
            r.wf(),
            r.chip == self,
            r.tiles@ == tiles@,
            r.params == self.spec_params(),
            r.x == 0,
            r.y == 0,
            r.remaining() == self.spec_width() * self.spec_height(),
    {
        PixelIter::new(self, tiles)
    }
}

} // verus!

verus! {

/// Wrapped sprite coordinates always land within one tile of the screen:
/// in [-8, size + 8).
pub proof fn lemma_sprite_wrap_in_range(v: int, size: int)
    requires
        size >= 1,
    ensures
        -8 <= wrap_coord(v, size) < size + 8,
{
}

/// Without sprite wrapping, a sprite entirely outside [scroll - 8, scroll + screen] on
/// either axis is dropped, so drawing it records nothing.
pub proof fn lemma_sprite_cull(chip: &VideoChip, b: DrawBundle)
    requires
        !chip.wrap_sprites,
        b.x < chip.scroll_x - 8 || b.x > chip.scroll_x + chip.spec_width() || b.y < chip.scroll_y
            - 8 || b.y > chip.scroll_y + chip.spec_height(),
    ensures
        chip.placement(b) is None,
{
}

/// With an empty background map (over a tile bank whose tile 0, the empty reference, is
/// blank) and no sprites, every pixel of the frame shows the background color, whatever
/// the display parameters.
pub proof fn lemma_empty_scene(chip: &VideoChip, tiles: Seq<Tile<2>>, p: DisplayParams, x: int, y: int)
    requires
        chip.wf(),
        chip.bg.is_empty(),
        chip.sprites_clear(),
        forall|i: int, j: int| 0 <= i < 8 && 0 <= j < 8 ==> #[trigger] bank_pixel(tiles, TileID(0), i, j) == 0,
        0 <= y < chip.spec_height(),
    ensures
        chip.color_at(tiles, p, x, y) == chip.backdrop(),
{
    assert(top_sprite(chip.sprite_line(y), tiles, x) is None);
    let px = x + p.scroll_x;
    let py = y + p.scroll_y;
    chip.bg.lemma_dims_positive();
    let cols = chip.bg.spec_columns();
    let rows = chip.bg.spec_rows();
    if chip.wrap_bg {
        assert(0 <= (px / 8) % cols < cols);
        assert(0 <= (py / 8) % rows < rows);
        assert(chip.bg.cell((px / 8) % cols, (py / 8) % rows) == BgCell::default_spec());
    } else if 0 <= px && 0 <= py && px / 8 < cols && py / 8 < rows {
        assert(0 <= px / 8);
        assert(0 <= py / 8);
        assert(chip.bg.cell(px / 8, py / 8) == BgCell::default_spec());
    }
    assert(0 <= px % 8 < 8);
    assert(0 <= py % 8 < 8);
}

/// Two chips in the power-on state for one screen size agree on every setting and on
/// every pixel they would produce: the state after `reset_all` is the state after `new`.
pub proof fn lemma_power_on_unique(
    a: &VideoChip,
    b: &VideoChip,
    w: int,
    h: int,
    tiles: Seq<Tile<2>>,
    p: DisplayParams,
    x: int,
    y: int,
)
    requires
        a.is_power_on(w, h),
        b.is_power_on(w, h),
        0 <= y < h,
    ensures
        a.bg_color == b.bg_color,
        a.fg_palette@ == b.fg_palette@,
        a.bg_palette@ == b.bg_palette@,
        a.local_palettes@ == b.local_palettes@,
        a.wrap_sprites == b.wrap_sprites,
        a.wrap_bg == b.wrap_bg,
        a.horizontal_irq_position == b.horizontal_irq_position,
        a.horizontal_irq_enabled == b.horizontal_irq_enabled,
        a.spec_params() == b.spec_params(),
        a.frame_count == b.frame_count,
        a.palette_head == b.palette_head,
        a.spec_width() == b.spec_width(),
        a.spec_height() == b.spec_height(),
        a.bg.spec_columns() == b.bg.spec_columns(),
        a.bg.spec_rows() == b.bg.spec_rows(),
        forall|c: int, r: int|
            0 <= c < a.bg.spec_columns() && 0 <= r < a.bg.spec_rows() ==> #[trigger] a.bg.cell(c, r)
                == b.bg.cell(c, r),
        forall|l: int| 0 <= l < MAX_LINES ==> #[trigger] a.sprite_line(l) == b.sprite_line(l),
        a.color_at(tiles, p, x, y) == b.color_at(tiles, p, x, y),
{
    assert(a.fg_palette@ =~= b.fg_palette@);
    assert(a.bg_palette@ =~= b.bg_palette@);
    assert forall|i: int| 0 <= i < 16 implies a.local_palettes@[i] == b.local_palettes@[i] by {
        assert(a.local_palettes@[i]@ =~= b.local_palettes@[i]@);
    }
    assert(a.local_palettes@ =~= b.local_palettes@);
    assert forall|l: int| 0 <= l < MAX_LINES implies #[trigger] a.sprite_line(l) == b.sprite_line(
        l,
    ) by {
        assert(a.sprite_line(l).len() == 0);
        assert(b.sprite_line(l).len() == 0);
        assert(a.sprite_line(l) =~= b.sprite_line(l));
    }
    assert(a.sprite_line(y) == b.sprite_line(y));
    let px = x + p.scroll_x;
    let py = y + p.scroll_y;
    a.bg.lemma_dims_positive();
    let cols = a.bg.spec_columns();
    let rows = a.bg.spec_rows();
    assert(0 <= (px / 8) % cols < cols);
    assert(0 <= (py / 8) % rows < rows);
    if 0 <= px && 0 <= py && px / 8 < cols && py / 8 < rows {
        assert(a.bg.cell(px / 8, py / 8) == b.bg.cell(px / 8, py / 8));
    }
    assert(a.bg.cell((px / 8) % cols, (py / 8) % rows) == b.bg.cell((px / 8) % cols, (py / 8) % rows));
    assert(a.bg_pixel(tiles, p, x, y) == b.bg_pixel(tiles, p, x, y));
}

} // verus!
