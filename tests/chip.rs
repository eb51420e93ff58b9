use videochip::{
    floor_div_mod, BgCell, Cluster, Color12Bit, ColorID, DisplayParams, DrawBundle, NoHook,
    PaletteID, ScanlineHook, Tile, TileFlags, TileID, VideoChip,
};

const TILE_EMPTY: [u8; 64] = [0; 64];

const TILE_SOLID: [u8; 64] = [1; 64];

const TILE_CHECKERS: [u8; 64] = [
    0, 0, 0, 0, 1, 1, 1, 1, //
    0, 0, 0, 0, 1, 1, 1, 1, //
    0, 0, 0, 0, 1, 1, 1, 1, //
    0, 0, 0, 0, 1, 1, 1, 1, //
    2, 2, 2, 2, 3, 3, 3, 3, //
    2, 2, 2, 2, 3, 3, 3, 3, //
    2, 2, 2, 2, 3, 3, 3, 3, //
    2, 2, 2, 2, 3, 3, 3, 3, //
];

fn blank_tile() -> Tile<2> {
    Tile { clusters: [Cluster { data: 0 }; 8] }
}

fn tile_from(pixels: &[u8; 64]) -> Tile<2> {
    let mut t = blank_tile();
    for y in 0..8u8 {
        for x in 0..8u8 {
            t.set_pixel(x, y, pixels[y as usize * 8 + x as usize]);
        }
    }
    t
}

/// Tile whose column `x` holds value `x % 4`, so horizontal shifts are visible.
fn stripes_tile() -> Tile<2> {
    let mut t = blank_tile();
    for y in 0..8u8 {
        for x in 0..8u8 {
            t.set_pixel(x, y, x % 4);
        }
    }
    t
}

fn flags(is_fg: bool) -> TileFlags {
    TileFlags { flip_x: false, flip_y: false, is_fg, palette: PaletteID(0) }
}

fn frame(chip: &VideoChip, tiles: &[Tile<2>]) -> Vec<Color12Bit> {
    let mut it = chip.iter_pixels(tiles);
    let mut out = Vec::new();
    let mut hook = NoHook;
    while let Some(c) = it.next_pixel(&mut hook) {
        out.push(c);
    }
    out
}

const BACKDROP: Color12Bit = Color12Bit(0x555);

#[test]
fn set_get_round_trip_every_pixel_and_value() {
    for v in 0..4u8 {
        for y in 0..8u8 {
            for x in 0..8u8 {
                let mut t = tile_from(&TILE_CHECKERS);
                t.set_pixel(x, y, v);
                assert_eq!(t.get_pixel(x, y), v);
            }
        }
    }
}

#[test]
fn set_pixel_keeps_other_pixels() {
    let mut t = tile_from(&TILE_CHECKERS);
    t.set_pixel(3, 2, 3);
    for y in 0..8u8 {
        for x in 0..8u8 {
            if (x, y) != (3, 2) {
                assert_eq!(t.get_pixel(x, y), TILE_CHECKERS[y as usize * 8 + x as usize]);
            }
        }
    }
}

#[test]
fn four_bit_cluster_round_trip() {
    let mut c: Cluster<4> = Cluster { data: 0 };
    c.set_subpixel(7, 15);
    c.set_subpixel(0, 9);
    assert_eq!(c.get_subpixel(7), 15);
    assert_eq!(c.get_subpixel(0), 9);
    assert_eq!(c.get_subpixel(3), 0);
    assert_eq!(c.data, 0xF000_0009);
}

#[test]
fn fixture_tiles_read_back() {
    let solid = tile_from(&TILE_SOLID);
    let empty = tile_from(&TILE_EMPTY);
    let checkers = tile_from(&TILE_CHECKERS);
    for y in 0..8u8 {
        for x in 0..8u8 {
            assert_eq!(solid.get_pixel(x, y), 1);
            assert_eq!(empty.get_pixel(x, y), 0);
            let expected = match (x < 4, y < 4) {
                (true, true) => 0,
                (false, true) => 1,
                (true, false) => 2,
                (false, false) => 3,
            };
            assert_eq!(checkers.get_pixel(x, y), expected);
        }
    }
}

#[test]
fn push_subpalette_hands_out_sixteen_ids_in_order() {
    let mut chip = VideoChip::new(64, 32);
    let colors = [ColorID(1), ColorID(2), ColorID(3), ColorID(4)];
    for i in 0..16u8 {
        assert_eq!(chip.palette_head, i);
        assert_eq!(chip.push_subpalette(colors), PaletteID(i));
        assert_eq!(chip.local_palettes[i as usize], colors);
    }
    assert_eq!(chip.palette_head, 16);
    chip.reset_palettes();
    assert_eq!(chip.push_subpalette(colors), PaletteID(0));
}

#[test]
fn set_palette_overwrites_one_slot() {
    let mut chip = VideoChip::new(64, 32);
    let colors = [ColorID(15), ColorID(14), ColorID(13), ColorID(12)];
    chip.set_palette(PaletteID(7), colors);
    assert_eq!(chip.local_palettes[7], colors);
    assert_eq!(chip.local_palettes[6], [ColorID(0), ColorID(1), ColorID(2), ColorID(3)]);
}

#[test]
fn color_cycle_increment_wraps_to_min() {
    let mut chip = VideoChip::new(64, 32);
    chip.set_palette(PaletteID(2), [ColorID(3), ColorID(1), ColorID(0), ColorID(0)]);
    chip.color_cycle(PaletteID(2), 0, 0, 3);
    assert_eq!(chip.local_palettes[2][0], ColorID(0));
    chip.color_cycle(PaletteID(2), 1, 0, 3);
    assert_eq!(chip.local_palettes[2][1], ColorID(2));
}

#[test]
fn color_cycle_decrement_wraps_to_top() {
    let mut chip = VideoChip::new(64, 32);
    chip.set_palette(PaletteID(2), [ColorID(0), ColorID(2), ColorID(0), ColorID(0)]);
    chip.color_cycle(PaletteID(2), 0, 3, 0);
    assert_eq!(chip.local_palettes[2][0], ColorID(3));
    chip.color_cycle(PaletteID(2), 1, 3, 0);
    assert_eq!(chip.local_palettes[2][1], ColorID(1));
}

#[test]
fn sprite_wrap_brings_far_sprite_on_screen() {
    let mut chip = VideoChip::new(256, 192);
    chip.start_frame();
    chip.draw_sprite(DrawBundle { x: -1000, y: 0, id: TileID(1), flags: flags(true) });
    let entries = chip.sprite_entries(0);
    assert_eq!(entries.len(), 1);
    let x = entries[0].x;
    assert!(x >= -8 && x < 264);
    assert_eq!(x, 88);
    for line in 0..8u16 {
        assert_eq!(chip.sprite_entries(line).len(), 1);
        assert_eq!(chip.sprite_entries(line)[0].row, line as u8);
    }
    assert_eq!(chip.sprite_entries(8).len(), 0);
}

#[test]
fn sprite_wrap_straddles_top_edge() {
    let mut chip = VideoChip::new(64, 32);
    chip.start_frame();
    chip.draw_sprite(DrawBundle { x: 4, y: -3, id: TileID(1), flags: flags(true) });
    assert_eq!(chip.sprite_entries(0)[0].row, 3);
    assert_eq!(chip.sprite_entries(4)[0].row, 7);
    assert_eq!(chip.sprite_entries(5).len(), 0);
}

#[test]
fn sprite_cull_without_wrap() {
    let mut chip = VideoChip::new(256, 192);
    chip.wrap_sprites = false;
    chip.scroll_x = 40;
    chip.start_frame();
    chip.draw_sprite(DrawBundle { x: 40 - 9, y: 10, id: TileID(1), flags: flags(true) });
    chip.draw_sprite(DrawBundle { x: 40 + 257, y: 10, id: TileID(1), flags: flags(true) });
    chip.draw_sprite(DrawBundle { x: 50, y: -30, id: TileID(1), flags: flags(true) });
    for line in 0..192u16 {
        assert_eq!(chip.sprite_entries(line).len(), 0);
    }
    chip.draw_sprite(DrawBundle { x: 50, y: 10, id: TileID(1), flags: flags(true) });
    assert_eq!(chip.sprite_entries(10).len(), 1);
    assert_eq!(chip.sprite_entries(10)[0].x, 10);
}

#[test]
fn empty_scene_is_all_backdrop() {
    let chip = VideoChip::new(40, 16);
    let tiles = [blank_tile(), tile_from(&TILE_SOLID)];
    let out = frame(&chip, &tiles);
    assert_eq!(out.len(), 40 * 16);
    assert!(out.iter().all(|c| *c == BACKDROP));
}

#[test]
fn empty_scene_with_empty_bank() {
    let chip = VideoChip::new(8, 8);
    let out = frame(&chip, &[]);
    assert_eq!(out.len(), 64);
    assert!(out.iter().all(|c| *c == BACKDROP));
}

#[test]
fn reset_all_matches_new_chip() {
    let fresh = VideoChip::new(64, 32);
    let mut chip = VideoChip::new(64, 32);
    let tiles = [blank_tile(), tile_from(&TILE_SOLID)];
    chip.start_frame();
    chip.scroll_x = 5;
    chip.scroll_y = -7;
    chip.wrap_sprites = false;
    chip.wrap_bg = false;
    chip.bg_color = ColorID(9);
    chip.horizontal_irq_enabled = true;
    chip.horizontal_irq_position = 3;
    chip.set_viewport(2, 2, 10, 10);
    chip.push_subpalette([ColorID(9); 4]);
    chip.color_cycle(PaletteID(0), 1, 0, 3);
    chip.bg.set(1, 1, BgCell { id: TileID(1), flags: flags(false) });
    chip.draw_sprite(DrawBundle { x: 3, y: 3, id: TileID(1), flags: flags(true) });
    chip.reset_all();
    assert_eq!(chip.frame_count(), fresh.frame_count());
    assert_eq!(chip.scroll_x, fresh.scroll_x);
    assert_eq!(chip.scroll_y, fresh.scroll_y);
    assert_eq!(chip.wrap_sprites, fresh.wrap_sprites);
    assert_eq!(chip.wrap_bg, fresh.wrap_bg);
    assert_eq!(chip.bg_color, fresh.bg_color);
    assert_eq!(chip.horizontal_irq_enabled, fresh.horizontal_irq_enabled);
    assert_eq!(chip.horizontal_irq_position, fresh.horizontal_irq_position);
    assert_eq!(chip.display_params(), fresh.display_params());
    assert_eq!(chip.fg_palette, fresh.fg_palette);
    assert_eq!(chip.bg_palette, fresh.bg_palette);
    assert_eq!(chip.local_palettes, fresh.local_palettes);
    assert_eq!(chip.palette_head, fresh.palette_head);
    assert_eq!(chip.bg.get(1, 1), fresh.bg.get(1, 1));
    for line in 0..32u16 {
        assert_eq!(chip.sprite_entries(line).len(), 0);
    }
    assert_eq!(frame(&chip, &tiles), frame(&fresh, &tiles));
}

struct ScrollAt {
    new_scroll: i16,
    calls: Vec<u16>,
}

impl ScanlineHook for ScrollAt {
    fn on_scanline(&mut self, line: u16, display: &mut DisplayParams) {
        self.calls.push(line);
        display.scroll_x = self.new_scroll;
    }
}

fn striped_chip(scroll_x: i16) -> VideoChip {
    let mut chip = VideoChip::new(32, 8);
    chip.scroll_x = scroll_x;
    for col in 0..64u16 {
        for row in 0..64u16 {
            chip.bg.set(col, row, BgCell { id: TileID(1), flags: flags(false) });
        }
    }
    chip
}

#[test]
fn raster_split_changes_scroll_from_trigger_column() {
    let tiles = [blank_tile(), stripes_tile()];
    let before = frame(&striped_chip(0), &tiles);
    let after = frame(&striped_chip(1), &tiles);
    let mut chip = striped_chip(0);
    chip.horizontal_irq_enabled = true;
    chip.horizontal_irq_position = 10;
    let run = |chip: &VideoChip| {
        let mut hook = ScrollAt { new_scroll: 1, calls: Vec::new() };
        let mut it = chip.iter_pixels(&tiles);
        let mut out = Vec::new();
        while let Some(c) = it.next_pixel(&mut hook) {
            out.push(c);
        }
        (out, hook.calls)
    };
    let (out, calls) = run(&chip);
    assert_eq!(calls, (0..8u16).collect::<Vec<_>>());
    assert_eq!(out.len(), 32 * 8);
    for x in 0..32usize {
        let expected = if x < 10 { before[x] } else { after[x] };
        assert_eq!(out[x], expected);
    }
    for i in 32..out.len() {
        assert_eq!(out[i], after[i]);
    }
    assert_ne!(before[10], after[10]);
    assert_eq!(run(&chip).0, out);
}

#[test]
fn stream_ends_after_last_pixel() {
    let chip = VideoChip::new(9, 8);
    let tiles = [blank_tile()];
    let mut it = chip.iter_pixels(&tiles);
    let mut hook = NoHook;
    for _ in 0..72 {
        assert!(it.next_pixel(&mut hook).is_some());
    }
    assert_eq!(it.next_pixel(&mut hook), None);
    assert_eq!(it.next_pixel(&mut hook), None);
}

#[test]
fn later_sprite_paints_over_earlier_and_zero_is_transparent() {
    let mut chip = VideoChip::new(32, 16);
    let tiles = [blank_tile(), tile_from(&TILE_SOLID), tile_from(&TILE_CHECKERS)];
    chip.start_frame();
    chip.draw_sprite(DrawBundle { x: 0, y: 0, id: TileID(1), flags: flags(true) });
    chip.draw_sprite(DrawBundle { x: 0, y: 0, id: TileID(2), flags: flags(true) });
    let p = chip.display_params();
    // top-left quadrant of the checkers is 0: the solid tile below shows (value 1)
    assert_eq!(chip.pixel_color(&tiles, &p, 1, 1), Color12Bit(0x125));
    // other quadrants: values 1, 2, 3 of the later tile
    assert_eq!(chip.pixel_color(&tiles, &p, 5, 1), Color12Bit(0x125));
    assert_eq!(chip.pixel_color(&tiles, &p, 1, 5), Color12Bit(0x725));
    assert_eq!(chip.pixel_color(&tiles, &p, 5, 5), Color12Bit(0x085));
    assert_eq!(chip.pixel_color(&tiles, &p, 9, 5), BACKDROP);
}

#[test]
fn back_sprite_hides_behind_opaque_background() {
    let mut chip = VideoChip::new(32, 16);
    let tiles = [blank_tile(), tile_from(&TILE_SOLID), tile_from(&TILE_CHECKERS)];
    chip.bg.set(0, 0, BgCell { id: TileID(2), flags: flags(false) });
    chip.start_frame();
    chip.draw_sprite(DrawBundle { x: 0, y: 0, id: TileID(1), flags: flags(false) });
    let p = chip.display_params();
    // background value 0 there: the back sprite shows
    assert_eq!(chip.pixel_color(&tiles, &p, 1, 1), Color12Bit(0x125));
    // background value 3 there: it covers the back sprite
    assert_eq!(chip.pixel_color(&tiles, &p, 5, 5), Color12Bit(0x085));
    chip.start_frame();
    chip.draw_sprite(DrawBundle { x: 0, y: 0, id: TileID(1), flags: flags(true) });
    assert_eq!(chip.pixel_color(&tiles, &p, 5, 5), Color12Bit(0x125));
    assert_eq!(chip.frame_count(), 2);
}

#[test]
fn flip_x_mirrors_sprite() {
    let mut chip = VideoChip::new(32, 16);
    let tiles = [blank_tile(), stripes_tile()];
    chip.start_frame();
    let mut f = flags(true);
    f.flip_x = true;
    chip.draw_sprite(DrawBundle { x: 0, y: 0, id: TileID(1), flags: f });
    let p = chip.display_params();
    // column 0 shows tile column 7 (value 3)
    assert_eq!(chip.pixel_color(&tiles, &p, 0, 0), Color12Bit(0x085));
    // column 6 shows tile column 1 (value 1)
    assert_eq!(chip.pixel_color(&tiles, &p, 6, 0), Color12Bit(0x125));
}

#[test]
fn viewport_masks_outside_pixels() {
    let mut chip = striped_chip(0);
    let tiles = [blank_tile(), tile_from(&TILE_SOLID)];
    chip.set_viewport(4, 2, 3, 3);
    let p = chip.display_params();
    assert_eq!(p.view_right, 7);
    assert_eq!(p.view_bottom, 5);
    assert_eq!(chip.pixel_color(&tiles, &p, 3, 3), BACKDROP);
    assert_eq!(chip.pixel_color(&tiles, &p, 4, 3), Color12Bit(0x125));
    assert_eq!(chip.pixel_color(&tiles, &p, 7, 5), Color12Bit(0x125));
    assert_eq!(chip.pixel_color(&tiles, &p, 8, 5), BACKDROP);
    chip.set_viewport(65000, 0, 1000, 1);
    assert_eq!(chip.display_params().view_right, u16::MAX);
    chip.reset_viewport();
    assert_eq!(chip.display_params().view_right, 31);
    assert_eq!(chip.display_params().view_bottom, 7);
}

#[test]
fn background_wrap_and_no_wrap() {
    let mut chip = VideoChip::new(32, 8);
    let tiles = [blank_tile(), tile_from(&TILE_SOLID)];
    chip.bg.set(0, 0, BgCell { id: TileID(1), flags: flags(false) });
    chip.scroll_x = 64 * 8;
    let p = chip.display_params();
    // one whole map width to the right: wraps back onto cell (0, 0)
    assert_eq!(chip.pixel_color(&tiles, &p, 0, 0), Color12Bit(0x125));
    chip.wrap_bg = false;
    assert_eq!(chip.pixel_color(&tiles, &p, 0, 0), BACKDROP);
    chip.scroll_x = -8;
    let p = chip.display_params();
    assert_eq!(chip.pixel_color(&tiles, &p, 7, 0), BACKDROP);
    assert_eq!(chip.pixel_color(&tiles, &p, 8, 0), Color12Bit(0x125));
}

#[test]
fn bg_map_sample_exact() {
    let mut chip = VideoChip::new(32, 8);
    let cell = BgCell { id: TileID(3), flags: flags(false) };
    chip.bg.set(63, 63, cell);
    let s = chip.bg.sample(-1, -1, true).unwrap();
    assert_eq!(s.cell, cell);
    assert_eq!((s.local_x, s.local_y), (7, 7));
    assert!(chip.bg.sample(-1, 0, false).is_none());
    assert!(chip.bg.sample(64 * 8, 0, false).is_none());
    assert_eq!(chip.bg.columns(), 64);
    assert_eq!(chip.bg.rows(), 64);
}

#[test]
fn floor_div_mod_values() {
    assert_eq!(floor_div_mod(17, 8), (2, 1));
    assert_eq!(floor_div_mod(-1, 8), (-1, 7));
    assert_eq!(floor_div_mod(-16, 8), (-2, 0));
    assert_eq!(floor_div_mod(-992, 272), (-4, 96));
    assert_eq!(floor_div_mod(i32::MIN, 1), (i32::MIN, 0));
}

#[test]
fn screen_size_getters() {
    let chip = VideoChip::new(320, 240);
    assert_eq!(chip.width(), 320);
    assert_eq!(chip.height(), 240);
    assert_eq!(chip.max_x(), 319);
    assert_eq!(chip.max_y(), 239);
    assert_eq!(chip.frame_count(), 0);
}

#[test]
fn default_palette_colors() {
    let chip = VideoChip::new(32, 8);
    assert_eq!(chip.bg_palette[0], Color12Bit(0x000));
    assert_eq!(chip.fg_palette[7], Color12Bit(0xFFF));
    assert_eq!(chip.bg_palette[GRAY_INDEX], BACKDROP);
}

const GRAY_INDEX: usize = videochip::GRAY as usize;
