use vstd::prelude::*;

verus! {

/// Number of colors in each of the two global palettes.
pub const COLORS_PER_PALETTE: u8 = 16;

/// Number of color slots in a local sub-palette.
pub const COLORS_PER_TILE: u8 = 4;

/// Number of local sub-palettes.
pub const LOCAL_PALETTE_COUNT: u8 = 16;

/// Index of the gray entry of the default palette, the power-on background color.
pub const GRAY: u8 = 5;

/// A 12-bit color packed as 0xRGB, four bits per channel.
#[derive(Debug, Clone, Copy, PartialEq, Eq, Structural, Hash, Default)]
pub struct Color12Bit(pub u16);

/// Index into one of the global palettes.
#[derive(Debug, Clone, Copy, PartialEq, Eq, Structural, PartialOrd, Ord, Hash, Default)]
pub struct ColorID(pub u8);

/// Index of a local sub-palette.
#[derive(Debug, Clone, Copy, PartialEq, Eq, Structural, PartialOrd, Ord, Hash, Default)]
pub struct PaletteID(pub u8);

impl PaletteID {
    pub fn id(&self) -> (r: usize)
        ensures
            r == self.0,
    {
        self.0 as usize
    }
}

/// The power-on colors of both global palettes, as 0xRGB.
pub open spec fn default_color_value(i: int) -> u16 {
    if i == 0 {
        0x000
    } else if i == 1 {
        0x125
    } else if i == 2 {
        0x725
    } else if i == 3 {
        0x085
    } else if i == 4 {
        0xA53
    } else if i == 5 {
        0x555
    } else if i == 6 {
        0xCCC
    } else if i == 7 {
        0xFFF
    } else if i == 8 {
        0xF04
    } else if i == 9 {
        0xFA0
    } else if i == 10 {
        0xFE2
    } else if i == 11 {
        0x0E3
    } else if i == 12 {
        0x2AF
    } else if i == 13 {
        0x879
    } else if i == 14 {
        0xF7A
    } else {
        0xFCA
    }
}

/// Power-on color of global palette entry `i`.
pub fn default_color(i: usize) -> (r: Color12Bit)
    requires
        i < 16,
    ensures
        r.0 == default_color_value(i as int),
{
    let v: u16 = if i == 0 {
        0x000
    } else if i == 1 {
        0x125
    } else if i == 2 {
        0x725
    } else if i == 3 {
        0x085
    } else if i == 4 {
        0xA53
    } else if i == 5 {
        0x555
    } else if i == 6 {
        0xCCC
    } else if i == 7 {
        0xFFF
    } else if i == 8 {
        0xF04
    } else if i == 9 {
        0xFA0
    } else if i == 10 {
        0xFE2
    } else if i == 11 {
        0x0E3
    } else if i == 12 {
        0x2AF
    } else if i == 13 {
        0x879
    } else if i == 14 {
        0xF7A
    } else {
        0xFCA
    };
    Color12Bit(v)
}

/// Local sub-palette `pid` maps pixel values to ColorIDs inside a global palette.
pub open spec fn local_palettes_ok(local: [[ColorID; 4]; 16]) -> bool {
    forall|p: int, s: int| 0 <= p < 16 && 0 <= s < 4 ==> (#[trigger] local@[p]@[s]).0 < 16
}

/// Every ColorID of a sub-palette names a global palette entry.
pub open spec fn colors_ok(colors: [ColorID; 4]) -> bool {
    forall|s: int| 0 <= s < 4 ==> (#[trigger] colors@[s]).0 < 16
}

/// The color that pixel value `value` takes through sub-palette `pid` and `global`.
pub open spec fn resolve_color(
    global: [Color12Bit; 16],
    local: [[ColorID; 4]; 16],
    pid: int,
    value: int,
) -> Color12Bit {
    global@[local@[pid]@[value].0 as int]
}

} // verus!
