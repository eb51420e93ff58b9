use vstd::prelude::*;
use crate::palette::Color12Bit;
use crate::tile::Tile;
use crate::videochip::{DisplayParams, VideoChip};

verus! {

/// Host code run by a pixel stream in the middle of a frame (the horizontal IRQ). It
/// receives the current scanline and may change the display parameters; pixels from
/// the trigger column onward use the new values.
pub trait ScanlineHook {
    fn on_scanline(&mut self, line: u16, display: &mut DisplayParams);
}

/// A hook that changes nothing.
pub struct NoHook;

impl ScanlineHook for NoHook {
    fn on_scanline(&mut self, line: u16, display: &mut DisplayParams) {
    }
}

/// Forward-only producer of one frame's colors in row-major order.
pub struct PixelIter<'a> {
    pub chip: &'a VideoChip,
    pub tiles: &'a [Tile<2>],
    /// Display parameters in force, as the scanline hook last left them.
    pub params: DisplayParams,
    /// Position of the next pixel.
    pub x: u16,
    pub y: u16,
}

impl<'a> PixelIter<'a> {
    pub open spec fn wf(&self) -> bool {
        &&& self.chip.wf()
        &&& self.x < self.chip.spec_width()
        &&& self.y <= self.chip.spec_height()
        &&& self.y == self.chip.spec_height() ==> self.x == 0
    }

    /// Number of pixels the stream has yet to yield.
    pub open spec fn remaining(&self) -> int {
        (self.chip.spec_height() - self.y) * self.chip.spec_width() - self.x
    }

    /// Whether the hook runs before the pixel at the current position.
    pub open spec fn irq_due(&self) -> bool {
        self.chip.horizontal_irq_enabled && self.x == self.chip.horizontal_irq_position
            && self.y < self.chip.spec_height()
    }

    pub fn new(chip: &'a VideoChip, tiles: &'a [Tile<2>]) -> (r: Self)
        requires
            chip.wf(),
        ensures
            r.wf(),
            r.chip == chip,
            r.tiles@ == tiles@,
            r.params == chip.spec_params(),
            r.x == 0,
            r.y == 0,
            r.remaining() == chip.spec_width() * chip.spec_height(),
    {
        assert(chip.spec_height() * chip.spec_width() == chip.spec_width() * chip.spec_height())
            by (nonlinear_arith);
        PixelIter { chip, tiles, params: chip.display_params(), x: 0, y: 0 }
    }

    /// Yields the color of the next pixel, or None once the frame is done. When the
    /// horizontal IRQ is due at this position, `hook` runs first and the pixel uses the
    /// parameters it leaves.
    pub fn next_pixel<H: ScanlineHook>(&mut self, hook: &mut H) -> (r: Option<Color12Bit>)
        requires
            old(self).wf(),
        ensures
            final(self).wf(),
            final(self).chip == old(self).chip,
            final(self).tiles@ == old(self).tiles@,
            !old(self).irq_due() ==> final(self).params == old(self).params,
            r is Some <==> old(self).remaining() > 0,
            r is Some ==> final(self).remaining() == old(self).remaining() - 1,
            old(self).y >= old(self).chip.spec_height() ==> r is None && final(self).x == old(
                self,
            ).x && final(self).y == old(self).y,
            old(self).y < old(self).chip.spec_height() ==> {
                &&& r == Some(
                    old(self).chip.color_at(
                        old(self).tiles@,
                        final(self).params,
                        old(self).x as int,
                        old(self).y as int,
                    ),
                )
                &&& if old(self).x + 1 < old(self).chip.spec_width() {
                    final(self).x == old(self).x + 1 && final(self).y == old(self).y
                } else {
                    final(self).x == 0 && final(self).y == old(self).y + 1
                }
            },
    {
        proof {
            let w = self.chip.spec_width();
            let h = self.chip.spec_height();
            if self.y < h {
                assert((h - self.y) * w - self.x > 0) by (nonlinear_arith)
                    requires
                        self.y < h,
                        self.x < w,
                ;
                assert((h - (self.y + 1)) * w == (h - self.y) * w - w) by (nonlinear_arith);
            }
        }
        if self.y >= self.chip.height() {
            return None;
        }
        if self.chip.horizontal_irq_enabled && self.x == self.chip.horizontal_irq_position {
            hook.on_scanline(self.y, &mut self.params);
        }
        let color = self.chip.pixel_color(self.tiles, &self.params, self.x, self.y);
        if self.x + 1 < self.chip.width() {
            self.x = self.x + 1;
        } else {
            self.x = 0;
            self.y = self.y + 1;
        }
        Some(color)
    }
}

} // verus!
