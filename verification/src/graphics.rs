//! Choosing a display mode and describing the framebuffer it gives.
//!
//! Of the modes the firmware offers, only those with one of the two linear
//! 32-bit colour layouts can be drawn to. Among them the one with the most
//! pixels is chosen, the first of them if several are equally large.

use vstd::prelude::*;
use crate::boot_info::FramebufferInfo;

verus! {

/// Bits per pixel of the two supported layouts.
pub const BITS_PER_PIXEL: u32 = 32;

/// Bytes per pixel of the two supported layouts.
pub const BYTES_PER_PIXEL: u32 = 4;

/// How a mode stores a pixel.
#[derive(Clone, Copy, Debug, PartialEq, Eq, Structural)]
pub enum PixelFormat {
    /// 32 bits per pixel, 24 of them red, green and blue, in that order.
    Rgb,
    /// 32 bits per pixel, 24 of them blue, green and red, in that order.
    Bgr,
    /// A layout given by custom masks.
    Bitmask,
    /// No framebuffer: the display can only be drawn to through the firmware.
    BltOnly,
}

/// One display mode, as the firmware describes it.
#[derive(Clone, Copy, Debug, PartialEq, Eq, Structural)]
pub struct ModeInfo {
    /// Pixels per row.
    pub width: u32,
    /// Number of rows.
    pub height: u32,
    /// Layout of a pixel.
    pub format: PixelFormat,
    /// Pixels from the start of one row to the start of the next.
    pub stride: u32,
}

/// Why no framebuffer is described.
#[derive(Clone, Copy, Debug, PartialEq, Eq, Structural)]
pub enum GraphicsError {
    /// The firmware offers no way to set a display mode.
    GraphicsUnavailable,
    /// A row of the mode is longer than the framebuffer description can say.
    RowTooLong,
}

/// Whether pixels of this layout can be written directly.
pub open spec fn supported(format: PixelFormat) -> bool {
    format == PixelFormat::Rgb || format == PixelFormat::Bgr
}

/// Number of pixels of a mode.
pub open spec fn pixels(mode: ModeInfo) -> int {
    mode.width * mode.height
}

/// Whether mode `i` of the list can be chosen: the firmware described it,
/// its layout is supported, and it shows at least one pixel.
pub open spec fn eligible(modes: Seq<Option<ModeInfo>>, i: int) -> bool {
    &&& 0 <= i < modes.len()
    &&& modes[i] is Some
    &&& supported(modes[i]->Some_0.format)
    &&& pixels(modes[i]->Some_0) > 0
}

/// Whether mode `i` is the one to choose: it is eligible, no eligible mode
/// has more pixels, and none before it has as many.
pub open spec fn is_best_mode(modes: Seq<Option<ModeInfo>>, i: int) -> bool {
    &&& eligible(modes, i)
    &&& forall|j: int| #[trigger]
        eligible(modes, j) ==> pixels(modes[j]->Some_0) <= pixels(modes[i]->Some_0)
    &&& forall|j: int|
        j < i && #[trigger] eligible(modes, j) ==> pixels(modes[j]->Some_0) < pixels(
            modes[i]->Some_0,
        )
}

/// The red, green and blue masks of a layout; all zero for a layout that is
/// not supported.
pub open spec fn masks_of(format: PixelFormat) -> (u32, u32, u32) {
    match format {
        PixelFormat::Rgb => (0x00FF_0000u32, 0x0000_FF00u32, 0x0000_00FFu32),
        PixelFormat::Bgr => (0x0000_00FFu32, 0x0000_FF00u32, 0x00FF_0000u32),
        _ => (0u32, 0u32, 0u32),
    }
}

/// The description of the framebuffer at `addr` in mode `mode`.
pub open spec fn framebuffer_of(mode: ModeInfo, addr: u64) -> FramebufferInfo {
    FramebufferInfo {
        addr,
        width: mode.width,
        height: mode.height,
        pitch: (mode.stride * BYTES_PER_PIXEL) as u32,
        bpp: BITS_PER_PIXEL,
        red_mask: masks_of(mode.format).0,
        green_mask: masks_of(mode.format).1,
        blue_mask: masks_of(mode.format).2,
    }
}

/// The channel masks of a layout.
pub fn channel_masks(format: PixelFormat) -> (masks: (u32, u32, u32))
    ensures
        masks == masks_of(format),
{
    match format {
        PixelFormat::Rgb => (0x00FF_0000, 0x0000_FF00, 0x0000_00FF),
        PixelFormat::Bgr => (0x0000_00FF, 0x0000_FF00, 0x00FF_0000),
        _ => (0, 0, 0),
    }
}

/// Chooses among the modes the firmware offers. `modes[i]` is the
/// firmware's description of mode `i`, or nothing where it gave none.
///
/// Returns the number of the best mode, and nothing exactly where no mode is
/// eligible.
pub fn select_mode(modes: &[Option<ModeInfo>]) -> (best: Option<usize>)
    ensures
        match best {
            Some(i) => is_best_mode(modes@, i as int),
            None => forall|j: int| !eligible(modes@, j),
        },
{
    let n: usize = modes.len();
    let mut best: Option<usize> = None;
    let mut best_pixels: u64 = 0;
    let mut i: usize = 0;
    while i < n
        invariant
            n == modes@.len(),
            i <= n,
            match best {
                Some(b) => {
                    &&& b < i
                    &&& eligible(modes@, b as int)
                    &&& best_pixels == pixels(modes@[b as int]->Some_0)
                    &&& forall|j: int|
                        j < i && #[trigger] eligible(modes@, j) ==> pixels(modes@[j]->Some_0)
                            <= best_pixels
                    &&& forall|j: int|
                        j < b && #[trigger] eligible(modes@, j) ==> pixels(modes@[j]->Some_0)
                            < best_pixels
                },
                None => best_pixels == 0 && forall|j: int| j < i ==> !eligible(modes@, j),
            },
        decreases n - i,
    {
        match modes[i] {
            Some(mode) => {
                assert(0 <= mode.width * mode.height <= 0xFFFF_FFFF * 0xFFFF_FFFF)
                    by (nonlinear_arith)
                    requires
                        0 <= mode.width <= 0xFFFF_FFFF,
                        0 <= mode.height <= 0xFFFF_FFFF,
                ;
                let count: u64 = (mode.width as u64) * (mode.height as u64);
                let usable: bool = match mode.format {
                    PixelFormat::Rgb | PixelFormat::Bgr => true,
                    _ => false,
                };
                if usable && count > best_pixels {
                    best = Some(i);
                    best_pixels = count;
                }
            },
            None => {},
        }
        i += 1;
    }
    best
}

/// Describes the framebuffer of the mode that is in effect.
///
/// `current` is the mode the display is in once the chosen mode has been
/// applied, or nothing if the firmware has no graphics output at all;
/// `framebuffer_addr` is where its pixels lie. The masks follow the mode's
/// layout and are zero for a layout that is not supported.
pub fn setup_graphics(current: Option<ModeInfo>, framebuffer_addr: u64) -> (r: Result<
    FramebufferInfo,
    GraphicsError,
>)
    ensures
        r == match current {
            None => Err::<FramebufferInfo, GraphicsError>(GraphicsError::GraphicsUnavailable),
            Some(mode) => if mode.stride * BYTES_PER_PIXEL > u32::MAX {
                Err::<FramebufferInfo, GraphicsError>(GraphicsError::RowTooLong)
            } else {
                Ok::<FramebufferInfo, GraphicsError>(framebuffer_of(mode, framebuffer_addr))
            },
        },
{
    match current {
        None => Err(GraphicsError::GraphicsUnavailable),
        Some(mode) => {
            if mode.stride > u32::MAX / BYTES_PER_PIXEL {
                return Err(GraphicsError::RowTooLong);
            }
            let (red_mask, green_mask, blue_mask) = channel_masks(mode.format);
            Ok(
                FramebufferInfo {
                    addr: framebuffer_addr,
                    width: mode.width,
                    height: mode.height,
                    pitch: mode.stride * BYTES_PER_PIXEL,
                    bpp: BITS_PER_PIXEL,
                    red_mask,
                    green_mask,
                    blue_mask,
                },
            )
        },
    }
}

/// At most one mode is the best one: the choice is determined by the list.
pub proof fn lemma_best_mode_unique(modes: Seq<Option<ModeInfo>>, a: int, b: int)
    requires
        is_best_mode(modes, a),
        is_best_mode(modes, b),
    ensures
        a == b,
{
    assert(eligible(modes, a));
    assert(eligible(modes, b));
}

} // verus!
