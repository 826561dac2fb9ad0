//! Surface capabilities and swapchain configuration planning.
//!
//! The platform layer reports what the display surface supports as plain
//! values; from those the negotiator computes the swapchain configuration to
//! apply: the image count clamped to the supported range with triple
//! buffering preferred, and the surface extent clamped to the supported
//! bounds.

use vstd::prelude::*;
use crate::extent::Extent2d;

verus! {

/// An opaque identifier for a surface color format, as the platform layer
/// numbers them.
#[derive(Clone, Copy, Debug, PartialEq, Eq, Structural)]
pub struct FormatId {
    pub code: u32,
}

/// What the negotiator needs to know of one supported surface format.
#[derive(Clone, Copy, Debug, PartialEq, Eq, Structural)]
pub struct FormatInfo {
    pub id: FormatId,
    /// Whether the format's channel type is sRGB.
    pub srgb: bool,
}

/// The surface capabilities the negotiator consults: the supported image
/// count range, the fixed current extent if the surface has one, and the
/// supported extent bounds otherwise.
#[derive(Clone, Copy, Debug, PartialEq, Eq, Structural)]
pub struct SurfaceCaps {
    pub min_image_count: u32,
    pub max_image_count: u32,
    pub current_extent: Option<Extent2d>,
    pub min_extent: Extent2d,
    pub max_extent: Extent2d,
}

/// The swapchain configuration the negotiator asks the platform layer to
/// apply to the surface.
#[derive(Clone, Copy, Debug, PartialEq, Eq, Structural)]
pub struct SwapchainConfig {
    pub image_count: u32,
    pub extent: Extent2d,
    pub format: FormatId,
}

pub open spec fn max_u32(a: u32, b: u32) -> u32 {
    if a >= b {
        a
    } else {
        b
    }
}

pub open spec fn min_u32(a: u32, b: u32) -> u32 {
    if a <= b {
        a
    } else {
        b
    }
}

/// Clamp as the platform layer clamps: raise to the lower bound first, then
/// cap at the upper bound.
pub open spec fn clamp_u32(x: u32, lo: u32, hi: u32) -> u32 {
    min_u32(hi, max_u32(x, lo))
}

/// The image count to use: three images (triple buffering) are preferred,
/// clamped to the range the surface supports.
pub open spec fn planned_image_count(caps: SurfaceCaps) -> u32 {
    clamp_u32(3, caps.min_image_count, caps.max_image_count)
}

/// The extent the surface will actually take: its fixed current extent when
/// it reports one, else the requested extent clamped to the supported
/// bounds.
pub open spec fn planned_extent(caps: SurfaceCaps, requested: Extent2d) -> Extent2d {
    match caps.current_extent {
        Some(current) => current,
        None => Extent2d {
            width: clamp_u32(requested.width, caps.min_extent.width, caps.max_extent.width),
            height: clamp_u32(requested.height, caps.min_extent.height, caps.max_extent.height),
        },
    }
}

pub open spec fn planned_config(caps: SurfaceCaps, format: FormatId, requested: Extent2d) -> SwapchainConfig {
    SwapchainConfig {
        image_count: planned_image_count(caps),
        extent: planned_extent(caps, requested),
        format,
    }
}

/// Computes the swapchain configuration for the given capabilities, color
/// format and requested extent.
pub fn plan_swapchain_config(caps: &SurfaceCaps, format: FormatId, requested: Extent2d) -> (r: SwapchainConfig)
    ensures
        r == planned_config(*caps, format, requested),
{
    let raised: u32 = if 3 >= caps.min_image_count {
        3
    } else {
        caps.min_image_count
    };
    let image_count: u32 = if raised <= caps.max_image_count {
        raised
    } else {
        caps.max_image_count
    };
    let extent: Extent2d = match caps.current_extent {
        Some(current) => current,
        None => {
            let mut width: u32 = requested.width;
            if width < caps.min_extent.width {
                width = caps.min_extent.width;
            }
            if width > caps.max_extent.width {
                width = caps.max_extent.width;
            }
            let mut height: u32 = requested.height;
            if height < caps.min_extent.height {
                height = caps.min_extent.height;
            }
            if height > caps.max_extent.height {
                height = caps.max_extent.height;
            }
            Extent2d { width, height }
        },
    };
    SwapchainConfig { image_count, extent, format }
}

/// The first sRGB format of the list, if it has one.
pub open spec fn first_srgb(s: Seq<FormatInfo>) -> Option<FormatId>
    decreases s.len(),
{
    if s.len() == 0 {
        None::<FormatId>
    } else if s[0].srgb {
        Some(s[0].id)
    } else {
        first_srgb(s.skip(1))
    }
}

/// The color format to render in: the first sRGB format the surface
/// supports, else the first supported format, else the caller's fallback.
pub open spec fn chosen_format(s: Seq<FormatInfo>, fallback: FormatId) -> FormatId {
    match first_srgb(s) {
        Some(id) => id,
        None => if s.len() > 0 {
            s[0].id
        } else {
            fallback
        },
    }
}

proof fn lemma_first_srgb_step(s: Seq<FormatInfo>, i: int)
    requires
        0 <= i < s.len(),
        !s[i].srgb,
    ensures
        first_srgb(s.skip(i)) == first_srgb(s.skip(i + 1)),
{
    assert(s.skip(i).len() > 0);
    assert(s.skip(i)[0] == s[i]);
    assert(s.skip(i).skip(1) =~= s.skip(i + 1));
}

/// Picks the color format from the formats the surface reports, preferring
/// sRGB; `fallback` is used when the surface reports none at all.
pub fn select_color_format(supported: &Vec<FormatInfo>, fallback: FormatId) -> (r: FormatId)
    ensures
        r == chosen_format(supported@, fallback),
{
    let ghost s = supported@;
    proof {
        assert(s.skip(0) =~= s);
    }
    let n = supported.len();
    let mut i: usize = 0;
    while i < n
        invariant
            n == s.len(),
            0 <= i <= n,
            s == supported@,
            first_srgb(s) == first_srgb(s.skip(i as int)),
        decreases n - i,
    {
        if supported[i].srgb {
            assert(s.skip(i as int)[0] == s[i as int]);
            return supported[i].id;
        }
        proof {
            lemma_first_srgb_step(s, i as int);
        }
        i = i + 1;
    }
    assert(s.skip(n as int) =~= Seq::<FormatInfo>::empty());
    if supported.len() > 0 {
        supported[0].id
    } else {
        fallback
    }
}

} // verus!
