//! Surface capabilities and the swapchain parameter negotiation.
//!
//! The presentation backend describes a surface by its capabilities, a list
//! of pixel formats and a list of present modes.  This module models those
//! descriptions as plain values and computes from them the parameters of the
//! next swapchain: pixel format, extent, present mode and image count.

use vstd::prelude::*;

verus! {

/// Backend enumeration value of the preferred 32-bit BGRA sRGB pixel format.
pub const FORMAT_B8G8R8A8_SRGB: u32 = 50;

/// Backend enumeration value of the nonlinear sRGB color space.
pub const COLOR_SPACE_SRGB_NONLINEAR: u32 = 0;

/// Backend enumeration value of the low-latency triple-buffered present mode.
pub const PRESENT_MODE_MAILBOX: u32 = 1;

/// Backend enumeration value of the universally supported first-in-first-out
/// present mode.
pub const PRESENT_MODE_FIFO: u32 = 2;

/// Width reported by the backend when the surface extent is undefined and the
/// application is free to pick one within the advertised bounds.
pub const EXTENT_UNDEFINED: u32 = u32::MAX;

/// A surface extent in pixels.
#[derive(Clone, Copy, PartialEq, Eq, Structural, Debug)]
pub struct Extent {
    pub width: u32,
    pub height: u32,
}

/// A pixel format together with the color space it is presented in.
#[derive(Clone, Copy, PartialEq, Eq, Structural, Debug)]
pub struct SurfaceFormat {
    pub format: u32,
    pub color_space: u32,
}

/// The capabilities the backend currently reports for a surface.
#[derive(Clone, Copy, PartialEq, Eq, Structural, Debug)]
pub struct SurfaceCaps {
    /// Fewest images a swapchain on this surface may have.
    pub min_image_count: u32,
    /// Most images a swapchain on this surface may have; `0` means unbounded.
    pub max_image_count: u32,
    /// The surface's current extent, or width [`EXTENT_UNDEFINED`] when the
    /// backend leaves the choice to the application.
    pub current_extent: Extent,
    /// Largest extent the backend supports for this surface.
    pub max_image_extent: Extent,
}

/// Why a swapchain could not be planned.
#[derive(Clone, Copy, PartialEq, Eq, Structural, Debug)]
pub enum BuildError {
    /// The backend reported no surface format at all.
    NoCompatibleFormat,
}

/// Everything a rebuild decides: the parameters the next swapchain is
/// created with.
#[derive(Clone, Copy, PartialEq, Eq, Structural, Debug)]
pub struct SwapchainPlan {
    pub format: SurfaceFormat,
    pub extent: Extent,
    pub present_mode: u32,
    pub image_count: u32,
}

/// The format the engine prefers: 32-bit BGRA sRGB in the nonlinear sRGB
/// color space.
pub open spec fn preferred_format() -> SurfaceFormat {
    SurfaceFormat { format: FORMAT_B8G8R8A8_SRGB, color_space: COLOR_SPACE_SRGB_NONLINEAR }
}

pub open spec fn is_preferred_format(f: SurfaceFormat) -> bool {
    f == preferred_format()
}

pub open spec fn has_preferred_format(formats: Seq<SurfaceFormat>) -> bool {
    exists|i: int| 0 <= i < formats.len() && is_preferred_format(formats[i])
}

/// The format a build selects: the preferred pair when the backend offers it,
/// the first reported format otherwise.
pub open spec fn chosen_format(formats: Seq<SurfaceFormat>) -> SurfaceFormat
    recommends
        formats.len() > 0,
{
    if has_preferred_format(formats) {
        preferred_format()
    } else {
        formats[0]
    }
}

/// The present mode a build selects: the low-latency mailbox mode when the
/// backend offers it, first-in-first-out otherwise.
pub open spec fn chosen_present_mode(modes: Seq<u32>) -> u32 {
    if modes.contains(PRESENT_MODE_MAILBOX) {
        PRESENT_MODE_MAILBOX
    } else {
        PRESENT_MODE_FIFO
    }
}

/// The extent a build selects: the backend's current extent verbatim, or its
/// maximum supported extent when the current one is undefined.
pub open spec fn chosen_extent(caps: SurfaceCaps) -> Extent {
    if caps.current_extent.width == EXTENT_UNDEFINED {
        caps.max_image_extent
    } else {
        caps.current_extent
    }
}

/// The image count a build requests: one more than the minimum, unless the
/// backend caps the count at or below the minimum, in which case the maximum.
pub open spec fn chosen_image_count(caps: SurfaceCaps) -> u32
    recommends
        caps.min_image_count < u32::MAX,
{
    if caps.max_image_count == 0 || caps.max_image_count > caps.min_image_count {
        (caps.min_image_count + 1) as u32
    } else {
        caps.max_image_count
    }
}

/// The complete plan a build computes from what the backend reports.
pub open spec fn plan_of(caps: SurfaceCaps, formats: Seq<SurfaceFormat>, modes: Seq<u32>) -> SwapchainPlan
    recommends
        formats.len() > 0,
        caps.min_image_count < u32::MAX,
{
    SwapchainPlan {
        format: chosen_format(formats),
        extent: chosen_extent(caps),
        present_mode: chosen_present_mode(modes),
        image_count: chosen_image_count(caps),
    }
}

/// Select the surface format, preferring 32-bit BGRA sRGB with the nonlinear
/// sRGB color space and falling back to the first reported format.
pub fn choose_format(formats: &Vec<SurfaceFormat>) -> (r: Result<SurfaceFormat, BuildError>)
    ensures
        r is Ok <==> formats@.len() > 0,
        r matches Ok(f) ==> f == chosen_format(formats@),
        r matches Err(e) ==> e == BuildError::NoCompatibleFormat,
{
    let mut i: usize = 0;
    while i < formats.len()
        invariant
            i <= formats@.len(),
            forall|j: int| 0 <= j < i ==> !is_preferred_format(formats@[j]),
        decreases formats@.len() - i,
    {
        let f = formats[i];
        if f.format == FORMAT_B8G8R8A8_SRGB && f.color_space == COLOR_SPACE_SRGB_NONLINEAR {
            proof {
                assert(is_preferred_format(formats@[i as int]));
            }
            return Ok(f);
        }
        i += 1;
    }
    if formats.len() > 0 {
        Ok(formats[0])
    } else {
        Err(BuildError::NoCompatibleFormat)
    }
}

/// Select the present mode, preferring the mailbox mode and falling back to
/// first-in-first-out.
pub fn choose_present_mode(modes: &Vec<u32>) -> (m: u32)
    ensures
        m == chosen_present_mode(modes@),
{
    let mut i: usize = 0;
    while i < modes.len()
        invariant
            i <= modes@.len(),
            forall|j: int| 0 <= j < i ==> modes@[j] != PRESENT_MODE_MAILBOX,
        decreases modes@.len() - i,
    {
        if modes[i] == PRESENT_MODE_MAILBOX {
            proof {
                assert(modes@.contains(PRESENT_MODE_MAILBOX));
            }
            return PRESENT_MODE_MAILBOX;
        }
        i += 1;
    }
    proof {
        assert(!modes@.contains(PRESENT_MODE_MAILBOX));
    }
    PRESENT_MODE_FIFO
}

/// Compute the swapchain extent from the reported capabilities.
pub fn choose_extent(caps: &SurfaceCaps) -> (e: Extent)
    ensures
        e == chosen_extent(*caps),
{
    if caps.current_extent.width == EXTENT_UNDEFINED {
        caps.max_image_extent
    } else {
        caps.current_extent
    }
}

/// Compute the number of images to request from the reported capabilities.
pub fn choose_image_count(caps: &SurfaceCaps) -> (n: u32)
    requires
        caps.min_image_count < u32::MAX,
    ensures
        n == chosen_image_count(*caps),
{
    if caps.max_image_count == 0 || caps.max_image_count > caps.min_image_count {
        caps.min_image_count + 1
    } else {
        caps.max_image_count
    }
}

/// Compute the full plan for the next swapchain from what the backend
/// reports.  Fails exactly when the backend reports no format at all.
pub fn plan_build(caps: &SurfaceCaps, formats: &Vec<SurfaceFormat>, modes: &Vec<u32>) -> (r: Result<
    SwapchainPlan,
    BuildError,
>)
    requires
        caps.min_image_count < u32::MAX,
    ensures
        r is Ok <==> formats@.len() > 0,
        r matches Ok(p) ==> p == plan_of(*caps, formats@, modes@),
        r matches Err(e) ==> e == BuildError::NoCompatibleFormat,
{
    let format = match choose_format(formats) {
        Ok(f) => f,
        Err(e) => {
            return Err(e);
        },
    };
    Ok(
        SwapchainPlan {
            format,
            extent: choose_extent(caps),
            present_mode: choose_present_mode(modes),
            image_count: choose_image_count(caps),
        },
    )
}

/// Format fallback law: a build selects the preferred format exactly when the
/// backend offers it, and the first reported format otherwise.
pub proof fn lemma_format_fallback(formats: Seq<SurfaceFormat>)
    requires
        formats.len() > 0,
    ensures
        has_preferred_format(formats) ==> chosen_format(formats) == preferred_format(),
        !has_preferred_format(formats) ==> chosen_format(formats) == formats[0],
{
}

/// Present-mode fallback law: a build selects the mailbox mode exactly when
/// the backend offers it, and first-in-first-out otherwise.
pub proof fn lemma_present_mode_fallback(modes: Seq<u32>)
    ensures
        modes.contains(PRESENT_MODE_MAILBOX) ==> chosen_present_mode(modes)
            == PRESENT_MODE_MAILBOX,
        !modes.contains(PRESENT_MODE_MAILBOX) ==> chosen_present_mode(modes) == PRESENT_MODE_FIFO,
{
}

/// Image-count policy law: a build asks for one image more than the minimum
/// whenever the backend allows it, and for the backend's maximum otherwise.
pub proof fn lemma_image_count_policy(caps: SurfaceCaps)
    requires
        caps.min_image_count < u32::MAX,
    ensures
        caps.max_image_count == 0 || caps.max_image_count > caps.min_image_count
            ==> chosen_image_count(caps) == caps.min_image_count + 1,
        !(caps.max_image_count == 0 || caps.max_image_count > caps.min_image_count)
            ==> chosen_image_count(caps) == caps.max_image_count,
{
}

} // verus!
