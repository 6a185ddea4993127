//! Per-frame decisions about the window surface.

use vstd::prelude::*;

verus! {

/// Why no frame could be drawn to the surface.
#[derive(Clone, Copy, Debug, PartialEq, Eq, Structural)]
pub enum SurfaceError {
    Timeout,
    Lost,
    Occluded,
    Validation,
    Outdated,
}

/// What the surface answered when asked for its next texture.
#[derive(Clone, Copy, Debug, PartialEq, Eq, Structural)]
pub enum SurfaceStatus {
    /// A texture that matches the surface configuration.
    Success,
    /// A usable texture, but the surface should be configured again.
    Suboptimal,
    Timeout,
    Lost,
    Occluded,
    Validation,
    Outdated,
}

/// The outcome of acquiring a surface texture in a given status: a texture
/// to draw into, with whether the surface configuration still holds, or
/// the error that ends the frame.
pub open spec fn spec_acquire_outcome(status: SurfaceStatus) -> Result<bool, SurfaceError> {
    match status {
        SurfaceStatus::Success => Ok(true),
        SurfaceStatus::Suboptimal => Ok(false),
        SurfaceStatus::Timeout => Err(SurfaceError::Timeout),
        SurfaceStatus::Lost => Err(SurfaceError::Lost),
        SurfaceStatus::Occluded => Err(SurfaceError::Occluded),
        SurfaceStatus::Validation => Err(SurfaceError::Validation),
        SurfaceStatus::Outdated => Err(SurfaceError::Outdated),
    }
}

/// Decides what a frame does with the surface's answer: `Ok(true)` to draw
/// with the configuration kept, `Ok(false)` to draw and configure the
/// surface again before the next frame, `Err` to give up the frame.
pub fn acquire_outcome(status: SurfaceStatus) -> (r: Result<bool, SurfaceError>)
    ensures
        r == spec_acquire_outcome(status),
{
    match status {
        SurfaceStatus::Success => Ok(true),
        SurfaceStatus::Suboptimal => Ok(false),
        SurfaceStatus::Timeout => Err(SurfaceError::Timeout),
        SurfaceStatus::Lost => Err(SurfaceError::Lost),
        SurfaceStatus::Occluded => Err(SurfaceError::Occluded),
        SurfaceStatus::Validation => Err(SurfaceError::Validation),
        SurfaceStatus::Outdated => Err(SurfaceError::Outdated),
    }
}

/// A texture format of `wgpu`, carried through as an opaque value.
#[verifier::external_type_specification]
#[verifier::external_body]
pub struct ExTextureFormat(wgpu::TextureFormat);

/// Whether `wgpu` counts `format` as an sRGB format.
pub uninterp spec fn format_is_srgb(format: wgpu::TextureFormat) -> bool;

/// Calls `wgpu::TextureFormat::is_srgb`. The contract claims only that the
/// answer is a function of the format: `is_srgb` compares the format with
/// itself stripped of its sRGB suffix, a pure function of the format.
#[verifier::external_body]
fn is_srgb(format: &wgpu::TextureFormat) -> (r: bool)
    ensures
        r == format_is_srgb(*format),
{
    format.is_srgb()
}

/// The index of the surface format to use among those offered: the first
/// sRGB format, or else the first format offered.
pub fn choose_surface_format(formats: &[wgpu::TextureFormat]) -> (r: usize)
    requires
        formats@.len() > 0,
    ensures
        r < formats@.len(),
        forall|j: int| 0 <= j < r ==> !format_is_srgb(#[trigger] formats@[j]),
        format_is_srgb(formats@[r as int])
            || (r == 0 && forall|j: int| 0 <= j < formats@.len() ==> !format_is_srgb(#[trigger] formats@[j])),
{
    let mut i: usize = 0;
    while i < formats.len()
        invariant
            i <= formats@.len(),
            forall|j: int| 0 <= j < i ==> !format_is_srgb(#[trigger] formats@[j]),
        decreases formats@.len() - i,
    {
        if is_srgb(&formats[i]) {
            return i;
        }
        i = i + 1;
    }
    0
}

} // verus!
