//! The few values of `wgpu` that the library carries, and the two questions
//! it asks of them. Everything here is trusted: the verifier takes these
//! contracts as given.

use vstd::prelude::*;

verus! {

/// `wgpu::TextureFormat`, carried as an opaque value.
#[verifier::external_type_specification]
#[verifier::external_body]
pub struct ExTextureFormat(wgpu::TextureFormat);

/// `wgpu::PresentMode`, carried as an opaque value.
#[verifier::external_type_specification]
#[verifier::external_body]
pub struct ExPresentMode(wgpu::PresentMode);

/// `wgpu::TextureUsages`, carried as an opaque value.
#[verifier::external_type_specification]
#[verifier::external_body]
pub struct ExTextureUsages(wgpu::TextureUsages);

/// Whether a texture format is an sRGB format, as
/// `wgpu::TextureFormat::is_srgb` reports it. The answer is a function of the
/// format alone.
pub uninterp spec fn format_is_srgb(format: wgpu::TextureFormat) -> bool;

/// Calls `wgpu::TextureFormat::is_srgb`. The contract names the answer and
/// claims nothing more about it.
#[verifier::external_body]
pub(crate) fn is_srgb(format: &wgpu::TextureFormat) -> (srgb: bool)
    ensures
        srgb == format_is_srgb(*format),
{
    format.is_srgb()
}

/// Calls `==` on two `wgpu::TextureFormat` values. wgpu derives that
/// comparison, so it holds exactly for equal values.
#[verifier::external_body]
pub(crate) fn same_format(a: &wgpu::TextureFormat, b: &wgpu::TextureFormat) -> (same: bool)
    ensures
        same == (*a == *b),
{
    a == b
}

} // verus!
