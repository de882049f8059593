//! Pixel formats and how many bytes one texel of each occupies.

use vstd::prelude::*;
use wgpu_types::TextureFormat;

verus! {

#[verifier::external_type_specification]
#[verifier::external_body]
pub struct ExTextureFormat(wgpu_types::TextureFormat);

/// What `TextureFormat::block_dimensions` returns for a format: the width and
/// height, in texels, of one block of it.
pub uninterp spec fn block_dimensions(format: TextureFormat) -> (u32, u32);

/// What `TextureFormat::block_copy_size` returns for a format when it is asked
/// without an aspect: the bytes one block occupies in a copy, or `None` where
/// the format has no single such size.
pub uninterp spec fn block_copy_size(format: TextureFormat) -> Option<u32>;

/// Calls `wgpu_types::TextureFormat::block_dimensions`. That method is a total
/// `match` on the format, so the same format always gives the same pair; the
/// contract claims nothing more than that.
#[verifier::external_body]
fn format_block_dimensions(format: &TextureFormat) -> (dims: (u32, u32))
    ensures
        dims == block_dimensions(*format),
{
    format.block_dimensions()
}

/// Calls `wgpu_types::TextureFormat::block_copy_size` with no aspect. That
/// method is a total `match` on the format and the aspect, so the same format
/// always gives the same answer; the contract claims nothing more than that.
#[verifier::external_body]
fn format_block_copy_size(format: &TextureFormat) -> (size: Option<u32>)
    ensures
        size == block_copy_size(*format),
{
    format.block_copy_size(None)
}

/// The bytes one pixel of `format` occupies: its block copy size where a
/// block is a single texel and that size is not zero, and `None` for every
/// other format (block-compressed ones, and those that only have a size per
/// aspect).
pub open spec fn spec_pixel_size(format: TextureFormat) -> Option<u32> {
    if block_dimensions(format) == (1u32, 1u32) {
        match block_copy_size(format) {
            Some(size) => if size >= 1 {
                Some(size)
            } else {
                None
            },
            None => None,
        }
    } else {
        None
    }
}

/// The bytes one pixel of `format` occupies, or `None` where pixels of the
/// format cannot be copied one by one.
pub fn pixel_size(format: &TextureFormat) -> (size: Option<u32>)
    ensures
        size == spec_pixel_size(*format),
{
    let dims = format_block_dimensions(format);
    if dims.0 == 1 && dims.1 == 1 {
        match format_block_copy_size(format) {
            Some(size) => if size >= 1 {
                Some(size)
            } else {
                None
            },
            None => None,
        }
    } else {
        None
    }
}

} // verus!
