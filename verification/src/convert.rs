//! The pixel-format conversion engine boundary: one trusted wrapper around
//! the external converter, which turns a BGRX image into NV12 at BT.601,
//! writing straight into the destination surface's backing bytes.

use vstd::prelude::*;

use dcv_color_primitives::{convert_image, ColorSpace, ImageFormat, PixelFormat};

use crate::status::VaStatus;

verus! {

/// The bytes a BGRX-to-NV12 BT.601 conversion leaves in the destination
/// region: a function of the dimensions, the source bytes and stride, the
/// destination strides and plane split, and the destination's prior bytes
/// (rows are written only up to the pixel width, so stride padding and any
/// tail keep their old values).
pub uninterp spec fn bgrx_to_nv12_bytes(width: u32, height: u32, src_stride: usize, src: Seq<u8>,
    y_stride: usize, uv_stride: usize, split: usize, dst: Seq<u8>) -> Seq<u8>;

/// The converter's size conditions for a BGRX source plane and the two NV12
/// destination planes (the luma plane is the destination's first `split`
/// bytes, the chroma plane the rest): each plane must hold its last row in
/// full at the given stride.
pub open spec fn nv12_conversion_fits(width: u32, height: u32, src_stride: usize, src_len: int,
    y_stride: usize, uv_stride: usize, split: usize, dst_len: int) -> bool {
    let w = width as int;
    let h = height as int;
    let chroma_rows = (h + 1) / 2;
    let chroma_row_bytes = 2 * ((w + 1) / 2);
    &&& src_stride * (h - 1) + 4 * w <= src_len
    &&& y_stride * (h - 1) + w <= split
    &&& uv_stride * (chroma_rows - 1) + chroma_row_bytes <= dst_len - split
}

/// Relies on dcv_color_primitives::convert_image, converting one BGRX
/// (32-bit, blue first) plane into the two NV12 planes at BT.601 studio
/// range. The converter's result depends only on the pixel bytes, strides
/// and dimensions; it validates every plane's size up front and writes
/// nothing on failure; on success it writes only the destination planes.
#[verifier::external_body]
pub(crate) fn convert_bgrx_to_nv12(width: u32, height: u32, src_stride: usize, src: &Vec<u8>,
    y_stride: usize, uv_stride: usize, split: usize, dst: &mut Vec<u8>)
    -> (r: Result<(), VaStatus>)
    requires
        split <= old(dst)@.len(),
        src_stride >= 1,
        y_stride >= 1,
        uv_stride >= 1,
        src_stride * height <= usize::MAX,
        y_stride * height <= usize::MAX,
        uv_stride * height <= usize::MAX,
        width >= 1,
        height >= 1,
    ensures
        final(dst)@.len() == old(dst)@.len(),
        r is Ok ==> final(dst)@ == bgrx_to_nv12_bytes(
            width,
            height,
            src_stride,
            src@,
            y_stride,
            uv_stride,
            split,
            old(dst)@,
        ),
        r is Ok <==> nv12_conversion_fits(
            width,
            height,
            src_stride,
            src@.len() as int,
            y_stride,
            uv_stride,
            split,
            old(dst)@.len() as int,
        ),
        r is Err ==> *final(dst) == *old(dst),
        r is Err ==> r->Err_0 == VaStatus::EncodingError,
{
    let (y, uv) = dst.split_at_mut(split);
    let sf = ImageFormat { pixel_format: PixelFormat::Bgra, color_space: ColorSpace::Rgb, num_planes: 1 };
    let df = ImageFormat { pixel_format: PixelFormat::Nv12, color_space: ColorSpace::Bt601, num_planes: 2 };
    let res = convert_image(width, height, &sf, Some(&[src_stride]), &[&src[..]], &df, Some(&[y_stride, uv_stride]), &mut [y, uv]);
    match res {
        Ok(()) => Ok(()),
        Err(_) => Err(VaStatus::EncodingError),
    }
}

} // verus!
