//! Pixel-format codes and per-format surface layout arithmetic: stride
//! alignment, plane offsets and total backing size for the two supported
//! surface kinds (single-plane BGRX and two-plane NV12).

use vstd::prelude::*;

use crate::status::VaStatus;

verus! {

/// Fourcc code for the two-plane 4:2:0 format (luma plane, then interleaved
/// chroma plane at half vertical resolution).
pub const VA_FOURCC_NV12: u32 = 0x3231564E;

/// Fourcc code for single-plane 32-bit BGRX.
pub const VA_FOURCC_BGRX: u32 = 0x58524742;

/// Render-target format class: 4:2:0 YUV.
pub const VA_RT_FORMAT_YUV420: u32 = 0x00000001;

/// Render-target format class: 32-bit RGB.
pub const VA_RT_FORMAT_RGB32: u32 = 0x00000010;

/// Byte order tag of the image format descriptors this driver reports.
pub const VA_LSB_FIRST: u32 = 1;

/// Required stride alignment for BGRX surfaces, in bytes.
pub const BGRX_STRIDE_ALIGN: usize = 512;

/// Required stride alignment for NV12 surfaces, in bytes.
pub const NV12_STRIDE_ALIGN: usize = 2048;

/// Largest width or height of a surface this driver accepts, in pixels.
pub const MAX_DIM: u32 = 16384;

/// Externally visible description of an image format, as reported to the
/// caller and recorded per surface.
#[derive(Clone, Copy, PartialEq, Eq, Structural, Debug)]
pub struct ImageFormatDesc {
    pub fourcc: u32,
    pub byte_order: u32,
    pub bits_per_pixel: u32,
    pub depth: u32,
    pub red_mask: u32,
    pub green_mask: u32,
    pub blue_mask: u32,
    pub alpha_mask: u32,
}

/// The image format descriptor for NV12 surfaces.
pub open spec fn spec_image_fmt_nv12() -> ImageFormatDesc {
    ImageFormatDesc {
        fourcc: VA_FOURCC_NV12,
        byte_order: VA_LSB_FIRST,
        bits_per_pixel: 12,
        depth: 0,
        red_mask: 0,
        green_mask: 0,
        blue_mask: 0,
        alpha_mask: 0,
    }
}

/// The image format descriptor for BGRX surfaces.
pub open spec fn spec_image_fmt_bgrx() -> ImageFormatDesc {
    ImageFormatDesc {
        fourcc: VA_FOURCC_BGRX,
        byte_order: VA_LSB_FIRST,
        bits_per_pixel: 32,
        depth: 0,
        red_mask: 0xff000000,
        green_mask: 0x00ff0000,
        blue_mask: 0x0000ff00,
        alpha_mask: 0x000000ff,
    }
}

pub fn image_fmt_nv12() -> (f: ImageFormatDesc)
    ensures
        f == spec_image_fmt_nv12(),
{
    ImageFormatDesc {
        fourcc: VA_FOURCC_NV12,
        byte_order: VA_LSB_FIRST,
        bits_per_pixel: 12,
        depth: 0,
        red_mask: 0,
        green_mask: 0,
        blue_mask: 0,
        alpha_mask: 0,
    }
}

pub fn image_fmt_bgrx() -> (f: ImageFormatDesc)
    ensures
        f == spec_image_fmt_bgrx(),
{
    ImageFormatDesc {
        fourcc: VA_FOURCC_BGRX,
        byte_order: VA_LSB_FIRST,
        bits_per_pixel: 32,
        depth: 0,
        red_mask: 0xff000000,
        green_mask: 0x00ff0000,
        blue_mask: 0x0000ff00,
        alpha_mask: 0x000000ff,
    }
}

/// The least multiple of `align` that is at least `p`.
pub open spec fn align_up_spec(p: int, align: int) -> int
    recommends
        align >= 1,
        p >= 0,
{
    if p % align == 0 {
        p
    } else {
        p + align - p % align
    }
}

/// Rounds `p` up to the next multiple of `align`.
pub fn align_up(p: usize, align: usize) -> (r: usize)
    requires
        align >= 1,
        p + align - 1 <= usize::MAX,
    ensures
        r as int == align_up_spec(p as int, align as int),
        r % align == 0,
        p <= r < p + align,
{
    let rem = p % align;
    proof {
        vstd::arithmetic::div_mod::lemma_fundamental_div_mod(p as int, align as int);
        vstd::arithmetic::div_mod::lemma_mod_bound(p as int, align as int);
        let q = p as int / align as int;
        let m = p as int % align as int;
        if m != 0 {
            assert((q + 1) * align as int == p as int + align as int - m) by (nonlinear_arith)
                requires
                    p as int == align as int * q + m,
            ;
            vstd::arithmetic::div_mod::lemma_mod_multiples_basic(q + 1, align as int);
        }
    }
    if rem == 0 {
        p
    } else {
        p + (align - rem)
    }
}

/// Pitch (distance in bytes between starts of consecutive rows) and byte
/// offset of one plane within a surface's backing memory.
#[derive(Clone, Copy, PartialEq, Eq, Structural, Debug)]
pub struct PlaneInfo {
    pub pitch: usize,
    pub offset: usize,
}

/// The computed memory layout of a surface: its format descriptor, per-plane
/// pitch/offset table and total backing size in bytes.
#[derive(Clone, PartialEq, Debug)]
pub struct SurfaceLayout {
    pub format: ImageFormatDesc,
    pub planes: Vec<PlaneInfo>,
    pub size: usize,
}

/// The one format-class/fourcc pair per class that surface creation supports.
pub open spec fn supported_surface_combo(rt_format: u32, fourcc: u32) -> bool {
    ||| rt_format == VA_RT_FORMAT_RGB32 && fourcc == VA_FOURCC_BGRX
    ||| rt_format == VA_RT_FORMAT_YUV420 && fourcc == VA_FOURCC_NV12
}

/// Dimensions the driver accepts for a new surface.
pub open spec fn dims_ok(width: u32, height: u32) -> bool {
    &&& 1 <= width <= MAX_DIM
    &&& 1 <= height <= MAX_DIM
}

/// What a BGRX layout holds: one plane whose pitch is the row width rounded
/// up to the BGRX alignment, and a backing size of one such row per line.
pub open spec fn bgrx_layout_ok(width: u32, height: u32, l: SurfaceLayout) -> bool {
    let pitch = align_up_spec(4 * width, BGRX_STRIDE_ALIGN as int);
    &&& l.format == spec_image_fmt_bgrx()
    &&& l.planes@.len() == 1
    &&& l.planes@[0].pitch == pitch
    &&& l.planes@[0].offset == 0
    &&& l.size == pitch * height
}

/// What an NV12 layout holds: a luma plane of `height` rows at offset zero
/// and an interleaved chroma plane of `(height + 1) / 2` rows right after it,
/// both with the pixel width rounded up to the NV12 alignment as pitch.
pub open spec fn nv12_layout_ok(width: u32, height: u32, l: SurfaceLayout) -> bool {
    let pitch = align_up_spec(width as int, NV12_STRIDE_ALIGN as int);
    &&& l.format == spec_image_fmt_nv12()
    &&& l.planes@.len() == 2
    &&& l.planes@[0].pitch == pitch
    &&& l.planes@[0].offset == 0
    &&& l.planes@[1].pitch == pitch
    &&& l.planes@[1].offset == pitch * height
    &&& l.size == pitch * (height + (height + 1) / 2)
}

/// The layout surface creation computes for a supported combination.
pub open spec fn layout_ok(rt_format: u32, fourcc: u32, width: u32, height: u32,
    l: SurfaceLayout) -> bool {
    if rt_format == VA_RT_FORMAT_RGB32 {
        bgrx_layout_ok(width, height, l)
    } else {
        nv12_layout_ok(width, height, l)
    }
}

/// Largest backing size a single surface can have, in bytes.
pub const MAX_SURFACE_SIZE: usize = 0x7FFF_FFFF;

/// Computes the plane/pitch/size layout of a new surface.
///
/// Fails with `Unimplemented` for any format-class/fourcc pair other than
/// the two supported ones, and with `InvalidParameter` for dimensions
/// outside `1..=MAX_DIM`.
pub fn surface_layout(rt_format: u32, fourcc: u32, width: u32, height: u32) -> (r: Result<
    SurfaceLayout,
    VaStatus,
>)
    ensures
        r is Ok <==> supported_surface_combo(rt_format, fourcc) && dims_ok(width, height),
        !supported_surface_combo(rt_format, fourcc) ==> r == Err::<SurfaceLayout, VaStatus>(
            VaStatus::Unimplemented,
        ),
        supported_surface_combo(rt_format, fourcc) && !dims_ok(width, height) ==> r == Err::<
            SurfaceLayout,
            VaStatus,
        >(VaStatus::InvalidParameter),
        r matches Ok(l) ==> layout_ok(rt_format, fourcc, width, height, l) && l.size
            <= MAX_SURFACE_SIZE,
{
    let supported = (rt_format == VA_RT_FORMAT_RGB32 && fourcc == VA_FOURCC_BGRX) || (rt_format
        == VA_RT_FORMAT_YUV420 && fourcc == VA_FOURCC_NV12);
    if !supported {
        return Err(VaStatus::Unimplemented);
    }
    if width < 1 || width > MAX_DIM || height < 1 || height > MAX_DIM {
        return Err(VaStatus::InvalidParameter);
    }
    if rt_format == VA_RT_FORMAT_RGB32 {
        let pitch = align_up((width as usize) * 4, BGRX_STRIDE_ALIGN);
        proof {
            vstd::arithmetic::mul::lemma_mul_upper_bound(
                pitch as int,
                66047,
                height as int,
                16384,
            );
        }
        let size = pitch * (height as usize);
        let mut planes: Vec<PlaneInfo> = Vec::new();
        planes.push(PlaneInfo { pitch, offset: 0 });
        Ok(SurfaceLayout { format: image_fmt_bgrx(), planes, size })
    } else {
        let pitch = align_up(width as usize, NV12_STRIDE_ALIGN);
        let rows = (height as usize) + ((height as usize) + 1) / 2;
        proof {
            vstd::arithmetic::mul::lemma_mul_upper_bound(pitch as int, 18431, rows as int, 24576);
            vstd::arithmetic::mul::lemma_mul_upper_bound(
                pitch as int,
                18431,
                height as int,
                16384,
            );
        }
        let size = pitch * rows;
        let luma_size = pitch * (height as usize);
        let mut planes: Vec<PlaneInfo> = Vec::new();
        planes.push(PlaneInfo { pitch, offset: 0 });
        planes.push(PlaneInfo { pitch, offset: luma_size });
        Ok(SurfaceLayout { format: image_fmt_nv12(), planes, size })
    }
}

/// The sum of the byte extents of all planes of a layout: each plane covers
/// its rows at its pitch (the chroma plane of NV12 has half the rows,
/// rounded up).
pub open spec fn sum_plane_extents(fourcc: u32, height: u32, planes: Seq<PlaneInfo>) -> int {
    if fourcc == VA_FOURCC_BGRX {
        planes[0].pitch * height
    } else {
        planes[0].pitch * height + planes[1].pitch * ((height + 1) / 2)
    }
}

/// Bytes per pixel of a plane row for the supported formats: four for BGRX,
/// one for each NV12 plane (the chroma plane stores two half-width
/// components per row, i.e. one byte per pixel column).
pub open spec fn plane_bytes_per_pixel(fourcc: u32) -> int {
    if fourcc == VA_FOURCC_BGRX {
        4
    } else {
        1
    }
}

/// Required pitch alignment of the supported formats.
pub open spec fn pitch_alignment(fourcc: u32) -> int {
    if fourcc == VA_FOURCC_BGRX {
        BGRX_STRIDE_ALIGN as int
    } else {
        NV12_STRIDE_ALIGN as int
    }
}

/// Law: every layout surface creation computes has, for each plane, a pitch
/// of at least the pixel width times the format's bytes per pixel, aligned
/// to the format's required alignment, and a total backing size at least the
/// sum of all plane extents.
pub proof fn lemma_layout_bounds(rt_format: u32, fourcc: u32, width: u32, height: u32,
    l: SurfaceLayout)
    requires
        supported_surface_combo(rt_format, fourcc),
        dims_ok(width, height),
        layout_ok(rt_format, fourcc, width, height, l),
    ensures
        forall|i: int|
            0 <= i < l.planes@.len() ==> (#[trigger] l.planes@[i]).pitch >= width
                * plane_bytes_per_pixel(fourcc),
        forall|i: int|
            0 <= i < l.planes@.len() ==> (#[trigger] l.planes@[i]).pitch as int % pitch_alignment(
                fourcc,
            ) == 0,
        l.size >= sum_plane_extents(fourcc, height, l.planes@),
{
    if rt_format == VA_RT_FORMAT_RGB32 {
        lemma_align_up_spec_bounds(4 * width, BGRX_STRIDE_ALIGN as int);
    } else {
        lemma_align_up_spec_bounds(width as int, NV12_STRIDE_ALIGN as int);
        let pitch = align_up_spec(width as int, NV12_STRIDE_ALIGN as int);
        vstd::arithmetic::mul::lemma_mul_is_distributive_add(
            pitch,
            height as int,
            (height + 1) as int / 2,
        );
    }
}

/// The rounded value is an aligned value no less than the input and less
/// than one alignment step above it.
pub proof fn lemma_align_up_spec_bounds(p: int, align: int)
    requires
        align >= 1,
        p >= 0,
    ensures
        align_up_spec(p, align) % align == 0,
        p <= align_up_spec(p, align) < p + align,
{
    vstd::arithmetic::div_mod::lemma_fundamental_div_mod(p, align);
    vstd::arithmetic::div_mod::lemma_mod_bound(p, align);
    let q = p / align;
    let rem = p % align;
    if rem != 0 {
        assert((q + 1) * align == p + align - rem) by (nonlinear_arith)
            requires
                p == align * q + rem,
        ;
        vstd::arithmetic::div_mod::lemma_mod_multiples_basic(q + 1, align);
    }
}

} // verus!
