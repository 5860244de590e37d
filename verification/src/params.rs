//! Typed parameter blocks and their fixed little-endian wire layout.
//!
//! A buffer submitted with a recognized type tag carries a parameter block
//! as raw bytes; creation reads it into a strongly typed copy. Each block's
//! layout is fixed: all fields are 32-bit little-endian words at the offsets
//! given on the struct. When the caller provides no initial bytes, the
//! zero-initialized default of the block is used.

use vstd::prelude::*;

verus! {

/// Type tag of a coded-output segment buffer.
pub const VA_BUFFER_TYPE_ENC_CODED: u32 = 21;

/// Type tag of a whole-stream encode parameter block.
pub const VA_BUFFER_TYPE_ENC_SEQUENCE_PARAMETER: u32 = 22;

/// Type tag of a single-frame encode parameter block.
pub const VA_BUFFER_TYPE_ENC_PICTURE_PARAMETER: u32 = 23;

/// Type tag of a single-slice encode parameter block.
pub const VA_BUFFER_TYPE_ENC_SLICE_PARAMETER: u32 = 24;

/// Type tag of a miscellaneous encode parameter block.
pub const VA_BUFFER_TYPE_ENC_MISC_PARAMETER: u32 = 27;

/// Type tag of a post-processing pipeline parameter block.
pub const VA_BUFFER_TYPE_PROC_PIPELINE_PARAMETER: u32 = 41;

/// The unsigned value of the four bytes at `i`, least significant first.
pub open spec fn le32(s: Seq<u8>, i: int) -> int
    recommends
        0 <= i,
        i + 4 <= s.len(),
{
    s[i] + 256 * s[i + 1] + 65536 * s[i + 2] + 16777216 * s[i + 3]
}

/// Reads a 32-bit little-endian word at byte offset `off`.
pub fn read_u32_le(data: &Vec<u8>, off: usize) -> (r: u32)
    requires
        off + 4 <= data@.len(),
    ensures
        r as int == le32(data@, off as int),
{
    let n = data.len();
    proof {
        assert(off + 4 <= n);
    }
    (data[off] as u32) + 256 * (data[off + 1] as u32) + 65536 * (data[off + 2] as u32) + 16777216
        * (data[off + 3] as u32)
}

/// A pixel-aligned rectangular region of a surface.
#[derive(Clone, Copy, PartialEq, Eq, Structural, Debug)]
pub struct Rectangle {
    pub x: u32,
    pub y: u32,
    pub width: u32,
    pub height: u32,
}

/// A post-processing request: convert the given region of the input surface
/// into the context's current render target.
///
/// Wire layout (28 bytes): input surface handle at 0; presence flags at 4
/// (bit 0: `surface_region` present, bit 1: an output region was given,
/// bit 2: a blend state was given, bit 3: additional outputs were given);
/// region x, y, width, height at 8, 12, 16, 20; filter count at 24.
#[derive(Clone, Copy, PartialEq, Eq, Structural, Debug)]
pub struct ProcPipelineParameter {
    pub surface: u32,
    pub surface_region: Option<Rectangle>,
    pub has_output_region: bool,
    pub num_filters: u32,
    pub has_blend_state: bool,
    pub has_additional_outputs: bool,
}

/// Whole-stream encoder settings.
///
/// Wire layout (4 bytes): target bitrate in bits per second at 0.
#[derive(Clone, Copy, PartialEq, Eq, Structural, Debug)]
pub struct EncSequenceParameter {
    pub bits_per_second: u32,
}

/// Single-frame encoder settings.
///
/// Wire layout (8 bytes): handle of the coded-output buffer that receives
/// the compressed frame at 0; frame number at 4.
#[derive(Clone, Copy, PartialEq, Eq, Structural, Debug)]
pub struct EncPictureParameter {
    pub coded_buf: u32,
    pub frame_num: u32,
}

/// Single-slice encoder settings; submitting one triggers the encode step.
///
/// Wire layout (12 bytes): first macroblock address at 0; macroblock count
/// at 4; slice type at 8.
#[derive(Clone, Copy, PartialEq, Eq, Structural, Debug)]
pub struct EncSliceParameter {
    pub macroblock_address: u32,
    pub num_macroblocks: u32,
    pub slice_type: u32,
}

/// Kind code of a frame-rate miscellaneous encode parameter.
pub const VA_ENC_MISC_TYPE_FRAME_RATE: u32 = 0;

/// Kind code of a rate-control miscellaneous encode parameter.
pub const VA_ENC_MISC_TYPE_RATE_CONTROL: u32 = 1;

/// Kind code of an HRD miscellaneous encode parameter.
pub const VA_ENC_MISC_TYPE_HRD: u32 = 5;

/// A miscellaneous encode parameter: a kind code and an opaque payload.
///
/// Wire layout (at least 4 bytes): kind code at 0; the payload is every byte
/// after it.
#[derive(Clone, PartialEq, Eq, Debug)]
#[verifier::ext_equal]
pub struct EncMiscParameter {
    pub param_type: u32,
    pub data: Vec<u8>,
}

/// The container through which compressed output bytes are returned: the
/// driver fills `data` (and `size` with its length) at the encode step.
///
/// Wire layout (12 bytes): size at 0; bit offset at 4; status at 8; a newly
/// created segment carries no payload bytes.
#[derive(Clone, PartialEq, Eq, Debug)]
#[verifier::ext_equal]
pub struct CodedSegment {
    pub size: u32,
    pub bit_offset: u32,
    pub status: u32,
    pub data: Vec<u8>,
}

/// Bytes of initial data each recognized type tag requires (zero for an
/// unrecognized tag, which is stored as an opaque blob).
pub open spec fn required_param_size(type_: u32) -> int {
    if type_ == VA_BUFFER_TYPE_PROC_PIPELINE_PARAMETER {
        28
    } else if type_ == VA_BUFFER_TYPE_ENC_SEQUENCE_PARAMETER {
        4
    } else if type_ == VA_BUFFER_TYPE_ENC_PICTURE_PARAMETER {
        8
    } else if type_ == VA_BUFFER_TYPE_ENC_SLICE_PARAMETER {
        12
    } else if type_ == VA_BUFFER_TYPE_ENC_MISC_PARAMETER {
        4
    } else if type_ == VA_BUFFER_TYPE_ENC_CODED {
        12
    } else {
        0
    }
}

/// Whether a type tag names one of the recognized structured blocks.
pub open spec fn recognized_param_type(type_: u32) -> bool {
    ||| type_ == VA_BUFFER_TYPE_PROC_PIPELINE_PARAMETER
    ||| type_ == VA_BUFFER_TYPE_ENC_SEQUENCE_PARAMETER
    ||| type_ == VA_BUFFER_TYPE_ENC_PICTURE_PARAMETER
    ||| type_ == VA_BUFFER_TYPE_ENC_SLICE_PARAMETER
    ||| type_ == VA_BUFFER_TYPE_ENC_MISC_PARAMETER
    ||| type_ == VA_BUFFER_TYPE_ENC_CODED
}

/// The pipeline parameter encoded by a byte block, or the zero default if
/// no block was given.
pub open spec fn proc_pipeline_of_bytes(data: Option<Seq<u8>>) -> ProcPipelineParameter {
    match data {
        None => ProcPipelineParameter {
            surface: 0,
            surface_region: None,
            has_output_region: false,
            num_filters: 0,
            has_blend_state: false,
            has_additional_outputs: false,
        },
        Some(s) => ProcPipelineParameter {
            surface: le32(s, 0) as u32,
            surface_region: if ((le32(s, 4) as u32) & 1) == 1 {
                Some(
                    Rectangle {
                        x: le32(s, 8) as u32,
                        y: le32(s, 12) as u32,
                        width: le32(s, 16) as u32,
                        height: le32(s, 20) as u32,
                    },
                )
            } else {
                None
            },
            has_output_region: ((le32(s, 4) as u32) & 2) == 2,
            num_filters: le32(s, 24) as u32,
            has_blend_state: ((le32(s, 4) as u32) & 4) == 4,
            has_additional_outputs: ((le32(s, 4) as u32) & 8) == 8,
        },
    }
}

/// Reads a pipeline parameter block.
pub fn parse_proc_pipeline(data: Option<&Vec<u8>>) -> (r: ProcPipelineParameter)
    requires
        data matches Some(d) ==> d@.len() >= 28,
    ensures
        r == proc_pipeline_of_bytes(
            match data {
                Some(d) => Some(d@),
                None => None,
            },
        ),
{
    match data {
        None => ProcPipelineParameter {
            surface: 0,
            surface_region: None,
            has_output_region: false,
            num_filters: 0,
            has_blend_state: false,
            has_additional_outputs: false,
        },
        Some(d) => {
            let flags = read_u32_le(d, 4);
            ProcPipelineParameter {
                surface: read_u32_le(d, 0),
                surface_region: if (flags & 1) == 1 {
                    Some(
                        Rectangle {
                            x: read_u32_le(d, 8),
                            y: read_u32_le(d, 12),
                            width: read_u32_le(d, 16),
                            height: read_u32_le(d, 20),
                        },
                    )
                } else {
                    None
                },
                has_output_region: (flags & 2) == 2,
                num_filters: read_u32_le(d, 24),
                has_blend_state: (flags & 4) == 4,
                has_additional_outputs: (flags & 8) == 8,
            }
        },
    }
}

/// The sequence parameter encoded by a byte block, or the zero default.
pub open spec fn enc_sequence_of_bytes(data: Option<Seq<u8>>) -> EncSequenceParameter {
    match data {
        None => EncSequenceParameter { bits_per_second: 0 },
        Some(s) => EncSequenceParameter { bits_per_second: le32(s, 0) as u32 },
    }
}

/// Reads a sequence parameter block.
pub fn parse_enc_sequence(data: Option<&Vec<u8>>) -> (r: EncSequenceParameter)
    requires
        data matches Some(d) ==> d@.len() >= 4,
    ensures
        r == enc_sequence_of_bytes(
            match data {
                Some(d) => Some(d@),
                None => None,
            },
        ),
{
    match data {
        None => EncSequenceParameter { bits_per_second: 0 },
        Some(d) => EncSequenceParameter { bits_per_second: read_u32_le(d, 0) },
    }
}

/// The picture parameter encoded by a byte block, or the zero default.
pub open spec fn enc_picture_of_bytes(data: Option<Seq<u8>>) -> EncPictureParameter {
    match data {
        None => EncPictureParameter { coded_buf: 0, frame_num: 0 },
        Some(s) => EncPictureParameter {
            coded_buf: le32(s, 0) as u32,
            frame_num: le32(s, 4) as u32,
        },
    }
}

/// Reads a picture parameter block.
pub fn parse_enc_picture(data: Option<&Vec<u8>>) -> (r: EncPictureParameter)
    requires
        data matches Some(d) ==> d@.len() >= 8,
    ensures
        r == enc_picture_of_bytes(
            match data {
                Some(d) => Some(d@),
                None => None,
            },
        ),
{
    match data {
        None => EncPictureParameter { coded_buf: 0, frame_num: 0 },
        Some(d) => EncPictureParameter {
            coded_buf: read_u32_le(d, 0),
            frame_num: read_u32_le(d, 4),
        },
    }
}

/// The slice parameter encoded by a byte block, or the zero default.
pub open spec fn enc_slice_of_bytes(data: Option<Seq<u8>>) -> EncSliceParameter {
    match data {
        None => EncSliceParameter { macroblock_address: 0, num_macroblocks: 0, slice_type: 0 },
        Some(s) => EncSliceParameter {
            macroblock_address: le32(s, 0) as u32,
            num_macroblocks: le32(s, 4) as u32,
            slice_type: le32(s, 8) as u32,
        },
    }
}

/// Reads a slice parameter block.
pub fn parse_enc_slice(data: Option<&Vec<u8>>) -> (r: EncSliceParameter)
    requires
        data matches Some(d) ==> d@.len() >= 12,
    ensures
        r == enc_slice_of_bytes(
            match data {
                Some(d) => Some(d@),
                None => None,
            },
        ),
{
    match data {
        None => EncSliceParameter { macroblock_address: 0, num_macroblocks: 0, slice_type: 0 },
        Some(d) => EncSliceParameter {
            macroblock_address: read_u32_le(d, 0),
            num_macroblocks: read_u32_le(d, 4),
            slice_type: read_u32_le(d, 8),
        },
    }
}

/// The kind code and payload encoded by a miscellaneous block, or the zero
/// default (empty payload).
pub open spec fn enc_misc_type_of_bytes(data: Option<Seq<u8>>) -> int {
    match data {
        None => 0,
        Some(s) => le32(s, 0),
    }
}

/// The payload bytes of a miscellaneous block.
pub open spec fn enc_misc_data_of_bytes(data: Option<Seq<u8>>) -> Seq<u8> {
    match data {
        None => Seq::empty(),
        Some(s) => s.skip(4),
    }
}

/// Reads a miscellaneous parameter block.
pub fn parse_enc_misc(data: Option<&Vec<u8>>) -> (r: EncMiscParameter)
    requires
        data matches Some(d) ==> d@.len() >= 4,
    ensures
        r.param_type as int == enc_misc_type_of_bytes(
            match data {
                Some(d) => Some(d@),
                None => None,
            },
        ),
        r.data@ == enc_misc_data_of_bytes(
            match data {
                Some(d) => Some(d@),
                None => None,
            },
        ),
{
    match data {
        None => EncMiscParameter { param_type: 0, data: Vec::new() },
        Some(d) => {
            let param_type = read_u32_le(d, 0);
            let mut payload: Vec<u8> = Vec::new();
            let mut i: usize = 4;
            while i < d.len()
                invariant
                    4 <= i <= d@.len(),
                    payload@ == d@.subrange(4, i as int),
                decreases d@.len() - i,
            {
                payload.push(d[i]);
                proof {
                    assert(payload@ =~= d@.subrange(4, i as int + 1));
                }
                i = i + 1;
            }
            proof {
                assert(payload@ =~= d@.skip(4));
            }
            EncMiscParameter { param_type, data: payload }
        },
    }
}

/// Reads a coded-segment header block.
pub fn parse_coded_segment(data: Option<&Vec<u8>>) -> (r: CodedSegment)
    requires
        data matches Some(d) ==> d@.len() >= 12,
    ensures
        match data {
            Some(d) => r.size as int == le32(d@, 0) && r.bit_offset as int == le32(d@, 4)
                && r.status as int == le32(d@, 8),
            None => r.size == 0 && r.bit_offset == 0 && r.status == 0,
        },
        r.data@ == Seq::<u8>::empty(),
{
    match data {
        None => CodedSegment { size: 0, bit_offset: 0, status: 0, data: Vec::new() },
        Some(d) => CodedSegment {
            size: read_u32_le(d, 0),
            bit_offset: read_u32_le(d, 4),
            status: read_u32_le(d, 8),
            data: Vec::new(),
        },
    }
}

} // verus!
