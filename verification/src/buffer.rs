//! The tagged buffer model: one enumerated type holding the mutually
//! exclusive payload shapes a driver buffer can carry — a zero-copy surface
//! memory region, one of the recognized parameter blocks, a coded-output
//! segment, or an opaque byte blob under its original type tag.

use vstd::prelude::*;

use crate::params::{
    parse_coded_segment, parse_enc_misc, parse_enc_picture, parse_enc_sequence, parse_enc_slice,
    parse_proc_pipeline, proc_pipeline_of_bytes, enc_sequence_of_bytes, enc_picture_of_bytes,
    enc_slice_of_bytes, enc_misc_type_of_bytes, enc_misc_data_of_bytes, le32,
    recognized_param_type, required_param_size, CodedSegment, EncMiscParameter,
    EncPictureParameter, EncSequenceParameter, EncSliceParameter, ProcPipelineParameter,
    VA_BUFFER_TYPE_ENC_CODED, VA_BUFFER_TYPE_ENC_MISC_PARAMETER,
    VA_BUFFER_TYPE_ENC_PICTURE_PARAMETER, VA_BUFFER_TYPE_ENC_SEQUENCE_PARAMETER,
    VA_BUFFER_TYPE_ENC_SLICE_PARAMETER, VA_BUFFER_TYPE_PROC_PIPELINE_PARAMETER,
};
use crate::status::VaStatus;

verus! {

/// The descriptor pair the kernel allocator produced for one backing region:
/// the exported dmabuf descriptor and the sealed anonymous-memory descriptor
/// behind it. Both are owned by the surface buffer they back.
#[derive(Clone, Copy, PartialEq, Eq, Structural, Debug)]
pub struct DmaHandles {
    pub dmabuf_fd: u64,
    pub backing_fd: u64,
}

/// A surface's backing memory: its descriptor pair, the page-aligned region
/// size, and the region's bytes as the driver sees them through its mapping.
#[derive(Clone, Debug)]
#[verifier::ext_equal]
pub struct SurfaceMemory {
    pub dma: DmaHandles,
    pub size: usize,
    pub mem: Vec<u8>,
}

/// An opaque byte blob stored for an unrecognized buffer type tag.
#[derive(Clone, PartialEq, Eq, Debug)]
#[verifier::ext_equal]
pub struct GenericBlob {
    pub mem_type: u32,
    pub data: Vec<u8>,
}

/// A driver buffer's payload, fixed at creation from the caller's type tag.
#[derive(Clone, Debug)]
#[verifier::ext_equal]
pub enum Buffer {
    /// A memory-mapped dmabuf-backed surface region.
    Surface(SurfaceMemory),
    /// A post-processing pipeline parameter block.
    ProcPipeline(ProcPipelineParameter),
    /// A coded-output segment the encode step fills.
    CodedSegment(CodedSegment),
    /// A whole-stream encode parameter block.
    EncSequence(EncSequenceParameter),
    /// A miscellaneous encode parameter block.
    EncMisc(EncMiscParameter),
    /// A single-slice encode parameter block.
    EncSlice(EncSliceParameter),
    /// A single-frame encode parameter block.
    EncPicture(EncPictureParameter),
    /// An opaque blob tagged with its original type code.
    Generic(GenericBlob),
}

/// A surface buffer is well formed when its bytes cover exactly its declared
/// region size; other payloads carry no such obligation.
pub open spec fn buffer_wf(b: Buffer) -> bool {
    match b {
        Buffer::Surface(sm) => sm.mem@.len() == sm.size,
        _ => true,
    }
}

/// What `buffer_from_type` stores for a given creation request.
pub open spec fn buffer_of_type(type_: u32, size: u32, data: Option<Seq<u8>>, b: Buffer) -> bool {
    if type_ == VA_BUFFER_TYPE_PROC_PIPELINE_PARAMETER {
        b == Buffer::ProcPipeline(proc_pipeline_of_bytes(data))
    } else if type_ == VA_BUFFER_TYPE_ENC_SEQUENCE_PARAMETER {
        b == Buffer::EncSequence(enc_sequence_of_bytes(data))
    } else if type_ == VA_BUFFER_TYPE_ENC_PICTURE_PARAMETER {
        b == Buffer::EncPicture(enc_picture_of_bytes(data))
    } else if type_ == VA_BUFFER_TYPE_ENC_SLICE_PARAMETER {
        b == Buffer::EncSlice(enc_slice_of_bytes(data))
    } else if type_ == VA_BUFFER_TYPE_ENC_MISC_PARAMETER {
        match b {
            Buffer::EncMisc(m) => m.param_type as int == enc_misc_type_of_bytes(data)
                && m.data@ == enc_misc_data_of_bytes(data),
            _ => false,
        }
    } else if type_ == VA_BUFFER_TYPE_ENC_CODED {
        match b {
            Buffer::CodedSegment(cs) => {
                &&& cs.data@ == Seq::<u8>::empty()
                &&& match data {
                    Some(s) => cs.size as int == le32(s, 0) && cs.bit_offset as int == le32(s, 4)
                        && cs.status as int == le32(s, 8),
                    None => cs.size == 0 && cs.bit_offset == 0 && cs.status == 0,
                }
            },
            _ => false,
        }
    } else {
        match b {
            Buffer::Generic(g) => g.mem_type == type_ && (match data {
                Some(s) => g.data@ == s,
                None => g.data@ == Seq::new(size as nat, |i: int| 0u8),
            }),
            _ => false,
        }
    }
}

/// Builds a buffer payload from a creation request: a recognized type tag is
/// read into its typed block (rejecting initial data shorter than the
/// block's layout); any other tag is stored as an opaque blob, copied from
/// the caller's bytes or zero-filled to the requested size.
///
/// Exactly one element is supported; a larger count fails loudly rather
/// than truncating.
pub fn buffer_from_type(type_: u32, size: u32, num_elements: u32, data: Option<&Vec<u8>>) -> (r:
    Result<Buffer, VaStatus>)
    requires
        data matches Some(d) ==> d@.len() == size * num_elements,
    ensures
        num_elements != 1 ==> r == Err::<Buffer, VaStatus>(VaStatus::Unimplemented),
        num_elements == 1 && recognized_param_type(type_) && size < required_param_size(type_)
            ==> r == Err::<Buffer, VaStatus>(VaStatus::InvalidParameter),
        num_elements == 1 && (!recognized_param_type(type_) || size >= required_param_size(type_))
            ==> (r matches Ok(b) && buffer_of_type(
            type_,
            size,
            match data {
                Some(d) => Some(d@),
                None => None,
            },
            b,
        ) && buffer_wf(b)),
{
    if num_elements != 1 {
        return Err(VaStatus::Unimplemented);
    }
    if type_ == VA_BUFFER_TYPE_PROC_PIPELINE_PARAMETER {
        if size < 28 {
            return Err(VaStatus::InvalidParameter);
        }
        Ok(Buffer::ProcPipeline(parse_proc_pipeline(data)))
    } else if type_ == VA_BUFFER_TYPE_ENC_SEQUENCE_PARAMETER {
        if size < 4 {
            return Err(VaStatus::InvalidParameter);
        }
        Ok(Buffer::EncSequence(parse_enc_sequence(data)))
    } else if type_ == VA_BUFFER_TYPE_ENC_PICTURE_PARAMETER {
        if size < 8 {
            return Err(VaStatus::InvalidParameter);
        }
        Ok(Buffer::EncPicture(parse_enc_picture(data)))
    } else if type_ == VA_BUFFER_TYPE_ENC_SLICE_PARAMETER {
        if size < 12 {
            return Err(VaStatus::InvalidParameter);
        }
        Ok(Buffer::EncSlice(parse_enc_slice(data)))
    } else if type_ == VA_BUFFER_TYPE_ENC_MISC_PARAMETER {
        if size < 4 {
            return Err(VaStatus::InvalidParameter);
        }
        Ok(Buffer::EncMisc(parse_enc_misc(data)))
    } else if type_ == VA_BUFFER_TYPE_ENC_CODED {
        if size < 12 {
            return Err(VaStatus::InvalidParameter);
        }
        Ok(Buffer::CodedSegment(parse_coded_segment(data)))
    } else {
        let blob: Vec<u8> = match data {
            Some(d) => {
                let mut v: Vec<u8> = Vec::new();
                v.extend_from_slice(d.as_slice());
                proof {
                    assert(v@ =~= d@);
                }
                v
            },
            None => {
                let v = vec![0u8; size as usize];
                proof {
                    assert(v@ =~= Seq::new(size as nat, |i: int| 0u8));
                }
                v
            },
        };
        Ok(Buffer::Generic(GenericBlob { mem_type: type_, data: blob }))
    }
}

impl Buffer {
    /// The readable bytes a mapping of this buffer exposes: the full backing
    /// region of a surface buffer, or the compressed payload of a coded
    /// segment. Other payloads do not support mapping.
    pub fn map(&self) -> (r: Option<&Vec<u8>>)
        ensures
            match self {
                Buffer::Surface(sm) => r == Some(&sm.mem),
                Buffer::CodedSegment(cs) => r == Some(&cs.data),
                _ => r is None,
            },
    {
        match self {
            Buffer::Surface(sm) => Some(&sm.mem),
            Buffer::CodedSegment(cs) => Some(&cs.data),
            _ => None,
        }
    }
}

} // verus!
