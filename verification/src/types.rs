//! The driver's object model — configs, surfaces, contexts, images and the
//! driver instance itself — together with the well-formedness conditions
//! every driver operation preserves.

use vstd::prelude::*;

use crate::buffer::{buffer_wf, Buffer};
use crate::format::{
    dims_ok, ImageFormatDesc, PlaneInfo, VA_FOURCC_BGRX, VA_FOURCC_NV12,
};
use crate::handle::HandleTable;

verus! {

/// Profile code of H.264 Main, the one profile this driver reports.
pub const VA_PROFILE_H264_MAIN: i32 = 6;

/// Entrypoint code for picture-level encoding.
pub const VA_ENTRYPOINT_ENC_PICTURE: u32 = 7;

/// Entrypoint code for pixel-format post-processing.
pub const VA_ENTRYPOINT_VIDEO_PROC: u32 = 10;

/// Config attribute type: render-target format class.
pub const VA_CONFIG_ATTRIB_RT_FORMAT: u32 = 0;

/// Config attribute type: rate-control mode.
pub const VA_CONFIG_ATTRIB_RATE_CONTROL: u32 = 5;

/// Config attribute type: maximum reference frames for encoding.
pub const VA_CONFIG_ATTRIB_ENC_MAX_REF_FRAMES: u32 = 13;

/// Rate-control mode: constant bitrate.
pub const VA_RC_CBR: u32 = 2;

/// Attribute value reported for attribute types the driver does not know.
pub const VA_ATTRIB_NOT_SUPPORTED: u32 = 0x80000000;

/// The fixed maximum-reference-frames value the driver reports.
pub const DEFAULT_ENC_MAX_REF_FRAMES: u32 = 10;

/// Surface attribute type: fourcc override for the new surfaces.
pub const VA_SURFACE_ATTRIB_PIXEL_FORMAT: u32 = 1;

/// Surface attribute type: assertion of the backing memory kind.
pub const VA_SURFACE_ATTRIB_MEMORY_TYPE: u32 = 6;

/// Memory kind: driver-allocated backing memory.
pub const VA_SURFACE_ATTRIB_MEM_TYPE_VA: u32 = 1;

/// Memory kind: zero-copy export of a single dmabuf descriptor.
pub const VA_SURFACE_ATTRIB_MEM_TYPE_DRM_PRIME: u32 = 0x20000000;

/// Memory kind: zero-copy export as a per-layer descriptor table.
pub const VA_SURFACE_ATTRIB_MEM_TYPE_DRM_PRIME_2: u32 = 0x40000000;

/// Color standard code reported by the post-processing capability query.
pub const VA_PROC_COLOR_STANDARD_BT709: u32 = 2;

/// One requested config attribute override, or one queried attribute slot.
#[derive(Clone, Copy, PartialEq, Eq, Structural, Debug)]
pub struct ConfigAttrib {
    pub attrib_type: u32,
    pub value: u32,
}

/// One surface-creation attribute: a type code and its integer value.
#[derive(Clone, Copy, PartialEq, Eq, Structural, Debug)]
pub struct SurfaceAttrib {
    pub attrib_type: u32,
    pub value: i32,
}

/// A capability profile/entrypoint pair with its requested attribute
/// overrides, as recorded at config creation.
#[derive(Clone, Debug)]
#[verifier::ext_equal]
pub struct Config {
    pub profile: i32,
    pub entrypoint: u32,
    pub attribs: Vec<ConfigAttrib>,
}

/// A rectangular pixel buffer: dimensions, format descriptor, the handle of
/// the buffer owning its backing memory, and its per-plane pitch/offset
/// table.
#[derive(Clone, Debug)]
#[verifier::ext_equal]
pub struct Surface {
    pub width: u32,
    pub height: u32,
    pub format: ImageFormatDesc,
    pub buffer_id: u32,
    pub planes: Vec<PlaneInfo>,
}

/// The lazily initialized encoder session of an encode context. Until the
/// first sequence parameter arrives nothing is constructed; afterwards the
/// recorded settings are fixed and a second sequence parameter is rejected.
///
/// Parameter blocks the dispatcher accepts but does not act on are recorded
/// in `discarded` (their type codes, in submission order) rather than
/// dropped without trace.
#[derive(Clone, PartialEq, Eq, Debug)]
#[verifier::ext_equal]
pub struct EncoderState {
    pub initialized: bool,
    pub bitrate_kbps: u32,
    pub width: u32,
    pub height: u32,
    pub fourcc: u32,
    pub coded_buf: Option<u32>,
    pub discarded: Vec<u32>,
}

/// Pipeline-specific context state: an encode session, or the marker of a
/// post-processing context.
#[derive(Clone, Debug)]
#[verifier::ext_equal]
pub enum ContextData {
    Enc(EncoderState),
    Proc,
}

/// A context binds a config to picture dimensions and, between begin-picture
/// and end-picture, to a current render target.
#[derive(Clone, Debug)]
#[verifier::ext_equal]
pub struct Context {
    pub render_target: Option<u32>,
    pub config_id: u32,
    pub picture_width: i32,
    pub picture_height: i32,
    pub flag: i32,
    pub data: ContextData,
}

/// An image entity: opaque identity only, correlated to one derive call.
#[derive(Clone, Debug)]
pub struct Image {}

/// The externally visible description of a surface's backing memory, as
/// reported by image derivation. At most three planes are described.
#[derive(Clone, Copy, PartialEq, Eq, Debug)]
pub struct VaImage {
    pub image_id: u32,
    pub format: ImageFormatDesc,
    pub buf: u32,
    pub width: u16,
    pub height: u16,
    pub data_size: u32,
    pub num_planes: u32,
    pub pitches: [u32; 3],
    pub offsets: [u32; 3],
}

/// One exported memory object: the dmabuf descriptor, its byte size and its
/// format modifier.
#[derive(Clone, Copy, PartialEq, Eq, Structural, Debug)]
pub struct DrmObject {
    pub fd: u64,
    pub size: u32,
    pub drm_format_modifier: u64,
}

/// One exported layer: format code, plane count and per-plane tables.
#[derive(Clone, Copy, PartialEq, Eq, Debug)]
pub struct DrmLayer {
    pub drm_format: u32,
    pub num_planes: u32,
    pub object_index: [u32; 4],
    pub offset: [u32; 4],
    pub pitch: [u32; 4],
}

/// The zero-copy export descriptor: exactly one memory object and one layer
/// are populated; the remaining slots are zeroed.
#[derive(Clone, Copy, PartialEq, Eq, Debug)]
pub struct DrmPrimeSurfaceDescriptor {
    pub fourcc: u32,
    pub width: u32,
    pub height: u32,
    pub num_objects: u32,
    pub objects: [DrmObject; 4],
    pub num_layers: u32,
    pub layers: [DrmLayer; 4],
}

/// What an acquired buffer handle reports: the raw dmabuf descriptor, the
/// requested memory kind and the region size.
#[derive(Clone, Copy, PartialEq, Eq, Structural, Debug)]
pub struct BufferInfo {
    pub handle: u64,
    pub buf_type: u32,
    pub mem_type: u32,
    pub mem_size: usize,
}

/// The post-processing capability report: the supported color standards,
/// pixel formats and dimension bounds.
#[derive(Clone, Debug)]
pub struct PipelineCaps {
    pub pipeline_flags: u32,
    pub filter_flags: u32,
    pub num_forward_references: u32,
    pub num_backward_references: u32,
    pub input_color_standards: Vec<u32>,
    pub output_color_standards: Vec<u32>,
    pub rotation_flags: u32,
    pub blend_flags: u32,
    pub mirror_flags: u32,
    pub num_additional_outputs: u32,
    pub input_pixel_formats: Vec<u32>,
    pub output_pixel_formats: Vec<u32>,
    pub max_input_width: u32,
    pub max_input_height: u32,
    pub min_input_width: u32,
    pub min_input_height: u32,
    pub max_output_width: u32,
    pub max_output_height: u32,
    pub min_output_width: u32,
    pub min_output_height: u32,
}

/// Largest pitch a well-formed surface can record, in bytes.
pub const MAX_PITCH: usize = 0x20000;

/// Largest backing region size a well-formed surface buffer can have: the
/// largest surface size rounded up by at most the largest page size.
pub const MAX_REGION_SIZE: usize = 0x8000_FFFF;

/// A well-formed surface: accepted dimensions, a known fourcc with the plane
/// count that fourcc implies, and pitch/offset values small enough to report
/// through the 32-bit descriptor tables.
pub open spec fn surface_wf(s: Surface) -> bool {
    &&& dims_ok(s.width, s.height)
    &&& (s.format.fourcc == VA_FOURCC_NV12 || s.format.fourcc == VA_FOURCC_BGRX)
    &&& (s.format.fourcc == VA_FOURCC_NV12 ==> s.planes@.len() == 2)
    &&& (s.format.fourcc == VA_FOURCC_BGRX ==> s.planes@.len() == 1)
    &&& forall|i: int|
        0 <= i < s.planes@.len() ==> 1 <= (#[trigger] s.planes@[i]).pitch <= MAX_PITCH
            && s.planes@[i].offset <= MAX_REGION_SIZE
}

/// A well-formed driver buffer: a surface buffer's bytes cover exactly its
/// declared region size, which stays within the largest region size.
pub open spec fn driver_buffer_wf(b: Buffer) -> bool {
    &&& buffer_wf(b)
    &&& match b {
        Buffer::Surface(sm) => sm.size <= MAX_REGION_SIZE,
        _ => true,
    }
}

/// The one driver instance: the page size of the system it runs on and the
/// five object tables.
pub struct Driver {
    pub page_size: usize,
    pub surfaces: HandleTable<Surface>,
    pub configs: HandleTable<Config>,
    pub contexts: HandleTable<Context>,
    pub images: HandleTable<Image>,
    pub buffers: HandleTable<Buffer>,
}

impl Driver {
    /// Well-formedness every operation preserves: a sane page size, handle
    /// counts that fit the 32-bit handle space, and well-formed surfaces and
    /// buffers in their tables.
    pub open spec fn wf(&self) -> bool {
        &&& 1 <= self.page_size <= 65536
        &&& self.surfaces@.len() <= u32::MAX
        &&& self.configs@.len() <= u32::MAX
        &&& self.contexts@.len() <= u32::MAX
        &&& self.images@.len() <= u32::MAX
        &&& self.buffers@.len() <= u32::MAX
        &&& forall|i: int|
            0 <= i < self.surfaces@.len() && self.surfaces@[i] is Some ==> surface_wf(
                (#[trigger] self.surfaces@[i])->Some_0,
            )
        &&& forall|i: int|
            0 <= i < self.buffers@.len() && self.buffers@[i] is Some ==> driver_buffer_wf(
                (#[trigger] self.buffers@[i])->Some_0,
            )
    }
}

} // verus!
