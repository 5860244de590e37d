//! The driver's entry points: object creation and destruction, attribute
//! and capability queries, buffer mapping and the picture bracket. The
//! render dispatcher itself lives in `render`.

use vstd::prelude::*;

use crate::buffer::{buffer_from_type, buffer_of_type, Buffer, DmaHandles, SurfaceMemory};
use crate::format::{
    align_up, align_up_spec, dims_ok, layout_ok, supported_surface_combo, surface_layout,
    SurfaceLayout, VA_FOURCC_BGRX, VA_FOURCC_NV12, VA_RT_FORMAT_RGB32,
    VA_RT_FORMAT_YUV420,
};
use crate::format::spec_image_fmt_nv12;
use crate::format::image_fmt_nv12;
use crate::format::{ImageFormatDesc, PlaneInfo};
use crate::handle::HandleTable;
use crate::params::{recognized_param_type, required_param_size, CodedSegment};
use crate::status::VaStatus;
use crate::types::{
    BufferInfo, Config, ConfigAttrib, Context, ContextData, DrmLayer, DrmObject,
    DrmPrimeSurfaceDescriptor, Driver, EncoderState, Image, PipelineCaps, Surface, SurfaceAttrib,
    VaImage, VA_SURFACE_ATTRIB_MEM_TYPE_DRM_PRIME, VA_SURFACE_ATTRIB_MEM_TYPE_DRM_PRIME_2, DEFAULT_ENC_MAX_REF_FRAMES, VA_ATTRIB_NOT_SUPPORTED,
    VA_CONFIG_ATTRIB_ENC_MAX_REF_FRAMES, VA_CONFIG_ATTRIB_RATE_CONTROL, VA_CONFIG_ATTRIB_RT_FORMAT,
    VA_ENTRYPOINT_ENC_PICTURE, VA_ENTRYPOINT_VIDEO_PROC, VA_PROC_COLOR_STANDARD_BT709,
    VA_PROFILE_H264_MAIN, VA_RC_CBR, VA_SURFACE_ATTRIB_MEMORY_TYPE, VA_SURFACE_ATTRIB_MEM_TYPE_VA,
    VA_SURFACE_ATTRIB_PIXEL_FORMAT,
};

verus! {

/// The page size accepted by `Driver::new` is positive and no larger than
/// the largest supported system page.
pub open spec fn page_size_ok(page_size: usize) -> bool {
    1 <= page_size <= 65536
}

/// The surfaces table is the same in both states.
pub open spec fn same_surfaces(pre: &Driver, post: &Driver) -> bool {
    post.surfaces@ == pre.surfaces@
}

/// The configs table is the same in both states.
pub open spec fn same_configs(pre: &Driver, post: &Driver) -> bool {
    post.configs@ == pre.configs@
}

/// The contexts table is the same in both states.
pub open spec fn same_contexts(pre: &Driver, post: &Driver) -> bool {
    post.contexts@ == pre.contexts@
}

/// The images table is the same in both states.
pub open spec fn same_images(pre: &Driver, post: &Driver) -> bool {
    post.images@ == pre.images@
}

/// The buffers table is the same in both states.
pub open spec fn same_buffers(pre: &Driver, post: &Driver) -> bool {
    post.buffers@ == pre.buffers@
}

/// Nothing observable about the driver differs between the two states.
pub open spec fn same_driver(pre: &Driver, post: &Driver) -> bool {
    &&& post.page_size == pre.page_size
    &&& same_surfaces(pre, post)
    &&& same_configs(pre, post)
    &&& same_contexts(pre, post)
    &&& same_images(pre, post)
    &&& same_buffers(pre, post)
}

/// The attribute value the driver reports for a queried attribute type:
/// fixed defaults for the three recognized types, "not supported" for every
/// other.
pub open spec fn config_attrib_value(attrib_type: u32) -> u32 {
    if attrib_type == VA_CONFIG_ATTRIB_RT_FORMAT {
        VA_RT_FORMAT_YUV420
    } else if attrib_type == VA_CONFIG_ATTRIB_RATE_CONTROL {
        VA_RC_CBR
    } else if attrib_type == VA_CONFIG_ATTRIB_ENC_MAX_REF_FRAMES {
        DEFAULT_ENC_MAX_REF_FRAMES
    } else {
        VA_ATTRIB_NOT_SUPPORTED
    }
}

/// The config entrypoints a context can be created for.
pub open spec fn entrypoint_supported(entrypoint: u32) -> bool {
    ||| entrypoint == VA_ENTRYPOINT_ENC_PICTURE
    ||| entrypoint == VA_ENTRYPOINT_VIDEO_PROC
}

/// The pipeline-specific state a new context starts with: a blank encoder
/// session for the encode entrypoint, the post-processing marker for the
/// video-processing entrypoint.
pub open spec fn new_context_data_ok(entrypoint: u32, data: ContextData) -> bool {
    if entrypoint == VA_ENTRYPOINT_ENC_PICTURE {
        data matches ContextData::Enc(es) && es.initialized == false && es.bitrate_kbps == 0
            && es.width == 0 && es.height == 0 && es.fourcc == 0 && es.coded_buf is None
            && es.discarded@ == Seq::<u32>::empty()
    } else if entrypoint == VA_ENTRYPOINT_VIDEO_PROC {
        data is Proc
    } else {
        false
    }
}

impl Driver {
    /// Creates a driver instance bound to the given system page size, with
    /// all object tables empty.
    pub fn new(page_size: usize) -> (d: Driver)
        requires
            page_size_ok(page_size),
        ensures
            d.wf(),
            d.page_size == page_size,
            d.surfaces@.len() == 0,
            d.configs@.len() == 0,
            d.contexts@.len() == 0,
            d.images@.len() == 0,
            d.buffers@.len() == 0,
    {
        Driver {
            page_size,
            surfaces: HandleTable::new(),
            configs: HandleTable::new(),
            contexts: HandleTable::new(),
            images: HandleTable::new(),
            buffers: HandleTable::new(),
        }
    }

    /// Records a new config for the given profile/entrypoint pair with the
    /// requested attribute overrides and returns its handle.
    pub fn create_config(&mut self, profile: i32, entrypoint: u32, attribs: Vec<ConfigAttrib>)
        -> (r: Result<u32, VaStatus>)
        requires
            old(self).wf(),
        ensures
            final(self).wf(),
            final(self).page_size == old(self).page_size,
            same_surfaces(old(self), final(self)),
            same_contexts(old(self), final(self)),
            same_images(old(self), final(self)),
            same_buffers(old(self), final(self)),
            old(self).configs@.len() == u32::MAX ==> r == Err::<u32, VaStatus>(
                VaStatus::AllocationFailed,
            ) && same_configs(old(self), final(self)),
            old(self).configs@.len() < u32::MAX ==> (r matches Ok(h) && h as int
                == old(self).configs@.len() && final(self).configs@ == old(self).configs@.push(
                Some(Config { profile, entrypoint, attribs }),
            )),
    {
        if self.configs.len() >= u32::MAX as usize {
            return Err(VaStatus::AllocationFailed);
        }
        Ok(self.configs.allocate(Config { profile, entrypoint, attribs }))
    }

    /// Destroys a config; its handle becomes invalid.
    pub fn destroy_config(&mut self, config_id: u32) -> (r: Result<(), VaStatus>)
        requires
            old(self).wf(),
        ensures
            final(self).wf(),
            final(self).page_size == old(self).page_size,
            same_surfaces(old(self), final(self)),
            same_contexts(old(self), final(self)),
            same_images(old(self), final(self)),
            same_buffers(old(self), final(self)),
            r is Ok <==> old(self).configs.valid(config_id),
            r is Ok ==> final(self).configs@ == old(self).configs@.update(
                config_id as int,
                None::<Config>,
            ),
            r is Err ==> r == Err::<(), VaStatus>(VaStatus::InvalidConfig) && same_configs(
                old(self),
                final(self),
            ),
    {
        if self.configs.free(config_id) {
            Ok(())
        } else {
            Err(VaStatus::InvalidConfig)
        }
    }

    /// Fills each queried attribute slot with the driver's value for its
    /// type: the fixed render-target format, rate-control and
    /// reference-frame defaults for the recognized types, and "not
    /// supported" for every other type, whatever the profile and entrypoint.
    pub fn get_config_attributes(&self, profile: i32, entrypoint: u32,
        attribs: &mut Vec<ConfigAttrib>)
        ensures
            final(attribs)@.len() == old(attribs)@.len(),
            forall|i: int|
                0 <= i < old(attribs)@.len() ==> (#[trigger] final(attribs)@[i]).attrib_type == old(
                    attribs,
                )@[i].attrib_type && final(attribs)@[i].value == config_attrib_value(
                    old(attribs)@[i].attrib_type,
                ),
    {
        let n = attribs.len();
        let mut i: usize = 0;
        while i < n
            invariant
                n == attribs@.len(),
                0 <= i <= n,
                forall|j: int|
                    i <= j < n ==> (#[trigger] attribs@[j]) == old(attribs)@[j],
                forall|j: int|
                    0 <= j < i ==> (#[trigger] attribs@[j]).attrib_type == old(
                        attribs,
                    )@[j].attrib_type && attribs@[j].value == config_attrib_value(
                        old(attribs)@[j].attrib_type,
                    ),
            decreases n - i,
        {
            let t = attribs[i].attrib_type;
            let value = if t == VA_CONFIG_ATTRIB_RT_FORMAT {
                VA_RT_FORMAT_YUV420
            } else if t == VA_CONFIG_ATTRIB_RATE_CONTROL {
                VA_RC_CBR
            } else if t == VA_CONFIG_ATTRIB_ENC_MAX_REF_FRAMES {
                DEFAULT_ENC_MAX_REF_FRAMES
            } else {
                VA_ATTRIB_NOT_SUPPORTED
            };
            attribs[i] = ConfigAttrib { attrib_type: t, value };
            i = i + 1;
        }
    }

    /// Creates a context bound to a live config; the pipeline kind is
    /// derived from the config's entrypoint. The candidate render targets
    /// are accepted but not recorded; the actual target is set per picture.
    pub fn create_context(&mut self, config_id: u32, picture_width: i32, picture_height: i32,
        flag: i32, render_targets: &Vec<u32>) -> (r: Result<u32, VaStatus>)
        requires
            old(self).wf(),
        ensures
            final(self).wf(),
            final(self).page_size == old(self).page_size,
            same_surfaces(old(self), final(self)),
            same_configs(old(self), final(self)),
            same_images(old(self), final(self)),
            same_buffers(old(self), final(self)),
            !old(self).configs.valid(config_id) ==> r == Err::<u32, VaStatus>(
                VaStatus::InvalidConfig,
            ) && same_contexts(old(self), final(self)),
            old(self).configs.valid(config_id) && !entrypoint_supported(
                old(self).configs.at(config_id).entrypoint,
            ) ==> r == Err::<u32, VaStatus>(VaStatus::Unimplemented) && same_contexts(
                old(self),
                final(self),
            ),
            old(self).configs.valid(config_id) && entrypoint_supported(
                old(self).configs.at(config_id).entrypoint,
            ) && old(self).contexts@.len() == u32::MAX ==> r == Err::<u32, VaStatus>(
                VaStatus::AllocationFailed,
            ) && same_contexts(old(self), final(self)),
            old(self).configs.valid(config_id) && entrypoint_supported(
                old(self).configs.at(config_id).entrypoint,
            ) && old(self).contexts@.len() < u32::MAX ==> (r matches Ok(h) && ({
                &&& h as int == old(self).contexts@.len()
                &&& final(self).contexts@.len() == old(self).contexts@.len() + 1
                &&& forall|j: int|
                    0 <= j < old(self).contexts@.len() ==> final(self).contexts@[j] == old(
                        self,
                    ).contexts@[j]
                &&& final(self).contexts@.last() matches Some(c) && ({
                    &&& c.render_target is None
                    &&& c.config_id == config_id
                    &&& c.picture_width == picture_width
                    &&& c.picture_height == picture_height
                    &&& c.flag == flag
                    &&& new_context_data_ok(old(self).configs.at(config_id).entrypoint, c.data)
                })
            })),
    {
        let entrypoint = match self.configs.get(config_id) {
            Some(c) => c.entrypoint,
            None => {
                return Err(VaStatus::InvalidConfig);
            },
        };
        let data = if entrypoint == VA_ENTRYPOINT_ENC_PICTURE {
            ContextData::Enc(
                EncoderState {
                    initialized: false,
                    bitrate_kbps: 0,
                    width: 0,
                    height: 0,
                    fourcc: 0,
                    coded_buf: None,
                    discarded: Vec::new(),
                },
            )
        } else if entrypoint == VA_ENTRYPOINT_VIDEO_PROC {
            ContextData::Proc
        } else {
            return Err(VaStatus::Unimplemented);
        };
        if self.contexts.len() >= u32::MAX as usize {
            return Err(VaStatus::AllocationFailed);
        }
        Ok(
            self.contexts.allocate(
                Context { render_target: None, config_id, picture_width, picture_height, flag, data },
            ),
        )
    }

    /// Destroys a context; its handle becomes invalid.
    pub fn destroy_context(&mut self, context_id: u32) -> (r: Result<(), VaStatus>)
        requires
            old(self).wf(),
        ensures
            final(self).wf(),
            final(self).page_size == old(self).page_size,
            same_surfaces(old(self), final(self)),
            same_configs(old(self), final(self)),
            same_images(old(self), final(self)),
            same_buffers(old(self), final(self)),
            r is Ok <==> old(self).contexts.valid(context_id),
            r is Ok ==> final(self).contexts@ == old(self).contexts@.update(
                context_id as int,
                None::<Context>,
            ),
            r is Err ==> r == Err::<(), VaStatus>(VaStatus::InvalidContext) && same_contexts(
                old(self),
                final(self),
            ),
    {
        if self.contexts.free(context_id) {
            Ok(())
        } else {
            Err(VaStatus::InvalidContext)
        }
    }

    /// Destroys an image; its handle becomes invalid.
    pub fn destroy_image(&mut self, image_id: u32) -> (r: Result<(), VaStatus>)
        requires
            old(self).wf(),
        ensures
            final(self).wf(),
            final(self).page_size == old(self).page_size,
            same_surfaces(old(self), final(self)),
            same_configs(old(self), final(self)),
            same_contexts(old(self), final(self)),
            same_buffers(old(self), final(self)),
            r is Ok <==> old(self).images.valid(image_id),
            r is Ok ==> final(self).images@ == old(self).images@.update(
                image_id as int,
                None::<Image>,
            ),
            r is Err ==> r == Err::<(), VaStatus>(VaStatus::InvalidImage) && same_images(
                old(self),
                final(self),
            ),
    {
        if self.images.free(image_id) {
            Ok(())
        } else {
            Err(VaStatus::InvalidImage)
        }
    }

    /// Destroys a buffer, dropping its payload (and, for a surface buffer,
    /// releasing its backing region); its handle becomes invalid.
    pub fn destroy_buffer(&mut self, buffer_id: u32) -> (r: Result<(), VaStatus>)
        requires
            old(self).wf(),
        ensures
            final(self).wf(),
            final(self).page_size == old(self).page_size,
            same_surfaces(old(self), final(self)),
            same_configs(old(self), final(self)),
            same_contexts(old(self), final(self)),
            same_images(old(self), final(self)),
            r is Ok <==> old(self).buffers.valid(buffer_id),
            r is Ok ==> final(self).buffers@ == old(self).buffers@.update(
                buffer_id as int,
                None::<Buffer>,
            ),
            r is Err ==> r == Err::<(), VaStatus>(VaStatus::InvalidBuffer) && same_buffers(
                old(self),
                final(self),
            ),
    {
        if self.buffers.free(buffer_id) {
            Ok(())
        } else {
            Err(VaStatus::InvalidBuffer)
        }
    }

    /// Creates a buffer from a type tag, a declared element size and count,
    /// and optional initial bytes, as `buffer_from_type` describes. The
    /// context handle is accepted for interface compatibility and not
    /// consulted.
    pub fn create_buffer(&mut self, context_id: u32, type_: u32, size: u32, num_elements: u32,
        data: Option<&Vec<u8>>) -> (r: Result<u32, VaStatus>)
        requires
            old(self).wf(),
            data matches Some(d) ==> d@.len() == size * num_elements,
        ensures
            final(self).wf(),
            final(self).page_size == old(self).page_size,
            same_surfaces(old(self), final(self)),
            same_configs(old(self), final(self)),
            same_contexts(old(self), final(self)),
            same_images(old(self), final(self)),
            r is Err ==> same_buffers(old(self), final(self)),
            old(self).buffers@.len() == u32::MAX ==> r == Err::<u32, VaStatus>(
                VaStatus::AllocationFailed,
            ),
            old(self).buffers@.len() < u32::MAX && num_elements != 1 ==> r == Err::<u32, VaStatus>(
                VaStatus::Unimplemented,
            ),
            old(self).buffers@.len() < u32::MAX && num_elements == 1 && recognized_param_type(
                type_,
            ) && size < required_param_size(type_) ==> r == Err::<u32, VaStatus>(
                VaStatus::InvalidParameter,
            ),
            old(self).buffers@.len() < u32::MAX && num_elements == 1 && (!recognized_param_type(
                type_,
            ) || size >= required_param_size(type_)) ==> (r matches Ok(h) && ({
                &&& h as int == old(self).buffers@.len()
                &&& final(self).buffers@.len() == old(self).buffers@.len() + 1
                &&& forall|j: int|
                    0 <= j < old(self).buffers@.len() ==> final(self).buffers@[j] == old(
                        self,
                    ).buffers@[j]
                &&& final(self).buffers@.last() matches Some(b) && buffer_of_type(
                    type_,
                    size,
                    match data {
                        Some(d) => Some(d@),
                        None => None,
                    },
                    b,
                )
            })),
    {
        if self.buffers.len() >= u32::MAX as usize {
            return Err(VaStatus::AllocationFailed);
        }
        let b = match buffer_from_type(type_, size, num_elements, data) {
            Ok(b) => b,
            Err(e) => {
                return Err(e);
            },
        };
        let h = self.buffers.allocate(b);
        Ok(h)
    }

    /// Maps a buffer for reading: the full backing region of a surface
    /// buffer, or the compressed payload of a coded segment. Parameter
    /// blocks are not mappable.
    pub fn map_buffer(&self, buffer_id: u32) -> (r: Result<&Vec<u8>, VaStatus>)
        ensures
            !self.buffers.valid(buffer_id) ==> r == Err::<&Vec<u8>, VaStatus>(
                VaStatus::InvalidBuffer,
            ),
            self.buffers.valid(buffer_id) ==> match self.buffers.at(buffer_id) {
                Buffer::Surface(sm) => r matches Ok(m) && m@ == sm.mem@,
                Buffer::CodedSegment(cs) => r matches Ok(m) && m@ == cs.data@,
                _ => r == Err::<&Vec<u8>, VaStatus>(VaStatus::Unimplemented),
            },
    {
        let b = match self.buffers.get(buffer_id) {
            Some(b) => b,
            None => {
                return Err(VaStatus::InvalidBuffer);
            },
        };
        match b.map() {
            Some(m) => Ok(m),
            None => Err(VaStatus::Unimplemented),
        }
    }

    /// Releases a mapping. The driver's mappings live for the buffer's
    /// lifetime, so this only validates the handle.
    pub fn unmap_buffer(&self, buffer_id: u32) -> (r: Result<(), VaStatus>)
        ensures
            r is Ok <==> self.buffers.valid(buffer_id),
            r is Err ==> r == Err::<(), VaStatus>(VaStatus::InvalidBuffer),
    {
        match self.buffers.get(buffer_id) {
            Some(_) => Ok(()),
            None => Err(VaStatus::InvalidBuffer),
        }
    }

    /// Binds the context's render target for the picture being composed.
    pub fn begin_picture(&mut self, context_id: u32, render_target: u32) -> (r: Result<
        (),
        VaStatus,
    >)
        requires
            old(self).wf(),
        ensures
            final(self).wf(),
            final(self).page_size == old(self).page_size,
            same_surfaces(old(self), final(self)),
            same_configs(old(self), final(self)),
            same_images(old(self), final(self)),
            same_buffers(old(self), final(self)),
            !old(self).contexts.valid(context_id) ==> r == Err::<(), VaStatus>(
                VaStatus::InvalidContext,
            ) && same_contexts(old(self), final(self)),
            old(self).contexts.valid(context_id) && !old(self).surfaces.valid(render_target) ==> r
                == Err::<(), VaStatus>(VaStatus::InvalidSurface) && same_contexts(
                old(self),
                final(self),
            ),
            old(self).contexts.valid(context_id) && old(self).surfaces.valid(render_target) ==> (r
                is Ok && final(self).contexts@ == old(self).contexts@.update(
                context_id as int,
                Some(
                    Context {
                        render_target: Some(render_target),
                        ..old(self).contexts.at(context_id)
                    },
                ),
            )),
    {
        let ctx = match self.contexts.take(context_id) {
            Some(c) => c,
            None => {
                return Err(VaStatus::InvalidContext);
            },
        };
        if self.surfaces.get(render_target).is_none() {
            self.contexts.put(context_id, ctx);
            proof {
                assert(final(self).contexts@ =~= old(self).contexts@);
            }
            return Err(VaStatus::InvalidSurface);
        }
        let ctx2 = Context { render_target: Some(render_target), ..ctx };
        self.contexts.put(context_id, ctx2);
        Ok(())
    }

    /// Clears the context's render target, ending the picture bracket.
    pub fn end_picture(&mut self, context_id: u32) -> (r: Result<(), VaStatus>)
        requires
            old(self).wf(),
        ensures
            final(self).wf(),
            final(self).page_size == old(self).page_size,
            same_surfaces(old(self), final(self)),
            same_configs(old(self), final(self)),
            same_images(old(self), final(self)),
            same_buffers(old(self), final(self)),
            !old(self).contexts.valid(context_id) ==> r == Err::<(), VaStatus>(
                VaStatus::InvalidContext,
            ) && same_contexts(old(self), final(self)),
            old(self).contexts.valid(context_id) ==> (r is Ok && final(self).contexts@ == old(
                self,
            ).contexts@.update(
                context_id as int,
                Some(Context { render_target: None, ..old(self).contexts.at(context_id) }),
            )),
    {
        let ctx = match self.contexts.take(context_id) {
            Some(c) => c,
            None => {
                return Err(VaStatus::InvalidContext);
            },
        };
        let ctx2 = Context { render_target: None, ..ctx };
        self.contexts.put(context_id, ctx2);
        Ok(())
    }

    /// A surface synchronization point. All work already happened
    /// synchronously, so this only validates the handle.
    pub fn sync_surface(&self, surface_id: u32) -> (r: Result<(), VaStatus>)
        ensures
            r is Ok <==> self.surfaces.valid(surface_id),
            r is Err ==> r == Err::<(), VaStatus>(VaStatus::InvalidSurface),
    {
        match self.surfaces.get(surface_id) {
            Some(_) => Ok(()),
            None => Err(VaStatus::InvalidSurface),
        }
    }

    /// A buffer synchronization point; the timeout is accepted and ignored
    /// because every operation already completed synchronously.
    pub fn sync_buffer(&self, buffer_id: u32, timeout_ns: u64) -> (r: Result<(), VaStatus>)
        ensures
            r is Ok <==> self.buffers.valid(buffer_id),
            r is Err ==> r == Err::<(), VaStatus>(VaStatus::InvalidBuffer),
    {
        let _ = timeout_ns;
        match self.buffers.get(buffer_id) {
            Some(_) => Ok(()),
            None => Err(VaStatus::InvalidBuffer),
        }
    }

    /// Reports the surface attributes of a live config; this driver reports
    /// none beyond the implied defaults.
    pub fn query_surface_attributes(&self, config_id: u32) -> (r: Result<
        Vec<SurfaceAttrib>,
        VaStatus,
    >)
        ensures
            r is Ok <==> self.configs.valid(config_id),
            r matches Ok(v) ==> v@ == Seq::<SurfaceAttrib>::empty(),
            r is Err ==> r == Err::<Vec<SurfaceAttrib>, VaStatus>(VaStatus::InvalidConfig),
    {
        match self.configs.get(config_id) {
            Some(_) => Ok(Vec::new()),
            None => Err(VaStatus::InvalidConfig),
        }
    }
}

/// Every surface-creation attribute names one of the two known types.
pub open spec fn surface_attribs_known(attribs: Seq<SurfaceAttrib>) -> bool {
    forall|i: int|
        0 <= i < attribs.len() ==> ((#[trigger] attribs[i]).attrib_type
            == VA_SURFACE_ATTRIB_PIXEL_FORMAT || attribs[i].attrib_type
            == VA_SURFACE_ATTRIB_MEMORY_TYPE)
}

/// Every memory-type attribute asserts driver-allocated memory, the one
/// kind this driver backs surfaces with.
pub open spec fn surface_attribs_mem_ok(attribs: Seq<SurfaceAttrib>) -> bool {
    forall|i: int|
        0 <= i < attribs.len() && (#[trigger] attribs[i]).attrib_type
            == VA_SURFACE_ATTRIB_MEMORY_TYPE ==> attribs[i].value
            == VA_SURFACE_ATTRIB_MEM_TYPE_VA as i32
}

/// The fourcc override the attribute list selects: the value of its last
/// pixel-format attribute, if any.
pub open spec fn chosen_fourcc(attribs: Seq<SurfaceAttrib>) -> Option<u32>
    decreases attribs.len(),
{
    if attribs.len() == 0 {
        None
    } else if attribs.last().attrib_type == VA_SURFACE_ATTRIB_PIXEL_FORMAT {
        Some(attribs.last().value as u32)
    } else {
        chosen_fourcc(attribs.drop_last())
    }
}

/// The unaligned backing size of a surface of the given class and
/// dimensions, before rounding up to the page size.
pub open spec fn layout_size_spec(rt_format: u32, width: u32, height: u32) -> int {
    if rt_format == VA_RT_FORMAT_RGB32 {
        align_up_spec(4 * width, crate::format::BGRX_STRIDE_ALIGN as int) * height
    } else {
        align_up_spec(width as int, crate::format::NV12_STRIDE_ALIGN as int) * (height + (height
            + 1) / 2)
    }
}

/// What surface creation records for one new surface: the requested
/// dimensions, the backing buffer allocated alongside it, and the computed
/// per-format layout.
pub open spec fn new_surface_ok(rt_format: u32, fourcc: u32, width: u32, height: u32,
    buffer_id: int, slot: Option<Surface>) -> bool {
    slot matches Some(s) && ({
        &&& s.width == width
        &&& s.height == height
        &&& s.buffer_id as int == buffer_id
        &&& layout_ok(
            rt_format,
            fourcc,
            width,
            height,
            SurfaceLayout {
                format: s.format,
                planes: s.planes,
                size: layout_size_spec(rt_format, width, height) as usize,
            },
        )
    })
}

/// What surface creation stores as one new backing buffer: the caller's
/// descriptor pair, the layout size rounded up to the page size, and a
/// zero-filled region of that size.
pub open spec fn new_surface_buffer_ok(rt_format: u32, width: u32, height: u32, page_size: usize,
    dma: DmaHandles, slot: Option<Buffer>) -> bool {
    slot matches Some(Buffer::Surface(sm)) && ({
        &&& sm.dma == dma
        &&& sm.size as int == align_up_spec(
            layout_size_spec(rt_format, width, height),
            page_size as int,
        )
        &&& sm.mem@ == Seq::new(sm.size as nat, |i: int| 0u8)
    })
}

/// The surface-creation capacity condition: both the surface table and the
/// buffer table can take one new entry per requested surface.
pub open spec fn surfaces_capacity(d: &Driver, n: int) -> bool {
    &&& d.surfaces@.len() + n <= u32::MAX
    &&& d.buffers@.len() + n <= u32::MAX
}

impl Driver {
    /// Creates one surface per allocator descriptor pair, each backed by a
    /// freshly registered zero-filled buffer sized per the format's
    /// stride/plane rules and rounded up to the page size, and returns the
    /// new surface handles in order.
    ///
    /// The attribute list may override the fourcc (its last pixel-format
    /// attribute wins; one is required) and may assert the backing memory
    /// kind, which must be driver-allocated memory. An attribute of any
    /// other type is unimplemented.
    pub fn create_surfaces(&mut self, rt_format: u32, width: u32, height: u32,
        attribs: &Vec<SurfaceAttrib>, dma: Vec<DmaHandles>) -> (r: Result<Vec<u32>, VaStatus>)
        requires
            old(self).wf(),
        ensures
            final(self).wf(),
            final(self).page_size == old(self).page_size,
            same_configs(old(self), final(self)),
            same_contexts(old(self), final(self)),
            same_images(old(self), final(self)),
            r is Err ==> same_surfaces(old(self), final(self)) && same_buffers(
                old(self),
                final(self),
            ),
            !surface_attribs_known(attribs@) ==> r == Err::<Vec<u32>, VaStatus>(
                VaStatus::Unimplemented,
            ),
            surface_attribs_known(attribs@) && !surface_attribs_mem_ok(attribs@) ==> r == Err::<
                Vec<u32>,
                VaStatus,
            >(VaStatus::InvalidParameter),
            surface_attribs_known(attribs@) && surface_attribs_mem_ok(attribs@) && chosen_fourcc(
                attribs@,
            ) is None ==> r == Err::<Vec<u32>, VaStatus>(VaStatus::InvalidParameter),
            surface_attribs_known(attribs@) && surface_attribs_mem_ok(attribs@) && (chosen_fourcc(
                attribs@,
            ) matches Some(fc) && !supported_surface_combo(rt_format, fc)) ==> r == Err::<
                Vec<u32>,
                VaStatus,
            >(VaStatus::Unimplemented),
            surface_attribs_known(attribs@) && surface_attribs_mem_ok(attribs@) && (chosen_fourcc(
                attribs@,
            ) matches Some(fc) && supported_surface_combo(rt_format, fc)) && !dims_ok(
                width,
                height,
            ) ==> r == Err::<Vec<u32>, VaStatus>(VaStatus::InvalidParameter),
            surface_attribs_known(attribs@) && surface_attribs_mem_ok(attribs@) && (chosen_fourcc(
                attribs@,
            ) matches Some(fc) && supported_surface_combo(rt_format, fc)) && dims_ok(width, height)
                && !surfaces_capacity(old(self), dma@.len() as int) ==> r == Err::<
                Vec<u32>,
                VaStatus,
            >(VaStatus::AllocationFailed),
            surface_attribs_known(attribs@) && surface_attribs_mem_ok(attribs@) && (chosen_fourcc(
                attribs@,
            ) matches Some(fc) && supported_surface_combo(rt_format, fc)) && dims_ok(width, height)
                && surfaces_capacity(old(self), dma@.len() as int) ==> (r matches Ok(ids) && ({
                let n = dma@.len() as int;
                let s0 = old(self).surfaces@.len() as int;
                let b0 = old(self).buffers@.len() as int;
                &&& ids@.len() == n
                &&& final(self).surfaces@.len() == s0 + n
                &&& final(self).buffers@.len() == b0 + n
                &&& forall|j: int|
                    0 <= j < s0 ==> final(self).surfaces@[j] == old(self).surfaces@[j]
                &&& forall|j: int| 0 <= j < b0 ==> final(self).buffers@[j] == old(self).buffers@[j]
                &&& forall|k: int| 0 <= k < n ==> (#[trigger] ids@[k]) as int == s0 + k
                &&& forall|k: int|
                    0 <= k < n ==> new_surface_ok(
                        rt_format,
                        chosen_fourcc(attribs@)->Some_0,
                        width,
                        height,
                        b0 + k,
                        #[trigger] final(self).surfaces@[s0 + k],
                    )
                &&& forall|k: int|
                    0 <= k < n ==> new_surface_buffer_ok(
                        rt_format,
                        width,
                        height,
                        old(self).page_size,
                        dma@[k],
                        #[trigger] final(self).buffers@[b0 + k],
                    )
            })),
    {
        let attr_count = attribs.len();
        let mut i: usize = 0;
        while i < attr_count
            invariant
                *self == *old(self),
                self.wf(),
                attr_count == attribs@.len(),
                0 <= i <= attr_count,
                forall|j: int|
                    0 <= j < i ==> ((#[trigger] attribs@[j]).attrib_type
                        == VA_SURFACE_ATTRIB_PIXEL_FORMAT || attribs@[j].attrib_type
                        == VA_SURFACE_ATTRIB_MEMORY_TYPE),
            decreases attr_count - i,
        {
            let t = attribs[i].attrib_type;
            if t != VA_SURFACE_ATTRIB_PIXEL_FORMAT && t != VA_SURFACE_ATTRIB_MEMORY_TYPE {
                return Err(VaStatus::Unimplemented);
            }
            i = i + 1;
        }
        let mut fourcc_opt: Option<u32> = None;
        let mut i2: usize = 0;
        while i2 < attr_count
            invariant
                *self == *old(self),
                self.wf(),
                attr_count == attribs@.len(),
                0 <= i2 <= attr_count,
                surface_attribs_known(attribs@),
                fourcc_opt == chosen_fourcc(attribs@.take(i2 as int)),
                forall|j: int|
                    0 <= j < i2 && (#[trigger] attribs@[j]).attrib_type
                        == VA_SURFACE_ATTRIB_MEMORY_TYPE ==> attribs@[j].value
                        == VA_SURFACE_ATTRIB_MEM_TYPE_VA as i32,
            decreases attr_count - i2,
        {
            let a = attribs[i2];
            proof {
                assert(attribs@.take(i2 as int + 1).drop_last() =~= attribs@.take(i2 as int));
                assert(attribs@.take(i2 as int + 1).last() == attribs@[i2 as int]);
            }
            if a.attrib_type == VA_SURFACE_ATTRIB_PIXEL_FORMAT {
                fourcc_opt = Some(a.value as u32);
            } else {
                if a.value != 1i32 {
                    return Err(VaStatus::InvalidParameter);
                }
            }
            i2 = i2 + 1;
        }
        proof {
            assert(attribs@.take(attr_count as int) =~= attribs@);
        }
        let fourcc = match fourcc_opt {
            Some(f) => f,
            None => {
                return Err(VaStatus::InvalidParameter);
            },
        };
        let layout0 = match surface_layout(rt_format, fourcc, width, height) {
            Ok(l) => l,
            Err(e) => {
                return Err(e);
            },
        };
        let n = dma.len();
        if n > u32::MAX as usize - self.surfaces.len() || n > u32::MAX as usize
            - self.buffers.len() {
            return Err(VaStatus::AllocationFailed);
        }
        let aligned = align_up(layout0.size, self.page_size);
        let ghost s0 = self.surfaces@.len() as int;
        let ghost b0 = self.buffers@.len() as int;
        let mut ids: Vec<u32> = Vec::new();
        let mut k: usize = 0;
        while k < n
            invariant
                old(self).wf(),
                self.page_size == old(self).page_size,
                same_configs(old(self), self),
                same_contexts(old(self), self),
                same_images(old(self), self),
                n == dma@.len(),
                s0 == old(self).surfaces@.len() as int,
                b0 == old(self).buffers@.len() as int,
                s0 + n <= u32::MAX,
                b0 + n <= u32::MAX,
                supported_surface_combo(rt_format, fourcc),
                dims_ok(width, height),
                aligned as int == align_up_spec(
                    layout_size_spec(rt_format, width, height),
                    self.page_size as int,
                ),
                aligned <= crate::types::MAX_REGION_SIZE,
                0 <= k <= n,
                ids@.len() == k,
                self.surfaces@.len() == s0 + k,
                self.buffers@.len() == b0 + k,
                self.wf(),
                forall|j: int| 0 <= j < s0 ==> self.surfaces@[j] == old(self).surfaces@[j],
                forall|j: int| 0 <= j < b0 ==> self.buffers@[j] == old(self).buffers@[j],
                forall|m: int| 0 <= m < k ==> (#[trigger] ids@[m]) as int == s0 + m,
                forall|m: int|
                    0 <= m < k ==> new_surface_ok(
                        rt_format,
                        fourcc,
                        width,
                        height,
                        b0 + m,
                        #[trigger] self.surfaces@[s0 + m],
                    ),
                forall|m: int|
                    0 <= m < k ==> new_surface_buffer_ok(
                        rt_format,
                        width,
                        height,
                        old(self).page_size,
                        dma@[m],
                        #[trigger] self.buffers@[b0 + m],
                    ),
            decreases n - k,
        {
            let layout = match surface_layout(rt_format, fourcc, width, height) {
                Ok(l) => l,
                Err(e) => {
                    return Err(e);
                },
            };
            let mem = vec![0u8; aligned];
            proof {
                assert(mem@ =~= Seq::new(aligned as nat, |i: int| 0u8));
            }
            let sm = SurfaceMemory { dma: dma[k], size: aligned, mem };
            let buffer_id = self.buffers.allocate(Buffer::Surface(sm));
            let s = Surface {
                width,
                height,
                format: layout.format,
                buffer_id,
                planes: layout.planes,
            };
            proof {
                lemma_new_surface_wf(rt_format, fourcc, width, height, &s);
            }
            let sid = self.surfaces.allocate(s);
            ids.push(sid);
            k = k + 1;
        }
        Ok(ids)
    }

    /// Destroys every listed surface, or none: if any handle is invalid the
    /// whole call fails and no surface is destroyed. The surfaces' backing
    /// buffers stay until destroyed themselves.
    pub fn destroy_surfaces(&mut self, ids: &Vec<u32>) -> (r: Result<(), VaStatus>)
        requires
            old(self).wf(),
        ensures
            final(self).wf(),
            final(self).page_size == old(self).page_size,
            same_configs(old(self), final(self)),
            same_contexts(old(self), final(self)),
            same_images(old(self), final(self)),
            same_buffers(old(self), final(self)),
            r is Ok <==> (forall|k: int|
                0 <= k < ids@.len() ==> old(self).surfaces.valid(#[trigger] ids@[k])),
            r is Err ==> r == Err::<(), VaStatus>(VaStatus::InvalidSurface) && same_surfaces(
                old(self),
                final(self),
            ),
            r is Ok ==> final(self).surfaces@.len() == old(self).surfaces@.len() && (forall|j: int|
                0 <= j < old(self).surfaces@.len() ==> #[trigger] final(self).surfaces@[j] == (
                if (exists|k: int| 0 <= k < ids@.len() && (#[trigger] ids@[k]) as int == j) {
                    None::<Surface>
                } else {
                    old(self).surfaces@[j]
                })),
    {
        let n = ids.len();
        let mut i: usize = 0;
        while i < n
            invariant
                *self == *old(self),
                self.wf(),
                n == ids@.len(),
                0 <= i <= n,
                forall|k: int| 0 <= k < i ==> self.surfaces.valid(#[trigger] ids@[k]),
            decreases n - i,
        {
            if self.surfaces.get(ids[i]).is_none() {
                return Err(VaStatus::InvalidSurface);
            }
            i = i + 1;
        }
        let mut i2: usize = 0;
        while i2 < n
            invariant
                old(self).wf(),
                n == ids@.len(),
                0 <= i2 <= n,
                self.page_size == old(self).page_size,
                same_configs(old(self), self),
                same_contexts(old(self), self),
                same_images(old(self), self),
                same_buffers(old(self), self),
                self.wf(),
                self.surfaces@.len() == old(self).surfaces@.len(),
                forall|j: int|
                    0 <= j < old(self).surfaces@.len() ==> #[trigger] self.surfaces@[j] == (
                    if (exists|k: int| 0 <= k < i2 && (#[trigger] ids@[k]) as int == j) {
                        None::<Surface>
                    } else {
                        old(self).surfaces@[j]
                    }),
            decreases n - i2,
        {
            let ghost prev = self.surfaces@;
            let _ = self.surfaces.free(ids[i2]);
            proof {
                assert forall|j: int| 0 <= j < old(self).surfaces@.len() implies #[trigger] self
                    .surfaces@[j] == (if (exists|k: int|
                    0 <= k < i2 + 1 && (#[trigger] ids@[k]) as int == j) {
                    None::<Surface>
                } else {
                    old(self).surfaces@[j]
                }) by {
                    if j == ids@[i2 as int] as int {
                        assert(0 <= i2 < i2 + 1 && ids@[i2 as int] as int == j);
                    } else {
                        assert(self.surfaces@[j] == prev[j]);
                        assert((exists|k: int| 0 <= k < i2 + 1 && (#[trigger] ids@[k]) as int == j)
                            == (exists|k: int| 0 <= k < i2 && (#[trigger] ids@[k]) as int == j));
                    }
                }
            }
            i2 = i2 + 1;
        }
        Ok(())
    }
}

/// The pitch of plane `i`, or zero beyond the plane table (the fixed-size
/// descriptor tables pad with zeroes).
pub open spec fn pitch_at(planes: Seq<PlaneInfo>, i: int) -> u32 {
    if 0 <= i < planes.len() {
        planes[i].pitch as u32
    } else {
        0
    }
}

/// The offset of plane `i`, or zero beyond the plane table.
pub open spec fn offset_at(planes: Seq<PlaneInfo>, i: int) -> u32 {
    if 0 <= i < planes.len() {
        planes[i].offset as u32
    } else {
        0
    }
}

/// The surface memory behind a surface's backing buffer handle, if that
/// handle resolves to a live surface-kind buffer.
pub open spec fn surface_backing(d: &Driver, s: Surface) -> Option<SurfaceMemory> {
    if d.buffers.valid(s.buffer_id) {
        match d.buffers.at(s.buffer_id) {
            Buffer::Surface(sm) => Some(sm),
            _ => None,
        }
    } else {
        None
    }
}

/// Reads the pitch of plane `i` for a descriptor table, zero-padded.
fn pitch_entry(planes: &Vec<PlaneInfo>, i: usize) -> (r: u32)
    requires
        forall|j: int| 0 <= j < planes@.len() ==> (#[trigger] planes@[j]).pitch <= u32::MAX,
    ensures
        r == pitch_at(planes@, i as int),
{
    if i < planes.len() {
        planes[i].pitch as u32
    } else {
        0
    }
}

/// Reads the offset of plane `i` for a descriptor table, zero-padded.
fn offset_entry(planes: &Vec<PlaneInfo>, i: usize) -> (r: u32)
    requires
        forall|j: int| 0 <= j < planes@.len() ==> (#[trigger] planes@[j]).offset <= u32::MAX,
    ensures
        r == offset_at(planes@, i as int),
{
    if i < planes.len() {
        planes[i].offset as u32
    } else {
        0
    }
}

impl Driver {
    /// Derives an image description from a surface: copies its per-plane
    /// pitch/offset table into the fixed three-plane output tables, reports
    /// the backing size and plane count, and allocates a new image handle
    /// correlated to this call.
    pub fn derive_image(&mut self, surface_id: u32) -> (r: Result<VaImage, VaStatus>)
        requires
            old(self).wf(),
        ensures
            final(self).wf(),
            final(self).page_size == old(self).page_size,
            same_surfaces(old(self), final(self)),
            same_configs(old(self), final(self)),
            same_contexts(old(self), final(self)),
            same_buffers(old(self), final(self)),
            r is Err ==> same_images(old(self), final(self)),
            !old(self).surfaces.valid(surface_id) ==> r == Err::<VaImage, VaStatus>(
                VaStatus::InvalidSurface,
            ),
            old(self).surfaces.valid(surface_id) && surface_backing(
                old(self),
                old(self).surfaces.at(surface_id),
            ) is None ==> r == Err::<VaImage, VaStatus>(VaStatus::InvalidSurface),
            old(self).surfaces.valid(surface_id) && surface_backing(
                old(self),
                old(self).surfaces.at(surface_id),
            ) is Some && old(self).images@.len() == u32::MAX ==> r == Err::<VaImage, VaStatus>(
                VaStatus::AllocationFailed,
            ),
            old(self).surfaces.valid(surface_id) && surface_backing(
                old(self),
                old(self).surfaces.at(surface_id),
            ) is Some && old(self).images@.len() < u32::MAX ==> (r matches Ok(img) && ({
                let s = old(self).surfaces.at(surface_id);
                let sm = surface_backing(old(self), s)->Some_0;
                &&& final(self).images@ == old(self).images@.push(Some(Image {}))
                &&& img.image_id as int == old(self).images@.len()
                &&& img.format == s.format
                &&& img.buf == s.buffer_id
                &&& img.width == s.width as u16
                &&& img.height == s.height as u16
                &&& img.data_size == sm.size as u32
                &&& img.num_planes == s.planes@.len()
                &&& forall|i: int|
                    0 <= i < 3 ==> #[trigger] img.pitches@[i] == pitch_at(s.planes@, i)
                        && img.offsets@[i] == offset_at(s.planes@, i)
            })),
    {
        let (size, format, buf, width, height, num_planes, p0, p1, p2, o0, o1, o2) = {
            let s = match self.surfaces.get(surface_id) {
                Some(s) => s,
                None => {
                    return Err(VaStatus::InvalidSurface);
                },
            };
            let sm_size = match self.buffers.get(s.buffer_id) {
                Some(Buffer::Surface(sm)) => sm.size,
                _ => {
                    return Err(VaStatus::InvalidSurface);
                },
            };
            (
                sm_size,
                s.format,
                s.buffer_id,
                s.width as u16,
                s.height as u16,
                s.planes.len() as u32,
                pitch_entry(&s.planes, 0),
                pitch_entry(&s.planes, 1),
                pitch_entry(&s.planes, 2),
                offset_entry(&s.planes, 0),
                offset_entry(&s.planes, 1),
                offset_entry(&s.planes, 2),
            )
        };
        if self.images.len() >= u32::MAX as usize {
            return Err(VaStatus::AllocationFailed);
        }
        let image_id = self.images.allocate(Image {});
        Ok(
            VaImage {
                image_id,
                format,
                buf,
                width,
                height,
                data_size: size as u32,
                num_planes,
                pitches: [p0, p1, p2],
                offsets: [o0, o1, o2],
            },
        )
    }

    /// Exports a surface's backing memory for zero-copy handoff: a
    /// descriptor with exactly one memory object (the dmabuf descriptor and
    /// region size) and one layer (the fourcc, plane count and the same
    /// pitch/offset tables image derivation reports). Only the per-layer
    /// dmabuf memory kind is supported; the flags are accepted and ignored.
    pub fn export_surface_handle(&self, surface_id: u32, mem_type: u32, flags: u32) -> (r: Result<
        DrmPrimeSurfaceDescriptor,
        VaStatus,
    >)
        requires
            self.wf(),
        ensures
            mem_type != VA_SURFACE_ATTRIB_MEM_TYPE_DRM_PRIME_2 ==> r == Err::<
                DrmPrimeSurfaceDescriptor,
                VaStatus,
            >(VaStatus::Unimplemented),
            mem_type == VA_SURFACE_ATTRIB_MEM_TYPE_DRM_PRIME_2 && !self.surfaces.valid(surface_id)
                ==> r == Err::<DrmPrimeSurfaceDescriptor, VaStatus>(VaStatus::InvalidSurface),
            mem_type == VA_SURFACE_ATTRIB_MEM_TYPE_DRM_PRIME_2 && self.surfaces.valid(surface_id)
                && surface_backing(self, self.surfaces.at(surface_id)) is None ==> r == Err::<
                DrmPrimeSurfaceDescriptor,
                VaStatus,
            >(VaStatus::InvalidSurface),
            mem_type == VA_SURFACE_ATTRIB_MEM_TYPE_DRM_PRIME_2 && self.surfaces.valid(surface_id)
                && surface_backing(self, self.surfaces.at(surface_id)) is Some ==> (r matches Ok(
                desc,
            ) && ({
                let s = self.surfaces.at(surface_id);
                let sm = surface_backing(self, s)->Some_0;
                &&& desc.fourcc == s.format.fourcc
                &&& desc.width == s.width
                &&& desc.height == s.height
                &&& desc.num_objects == 1
                &&& desc.objects@[0].fd == sm.dma.dmabuf_fd
                &&& desc.objects@[0].size == sm.size as u32
                &&& desc.objects@[0].drm_format_modifier == 0
                &&& desc.num_layers == 1
                &&& desc.layers@[0].drm_format == s.format.fourcc
                &&& desc.layers@[0].num_planes == s.planes@.len()
                &&& forall|i: int| 0 <= i < 4 ==> #[trigger] desc.layers@[0].object_index@[i] == 0
                &&& forall|i: int|
                    0 <= i < 4 ==> #[trigger] desc.layers@[0].pitch@[i] == pitch_at(s.planes@, i)
                        && desc.layers@[0].offset@[i] == offset_at(s.planes@, i)
            })),
    {
        let _ = flags;
        if mem_type != VA_SURFACE_ATTRIB_MEM_TYPE_DRM_PRIME_2 {
            return Err(VaStatus::Unimplemented);
        }
        let s = match self.surfaces.get(surface_id) {
            Some(s) => s,
            None => {
                return Err(VaStatus::InvalidSurface);
            },
        };
        let (dma, size) = match self.buffers.get(s.buffer_id) {
            Some(Buffer::Surface(sm)) => (sm.dma, sm.size),
            _ => {
                return Err(VaStatus::InvalidSurface);
            },
        };
        let zero_object = DrmObject { fd: 0, size: 0, drm_format_modifier: 0 };
        let zero_layer = DrmLayer {
            drm_format: 0,
            num_planes: 0,
            object_index: [0, 0, 0, 0],
            offset: [0, 0, 0, 0],
            pitch: [0, 0, 0, 0],
        };
        let layer = DrmLayer {
            drm_format: s.format.fourcc,
            num_planes: s.planes.len() as u32,
            object_index: [0, 0, 0, 0],
            offset: [
                offset_entry(&s.planes, 0),
                offset_entry(&s.planes, 1),
                offset_entry(&s.planes, 2),
                offset_entry(&s.planes, 3),
            ],
            pitch: [
                pitch_entry(&s.planes, 0),
                pitch_entry(&s.planes, 1),
                pitch_entry(&s.planes, 2),
                pitch_entry(&s.planes, 3),
            ],
        };
        Ok(
            DrmPrimeSurfaceDescriptor {
                fourcc: s.format.fourcc,
                width: s.width,
                height: s.height,
                num_objects: 1,
                objects: [
                    DrmObject { fd: dma.dmabuf_fd, size: size as u32, drm_format_modifier: 0 },
                    zero_object,
                    zero_object,
                    zero_object,
                ],
                num_layers: 1,
                layers: [layer, zero_layer, zero_layer, zero_layer],
            },
        )
    }

    /// Acquires the raw backing handle of a surface buffer for zero-copy
    /// access under the single-dmabuf memory kind: reports the dmabuf
    /// descriptor and region size. Any other memory kind or buffer kind is
    /// unimplemented.
    pub fn acquire_buffer_handle(&self, buffer_id: u32, mem_type: u32) -> (r: Result<
        BufferInfo,
        VaStatus,
    >)
        requires
            self.wf(),
        ensures
            mem_type != VA_SURFACE_ATTRIB_MEM_TYPE_DRM_PRIME ==> r == Err::<BufferInfo, VaStatus>(
                VaStatus::Unimplemented,
            ),
            mem_type == VA_SURFACE_ATTRIB_MEM_TYPE_DRM_PRIME && !self.buffers.valid(buffer_id)
                ==> r == Err::<BufferInfo, VaStatus>(VaStatus::InvalidBuffer),
            mem_type == VA_SURFACE_ATTRIB_MEM_TYPE_DRM_PRIME && self.buffers.valid(buffer_id)
                ==> match self.buffers.at(buffer_id) {
                Buffer::Surface(sm) => r matches Ok(info) && info == (BufferInfo {
                    handle: sm.dma.dmabuf_fd,
                    buf_type: 0,
                    mem_type,
                    mem_size: sm.size,
                }),
                _ => r == Err::<BufferInfo, VaStatus>(VaStatus::Unimplemented),
            },
    {
        if mem_type != VA_SURFACE_ATTRIB_MEM_TYPE_DRM_PRIME {
            return Err(VaStatus::Unimplemented);
        }
        let b = match self.buffers.get(buffer_id) {
            Some(b) => b,
            None => {
                return Err(VaStatus::InvalidBuffer);
            },
        };
        match b {
            Buffer::Surface(sm) => Ok(
                BufferInfo { handle: sm.dma.dmabuf_fd, buf_type: 0, mem_type, mem_size: sm.size },
            ),
            _ => Err(VaStatus::Unimplemented),
        }
    }

    /// Releases an acquired buffer handle. The handle's lifetime is tied to
    /// the buffer, so this only validates the handle.
    pub fn release_buffer_handle(&self, buffer_id: u32) -> (r: Result<(), VaStatus>)
        ensures
            r is Ok <==> self.buffers.valid(buffer_id),
            r is Err ==> r == Err::<(), VaStatus>(VaStatus::InvalidBuffer),
    {
        match self.buffers.get(buffer_id) {
            Some(_) => Ok(()),
            None => Err(VaStatus::InvalidBuffer),
        }
    }
}

/// A freshly created surface is well formed: its dimensions were accepted
/// and its computed layout has the plane count, pitch and offset bounds
/// well-formedness asks for.
pub proof fn lemma_new_surface_wf(rt_format: u32, fourcc: u32, width: u32, height: u32,
    s: &Surface)
    requires
        supported_surface_combo(rt_format, fourcc),
        dims_ok(width, height),
        s.width == width,
        s.height == height,
        layout_ok(
            rt_format,
            fourcc,
            width,
            height,
            SurfaceLayout {
                format: s.format,
                planes: s.planes,
                size: layout_size_spec(rt_format, width, height) as usize,
            },
        ),
    ensures
        crate::types::surface_wf(*s),
{
    if rt_format == VA_RT_FORMAT_RGB32 {
        crate::format::lemma_align_up_spec_bounds(
            4 * width as int,
            crate::format::BGRX_STRIDE_ALIGN as int,
        );
    } else {
        crate::format::lemma_align_up_spec_bounds(
            width as int,
            crate::format::NV12_STRIDE_ALIGN as int,
        );
        let pitch = align_up_spec(width as int, crate::format::NV12_STRIDE_ALIGN as int);
        vstd::arithmetic::mul::lemma_mul_upper_bound(pitch, 18432, height as int, 16384);
    }
}

/// The single profile the driver reports.
pub fn query_config_profiles() -> (r: Vec<i32>)
    ensures
        r@ == seq![VA_PROFILE_H264_MAIN],
{
    let mut v: Vec<i32> = Vec::new();
    v.push(VA_PROFILE_H264_MAIN);
    proof {
        assert(v@ =~= seq![VA_PROFILE_H264_MAIN]);
    }
    v
}

/// The entrypoints the driver reports for a profile: picture-level encoding
/// for H.264 Main, nothing for any other profile.
pub fn query_config_entrypoints(profile: i32) -> (r: Vec<u32>)
    ensures
        profile == VA_PROFILE_H264_MAIN ==> r@ == seq![VA_ENTRYPOINT_ENC_PICTURE],
        profile != VA_PROFILE_H264_MAIN ==> r@ == Seq::<u32>::empty(),
{
    let mut v: Vec<u32> = Vec::new();
    if profile == VA_PROFILE_H264_MAIN {
        v.push(VA_ENTRYPOINT_ENC_PICTURE);
        proof {
            assert(v@ =~= seq![VA_ENTRYPOINT_ENC_PICTURE]);
        }
    }
    v
}

/// The single image format the driver reports.
pub fn query_image_formats() -> (r: Vec<ImageFormatDesc>)
    ensures
        r@ == seq![spec_image_fmt_nv12()],
{
    let mut v: Vec<ImageFormatDesc> = Vec::new();
    v.push(image_fmt_nv12());
    proof {
        assert(v@ =~= seq![spec_image_fmt_nv12()]);
    }
    v
}

/// The bytes of `dst` with the range starting at `at` replaced by `src`.
pub open spec fn splice(dst: Seq<u8>, at: int, src: Seq<u8>) -> Seq<u8>
    recommends
        0 <= at,
        at + src.len() <= dst.len(),
{
    dst.subrange(0, at).add(src).add(dst.subrange(at + src.len(), dst.len() as int))
}

impl Driver {
    /// Writes bytes through a surface buffer's mapping at the given offset;
    /// this is how a caller fills a surface with pixel data. Only a surface
    /// buffer is writable in place; a write past the region's end is
    /// rejected before anything is written.
    pub fn buffer_write_bytes(&mut self, buffer_id: u32, offset: usize, src: &Vec<u8>) -> (r:
        Result<(), VaStatus>)
        requires
            old(self).wf(),
        ensures
            final(self).wf(),
            final(self).page_size == old(self).page_size,
            same_surfaces(old(self), final(self)),
            same_configs(old(self), final(self)),
            same_contexts(old(self), final(self)),
            same_images(old(self), final(self)),
            r is Err ==> same_buffers(old(self), final(self)),
            !old(self).buffers.valid(buffer_id) ==> r == Err::<(), VaStatus>(
                VaStatus::InvalidBuffer,
            ),
            old(self).buffers.valid(buffer_id) ==> match old(self).buffers.at(buffer_id) {
                Buffer::Surface(sm) => {
                    if offset + src@.len() <= sm.mem@.len() {
                        ({
                            &&& r is Ok
                            &&& final(self).buffers@.len() == old(self).buffers@.len()
                            &&& forall|j: int|
                                0 <= j < old(self).buffers@.len() && j != buffer_id as int
                                    ==> final(self).buffers@[j] == old(self).buffers@[j]
                            &&& final(self).buffers@[buffer_id as int] matches Some(
                                Buffer::Surface(sm2),
                            ) && sm2.dma == sm.dma && sm2.size == sm.size && sm2.mem@ == splice(
                                sm.mem@,
                                offset as int,
                                src@,
                            )
                        })
                    } else {
                        r == Err::<(), VaStatus>(VaStatus::InvalidParameter)
                    }
                },
                _ => r == Err::<(), VaStatus>(VaStatus::Unimplemented),
            },
    {
        let b = match self.buffers.take(buffer_id) {
            Some(b) => b,
            None => {
                return Err(VaStatus::InvalidBuffer);
            },
        };
        match b {
            Buffer::Surface(mut sm) => {
                if offset > sm.mem.len() || src.len() > sm.mem.len() - offset {
                    self.buffers.put(buffer_id, Buffer::Surface(sm));
                    proof {
                        assert(final(self).buffers@ =~= old(self).buffers@);
                    }
                    return Err(VaStatus::InvalidParameter);
                }
                let n = src.len();
                let memlen = sm.mem.len();
                let ghost mem0 = sm.mem@;
                let ghost dma0 = sm.dma;
                let ghost size0 = sm.size;
                let mut i: usize = 0;
                while i < n
                    invariant
                        old(self).wf(),
                        old(self).buffers.valid(buffer_id),
                        (match old(self).buffers.at(buffer_id) {
                            Buffer::Surface(s0) => s0.dma == dma0 && s0.size == size0 && s0.mem@
                                == mem0,
                            _ => false,
                        }),
                        self.page_size == old(self).page_size,
                        same_surfaces(old(self), self),
                        same_configs(old(self), self),
                        same_contexts(old(self), self),
                        same_images(old(self), self),
                        self.buffers@ == old(self).buffers@.update(buffer_id as int, None::<Buffer>),
                        sm.dma == dma0,
                        sm.size == size0,
                        n == src@.len(),
                        0 <= i <= n,
                        offset + n <= memlen,
                        sm.mem@.len() == memlen,
                        mem0.len() == memlen,
                        forall|j: int| 0 <= j < offset ==> sm.mem@[j] == mem0[j],
                        forall|j: int|
                            offset <= j < offset + i ==> sm.mem@[j] == src@[j - offset],
                        forall|j: int| offset + i <= j < memlen ==> sm.mem@[j] == mem0[j],
                    decreases n - i,
                {
                    let byte = src[i];
                    sm.mem[offset + i] = byte;
                    i = i + 1;
                }
                proof {
                    assert(sm.mem@ =~= splice(mem0, offset as int, src@));
                }
                self.buffers.put(buffer_id, Buffer::Surface(sm));
                Ok(())
            },
            other => {
                self.buffers.put(buffer_id, other);
                proof {
                    assert(final(self).buffers@ =~= old(self).buffers@);
                }
                Err(VaStatus::Unimplemented)
            },
        }
    }

    /// Stores a completed compressed frame into a coded-output segment
    /// buffer: the payload becomes retrievable through mapping that buffer,
    /// and the segment's size field reports its length.
    pub fn submit_coded_output(&mut self, buffer_id: u32, data: Vec<u8>) -> (r: Result<
        (),
        VaStatus,
    >)
        requires
            old(self).wf(),
        ensures
            final(self).wf(),
            final(self).page_size == old(self).page_size,
            same_surfaces(old(self), final(self)),
            same_configs(old(self), final(self)),
            same_contexts(old(self), final(self)),
            same_images(old(self), final(self)),
            r is Err ==> same_buffers(old(self), final(self)),
            !old(self).buffers.valid(buffer_id) ==> r == Err::<(), VaStatus>(
                VaStatus::InvalidBuffer,
            ),
            old(self).buffers.valid(buffer_id) && !(old(self).buffers.at(buffer_id) matches Buffer
                ::CodedSegment(_)) ==> r == Err::<(), VaStatus>(VaStatus::InvalidBuffer),
            old(self).buffers.valid(buffer_id) && (old(self).buffers.at(buffer_id) matches Buffer
                ::CodedSegment(_)) && data@.len() > u32::MAX ==> r == Err::<(), VaStatus>(
                VaStatus::InvalidParameter,
            ),
            old(self).buffers.valid(buffer_id) && (old(self).buffers.at(buffer_id) matches Buffer
                ::CodedSegment(_)) && data@.len() <= u32::MAX ==> ({
                &&& r is Ok
                &&& final(self).buffers@.len() == old(self).buffers@.len()
                &&& forall|j: int|
                    0 <= j < old(self).buffers@.len() && j != buffer_id as int
                        ==> final(self).buffers@[j] == old(self).buffers@[j]
                &&& final(self).buffers@[buffer_id as int] matches Some(Buffer::CodedSegment(cs))
                    && cs.size as int == data@.len() && cs.bit_offset == 0 && cs.status == 0
                    && cs.data@ == data@
            }),
    {
        let b = match self.buffers.take(buffer_id) {
            Some(b) => b,
            None => {
                return Err(VaStatus::InvalidBuffer);
            },
        };
        match b {
            Buffer::CodedSegment(_) => {
                if data.len() > u32::MAX as usize {
                    self.buffers.put(buffer_id, b);
                    proof {
                        assert(final(self).buffers@ =~= old(self).buffers@);
                    }
                    return Err(VaStatus::InvalidParameter);
                }
                let size = data.len() as u32;
                self.buffers.put(
                    buffer_id,
                    Buffer::CodedSegment(CodedSegment { size, bit_offset: 0, status: 0, data }),
                );
                Ok(())
            },
            other => {
                self.buffers.put(buffer_id, other);
                proof {
                    assert(final(self).buffers@ =~= old(self).buffers@);
                }
                Err(VaStatus::InvalidBuffer)
            },
        }
    }

    /// Reports the post-processing pipeline's capabilities: one input and
    /// one output color standard and pixel format, no filters, references,
    /// rotation, blending or mirroring, and the supported dimension range.
    /// A non-empty filter list is unimplemented.
    pub fn vpp_query_video_proc_pipeline_caps(&self, filters: &Vec<u32>) -> (r: Result<
        PipelineCaps,
        VaStatus,
    >)
        ensures
            filters@.len() != 0 ==> r == Err::<PipelineCaps, VaStatus>(VaStatus::Unimplemented),
            filters@.len() == 0 ==> (r matches Ok(caps) && ({
                &&& caps.pipeline_flags == 0
                &&& caps.filter_flags == 0
                &&& caps.num_forward_references == 0
                &&& caps.num_backward_references == 0
                &&& caps.input_color_standards@ == seq![VA_PROC_COLOR_STANDARD_BT709]
                &&& caps.output_color_standards@ == seq![VA_PROC_COLOR_STANDARD_BT709]
                &&& caps.rotation_flags == 0
                &&& caps.blend_flags == 0
                &&& caps.mirror_flags == 0
                &&& caps.num_additional_outputs == 0
                &&& caps.input_pixel_formats@ == seq![VA_FOURCC_BGRX]
                &&& caps.output_pixel_formats@ == seq![VA_FOURCC_NV12]
                &&& caps.max_input_width == crate::format::MAX_DIM
                &&& caps.max_input_height == crate::format::MAX_DIM
                &&& caps.min_input_width == 2
                &&& caps.min_input_height == 2
                &&& caps.max_output_width == crate::format::MAX_DIM
                &&& caps.max_output_height == crate::format::MAX_DIM
                &&& caps.min_output_width == 2
                &&& caps.min_output_height == 2
            })),
    {
        if filters.len() != 0 {
            return Err(VaStatus::Unimplemented);
        }
        let mut in_cs: Vec<u32> = Vec::new();
        in_cs.push(VA_PROC_COLOR_STANDARD_BT709);
        let mut out_cs: Vec<u32> = Vec::new();
        out_cs.push(VA_PROC_COLOR_STANDARD_BT709);
        let mut in_pf: Vec<u32> = Vec::new();
        in_pf.push(VA_FOURCC_BGRX);
        let mut out_pf: Vec<u32> = Vec::new();
        out_pf.push(VA_FOURCC_NV12);
        proof {
            assert(in_cs@ =~= seq![VA_PROC_COLOR_STANDARD_BT709]);
            assert(out_cs@ =~= seq![VA_PROC_COLOR_STANDARD_BT709]);
            assert(in_pf@ =~= seq![VA_FOURCC_BGRX]);
            assert(out_pf@ =~= seq![VA_FOURCC_NV12]);
        }
        Ok(
            PipelineCaps {
                pipeline_flags: 0,
                filter_flags: 0,
                num_forward_references: 0,
                num_backward_references: 0,
                input_color_standards: in_cs,
                output_color_standards: out_cs,
                rotation_flags: 0,
                blend_flags: 0,
                mirror_flags: 0,
                num_additional_outputs: 0,
                input_pixel_formats: in_pf,
                output_pixel_formats: out_pf,
                max_input_width: crate::format::MAX_DIM,
                max_input_height: crate::format::MAX_DIM,
                min_input_width: 2,
                min_input_height: 2,
                max_output_width: crate::format::MAX_DIM,
                max_output_height: crate::format::MAX_DIM,
                min_output_width: 2,
                min_output_height: 2,
            },
        )
    }
}

} // verus!
