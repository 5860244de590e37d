//! Driver-wide laws: properties that relate several operations, stated over
//! the same spec functions and relations the operations' contracts use and
//! proved from them.

use vstd::prelude::*;

use crate::driver::{
    config_attrib_value, layout_size_spec, new_surface_buffer_ok, new_surface_ok, pitch_at,
    offset_at, same_driver, surface_backing,
};
use crate::format::{
    dims_ok, lemma_align_up_spec_bounds, lemma_layout_bounds, layout_ok, plane_bytes_per_pixel,
    pitch_alignment, sum_plane_extents, supported_surface_combo, SurfaceLayout,
};
use crate::render::{proc_step_post, seq_step_post, step_post, EncodeAction};
use crate::buffer::DmaHandles;
use crate::status::VaStatus;
use crate::types::{
    ConfigAttrib, ContextData, Driver, Surface, VaImage, DEFAULT_ENC_MAX_REF_FRAMES,
    VA_ATTRIB_NOT_SUPPORTED, VA_CONFIG_ATTRIB_ENC_MAX_REF_FRAMES, VA_CONFIG_ATTRIB_RATE_CONTROL,
    VA_CONFIG_ATTRIB_RT_FORMAT, VA_ENTRYPOINT_ENC_PICTURE, VA_PROFILE_H264_MAIN, VA_RC_CBR,
};
use crate::format::VA_RT_FORMAT_YUV420;
use crate::params::ProcPipelineParameter;

verus! {

/// Law: for every valid profile/entrypoint pair other than the one supported
/// combination, config creation succeeds and a following attribute query
/// reports "not supported" for every unrecognized attribute type and the
/// fixed render-target-format, rate-control and reference-frame defaults for
/// the recognized ones. `answered` is related to `queried` exactly as the
/// attribute query's contract states.
pub proof fn lemma_attribute_query_defaults(profile: i32, entrypoint: u32,
    queried: Seq<ConfigAttrib>, answered: Seq<ConfigAttrib>)
    requires
        !(profile == VA_PROFILE_H264_MAIN && entrypoint == VA_ENTRYPOINT_ENC_PICTURE),
        answered.len() == queried.len(),
        forall|i: int|
            0 <= i < queried.len() ==> (#[trigger] answered[i]).attrib_type
                == queried[i].attrib_type && answered[i].value == config_attrib_value(
                queried[i].attrib_type,
            ),
    ensures
        forall|i: int|
            0 <= i < queried.len() && (#[trigger] queried[i]).attrib_type
                != VA_CONFIG_ATTRIB_RT_FORMAT && queried[i].attrib_type
                != VA_CONFIG_ATTRIB_RATE_CONTROL && queried[i].attrib_type
                != VA_CONFIG_ATTRIB_ENC_MAX_REF_FRAMES ==> answered[i].value
                == VA_ATTRIB_NOT_SUPPORTED,
        forall|i: int|
            0 <= i < queried.len() && (#[trigger] queried[i]).attrib_type
                == VA_CONFIG_ATTRIB_RT_FORMAT ==> answered[i].value == VA_RT_FORMAT_YUV420,
        forall|i: int|
            0 <= i < queried.len() && (#[trigger] queried[i]).attrib_type
                == VA_CONFIG_ATTRIB_RATE_CONTROL ==> answered[i].value == VA_RC_CBR,
        forall|i: int|
            0 <= i < queried.len() && (#[trigger] queried[i]).attrib_type
                == VA_CONFIG_ATTRIB_ENC_MAX_REF_FRAMES ==> answered[i].value
                == DEFAULT_ENC_MAX_REF_FRAMES,
{
}

/// Law: creating surfaces yields pairwise distinct handles, and each new
/// surface's layout has every pitch at least the row byte width and aligned
/// to the format's alignment, with a backing region at least as large as the
/// sum of all plane extents. The hypotheses are surface creation's contract
/// for a successful call.
pub proof fn lemma_created_surfaces_distinct_and_bounded(pre: Driver, post: Driver,
    rt_format: u32, fourcc: u32, width: u32, height: u32, dma: Seq<DmaHandles>, ids: Seq<u32>)
    requires
        pre.wf(),
        supported_surface_combo(rt_format, fourcc),
        dims_ok(width, height),
        ids.len() == dma.len(),
        forall|k: int| 0 <= k < ids.len() ==> (#[trigger] ids[k]) as int == pre.surfaces@.len() + k,
        post.surfaces@.len() == pre.surfaces@.len() + dma.len(),
        post.buffers@.len() == pre.buffers@.len() + dma.len(),
        forall|k: int|
            0 <= k < dma.len() ==> new_surface_ok(
                rt_format,
                fourcc,
                width,
                height,
                pre.buffers@.len() + k,
                #[trigger] post.surfaces@[pre.surfaces@.len() + k],
            ),
        forall|k: int|
            0 <= k < dma.len() ==> new_surface_buffer_ok(
                rt_format,
                width,
                height,
                pre.page_size,
                dma[k],
                #[trigger] post.buffers@[pre.buffers@.len() + k],
            ),
    ensures
        forall|k1: int, k2: int|
            0 <= k1 < ids.len() && 0 <= k2 < ids.len() && k1 != k2 ==> #[trigger] ids[k1]
                != #[trigger] ids[k2],
        forall|k: int|
            0 <= k < dma.len() ==> {
                let s = (#[trigger] post.surfaces@[pre.surfaces@.len() + k])->Some_0;
                let sm = post.buffers@[pre.buffers@.len() + k]->Some_0->Surface_0;
                &&& forall|p: int|
                    0 <= p < s.planes@.len() ==> (#[trigger] s.planes@[p]).pitch >= width
                        * plane_bytes_per_pixel(fourcc)
                &&& forall|p: int|
                    0 <= p < s.planes@.len() ==> (#[trigger] s.planes@[p]).pitch as int
                        % pitch_alignment(fourcc) == 0
                &&& sm.size >= sum_plane_extents(fourcc, height, s.planes@)
            },
{
    assert forall|k: int| 0 <= k < dma.len() implies {
        let s = (#[trigger] post.surfaces@[pre.surfaces@.len() + k])->Some_0;
        let sm = post.buffers@[pre.buffers@.len() + k]->Some_0->Surface_0;
        &&& forall|p: int|
            0 <= p < s.planes@.len() ==> (#[trigger] s.planes@[p]).pitch >= width
                * plane_bytes_per_pixel(fourcc)
        &&& forall|p: int|
            0 <= p < s.planes@.len() ==> (#[trigger] s.planes@[p]).pitch as int % pitch_alignment(
                fourcc,
            ) == 0
        &&& sm.size >= sum_plane_extents(fourcc, height, s.planes@)
    } by {
        let s = post.surfaces@[pre.surfaces@.len() + k]->Some_0;
        let sm = post.buffers@[pre.buffers@.len() + k]->Some_0->Surface_0;
        let l = SurfaceLayout {
            format: s.format,
            planes: s.planes,
            size: layout_size_spec(rt_format, width, height) as usize,
        };
        assert(layout_ok(rt_format, fourcc, width, height, l));
        lemma_layout_bounds(rt_format, fourcc, width, height, l);
        lemma_align_up_spec_bounds(
            layout_size_spec(rt_format, width, height),
            pre.page_size as int,
        );
    }
}

/// Law: destroying a surface makes its handle invalid, so every later
/// surface operation rejects it with the invalid-surface status, per each
/// operation's contract; destroying the same handle again fails the
/// destroy's own validity condition. The hypotheses are the destroy
/// operation's contract for a successful call on a list containing the
/// handle.
pub proof fn lemma_destroyed_surface_rejected(pre: Driver, post: Driver, destroyed: Seq<u32>,
    h: u32, k: int)
    requires
        post.surfaces@.len() == pre.surfaces@.len(),
        0 <= k < destroyed.len(),
        destroyed[k] == h,
        pre.surfaces.valid(h),
        forall|j: int|
            0 <= j < pre.surfaces@.len() ==> #[trigger] post.surfaces@[j] == (if (exists|m: int|
                0 <= m < destroyed.len() && (#[trigger] destroyed[m]) as int == j) {
                None::<Surface>
            } else {
                pre.surfaces@[j]
            }),
    ensures
        !post.surfaces.valid(h),
{
    assert(exists|m: int| 0 <= m < destroyed.len() && (#[trigger] destroyed[m]) as int == h as int);
}

/// Law: the dispatcher rejects a post-processing block whose input surface
/// handle is stale with the invalid-surface status, leaving the driver
/// unchanged.
pub proof fn lemma_stale_proc_input_rejected(pre: Driver, post: Driver,
    pic: ProcPipelineParameter, tgt: Surface, r: Result<Option<EncodeAction>, VaStatus>)
    requires
        proc_step_post(pre, post, pic, tgt, r),
        !pic.has_output_region,
        pic.num_filters == 0,
        !pic.has_blend_state,
        !pic.has_additional_outputs,
        pic.surface_region is Some,
        !pre.surfaces.valid(pic.surface),
    ensures
        r == Err::<Option<EncodeAction>, VaStatus>(VaStatus::InvalidSurface),
        same_driver(&pre, &post),
{
}

/// Law: an image derived from a surface and a zero-copy export of that
/// surface's backing memory report the same plane count, the same pitch and
/// offset tables, and the same total backing size. The hypotheses are the
/// two operations' contracts for successful calls on the same driver state
/// and surface.
pub proof fn lemma_derive_export_agree(d: Driver, surface_id: u32, img: VaImage, desc_num_planes:
    u32, desc_pitch: Seq<u32>, desc_offset: Seq<u32>, desc_object_size: u32)
    requires
        d.surfaces.valid(surface_id),
        surface_backing(&d, d.surfaces.at(surface_id)) is Some,
        ({
            let s = d.surfaces.at(surface_id);
            let sm = surface_backing(&d, s)->Some_0;
            &&& img.num_planes == s.planes@.len()
            &&& img.data_size == sm.size as u32
            &&& forall|i: int|
                0 <= i < 3 ==> #[trigger] img.pitches@[i] == pitch_at(s.planes@, i)
                    && img.offsets@[i] == offset_at(s.planes@, i)
            &&& desc_num_planes == s.planes@.len()
            &&& desc_object_size == sm.size as u32
            &&& desc_pitch.len() == 4 && desc_offset.len() == 4
            &&& forall|i: int|
                0 <= i < 4 ==> #[trigger] desc_pitch[i] == pitch_at(s.planes@, i)
                    && desc_offset[i] == offset_at(s.planes@, i)
        }),
    ensures
        img.num_planes == desc_num_planes,
        img.data_size == desc_object_size,
        forall|i: int|
            0 <= i < 3 ==> #[trigger] img.pitches@[i] == desc_pitch[i] && img.offsets@[i]
                == desc_offset[i],
{
}

/// Law: a post-processing block whose region disagrees with the render
/// target's dimensions is rejected before any conversion work: the step
/// fails and no byte of any buffer changes.
pub proof fn lemma_mismatched_dims_rejected(pre: Driver, post: Driver,
    pic: ProcPipelineParameter, tgt: Surface, r: Result<Option<EncodeAction>, VaStatus>)
    requires
        proc_step_post(pre, post, pic, tgt, r),
        pic.surface_region matches Some(reg) && (reg.width != tgt.width || reg.height
            != tgt.height),
    ensures
        r is Err,
        same_driver(&pre, &post),
{
}

/// Law: a second sequence parameter on a context whose encoder session is
/// already constructed is rejected as unimplemented, and the recorded
/// session — and everything else in the driver — is untouched.
pub proof fn lemma_second_sequence_rejected(pre: Driver, post: Driver, context_id: u32,
    buffer_id: u32, r: Result<Option<EncodeAction>, VaStatus>)
    requires
        step_post(pre, post, context_id, buffer_id, r),
        pre.buffers.valid(buffer_id),
        pre.buffers.at(buffer_id) is EncSequence,
        pre.contexts.at(context_id).data matches ContextData::Enc(es) && es.initialized,
        pre.configs.at(pre.contexts.at(context_id).config_id).profile == VA_PROFILE_H264_MAIN,
    ensures
        r == Err::<Option<EncodeAction>, VaStatus>(VaStatus::Unimplemented),
        same_driver(&pre, &post),
        post.contexts@ == pre.contexts@,
{
}

} // verus!
