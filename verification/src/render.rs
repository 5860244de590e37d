//! The render dispatcher: given a context with an active render target and
//! an ordered batch of submitted buffers, interpret each buffer against the
//! context's profile and pipeline kind — run a pixel-format conversion into
//! the render target, drive the encoder session's state machine, record an
//! advisory parameter, or fail loudly on any combination not enumerated.
//!
//! Work that only the external encoder can do is returned as explicit
//! `EncodeAction`s for the hosting loop to perform; a completed compressed
//! frame comes back through `Driver::submit_coded_output`.

use vstd::prelude::*;

use crate::buffer::Buffer;
use crate::convert::{bgrx_to_nv12_bytes, convert_bgrx_to_nv12, nv12_conversion_fits};
use crate::driver::{
    same_buffers, same_configs, same_contexts, same_driver, same_images, same_surfaces,
    surface_backing,
};
use crate::format::{VA_FOURCC_BGRX, VA_FOURCC_NV12};
use crate::params::{
    EncPictureParameter, EncSequenceParameter, EncSliceParameter, ProcPipelineParameter,
    VA_BUFFER_TYPE_ENC_PICTURE_PARAMETER, VA_ENC_MISC_TYPE_FRAME_RATE,
    VA_ENC_MISC_TYPE_HRD, VA_ENC_MISC_TYPE_RATE_CONTROL,
};
use crate::status::VaStatus;
use crate::types::{Context, ContextData, Driver, EncoderState, Surface, VA_PROFILE_H264_MAIN};

verus! {

/// Outside work the dispatcher asks the hosting loop to perform against the
/// external encoder.
#[derive(Clone, Copy, PartialEq, Eq, Structural, Debug)]
pub enum EncodeAction {
    /// Construct the encoder once, with a fast preset, the declared bitrate
    /// and the render target's format and dimensions.
    BuildEncoder { bitrate_kbps: u32, fourcc: u32, width: u32, height: u32 },
    /// Feed the render target's planes to the encoder and store the
    /// compressed result into the coded-output buffer.
    EncodeFrame {
        frame_buffer: u32,
        width: u32,
        height: u32,
        y_pitch: usize,
        uv_offset: usize,
        uv_pitch: usize,
        coded_buf: u32,
    },
}

/// The frame-level condition under which buffers are dispatched: a live
/// context whose config still exists, with a render target set (begin
/// picture has run) that resolves to a live surface.
pub open spec fn render_frame_ok(d: &Driver, context_id: u32) -> bool {
    &&& d.contexts.valid(context_id)
    &&& d.configs.valid(d.contexts.at(context_id).config_id)
    &&& d.contexts.at(context_id).render_target is Some
    &&& d.surfaces.valid(d.contexts.at(context_id).render_target->Some_0)
}

/// A step that failed with `e` and changed nothing.
pub open spec fn err_step(pre: Driver, post: Driver, r: Result<Option<EncodeAction>, VaStatus>,
    e: VaStatus) -> bool {
    &&& r == Err::<Option<EncodeAction>, VaStatus>(e)
    &&& same_driver(&pre, &post)
}

/// Only the dispatched context's slot may differ between the two states.
pub open spec fn only_context_updated(pre: Driver, post: Driver, id: u32) -> bool {
    &&& post.page_size == pre.page_size
    &&& same_surfaces(&pre, &post)
    &&& same_configs(&pre, &post)
    &&& same_images(&pre, &post)
    &&& same_buffers(&pre, &post)
    &&& post.contexts@.len() == pre.contexts@.len()
    &&& forall|j: int|
        0 <= j < pre.contexts@.len() && j != id ==> post.contexts@[j] == pre.contexts@[j]
}

/// Only the given buffer's slot may differ between the two states.
pub open spec fn only_buffer_updated(pre: Driver, post: Driver, id: u32) -> bool {
    &&& post.page_size == pre.page_size
    &&& same_surfaces(&pre, &post)
    &&& same_configs(&pre, &post)
    &&& same_images(&pre, &post)
    &&& same_contexts(&pre, &post)
    &&& post.buffers@.len() == pre.buffers@.len()
    &&& forall|j: int|
        0 <= j < pre.buffers@.len() && j != id ==> post.buffers@[j] == pre.buffers@[j]
}

/// Everything of a context except its pipeline state is the same.
pub open spec fn same_ctx_but_data(a: Context, b: Context) -> bool {
    &&& b.render_target == a.render_target
    &&& b.config_id == a.config_id
    &&& b.picture_width == a.picture_width
    &&& b.picture_height == a.picture_height
    &&& b.flag == a.flag
}

/// The post-processing step: validate that no unimplemented feature is
/// requested and that the region exactly covers both surfaces from the
/// origin, then convert the input surface's BGRX pixels into the render
/// target's NV12 planes in place. Nothing is written unless every check and
/// the converter's own size validation pass.
pub open spec fn proc_step_post(pre: Driver, post: Driver, pic: ProcPipelineParameter,
    tgt: Surface, r: Result<Option<EncodeAction>, VaStatus>) -> bool {
    if pic.has_output_region || pic.num_filters != 0 || pic.has_blend_state
        || pic.has_additional_outputs {
        err_step(pre, post, r, VaStatus::Unimplemented)
    } else if pic.surface_region is None {
        err_step(pre, post, r, VaStatus::InvalidParameter)
    } else if !pre.surfaces.valid(pic.surface) {
        err_step(pre, post, r, VaStatus::InvalidSurface)
    } else {
        let inp = pre.surfaces.at(pic.surface);
        let reg = pic.surface_region->Some_0;
        if reg.width != tgt.width || reg.height != tgt.height || reg.x != 0 || reg.y != 0 {
            err_step(pre, post, r, VaStatus::InvalidParameter)
        } else if inp.format.fourcc != VA_FOURCC_BGRX || tgt.format.fourcc != VA_FOURCC_NV12 {
            err_step(pre, post, r, VaStatus::Unimplemented)
        } else if surface_backing(&pre, inp) is None {
            err_step(pre, post, r, VaStatus::InvalidSurface)
        } else if surface_backing(&pre, tgt) is None {
            err_step(pre, post, r, VaStatus::InvalidSurface)
        } else if inp.buffer_id == tgt.buffer_id {
            err_step(pre, post, r, VaStatus::InvalidParameter)
        } else {
            let in_sm = surface_backing(&pre, inp)->Some_0;
            let out_sm = surface_backing(&pre, tgt)->Some_0;
            let split = tgt.planes@[0].pitch * tgt.height;
            if split > out_sm.mem@.len() {
                err_step(pre, post, r, VaStatus::InvalidParameter)
            } else if !nv12_conversion_fits(
                tgt.width,
                tgt.height,
                inp.planes@[0].pitch,
                in_sm.mem@.len() as int,
                tgt.planes@[0].pitch,
                tgt.planes@[1].pitch,
                split as usize,
                out_sm.mem@.len() as int,
            ) {
                err_step(pre, post, r, VaStatus::EncodingError)
            } else {
                &&& r == Ok::<Option<EncodeAction>, VaStatus>(None)
                &&& only_buffer_updated(pre, post, tgt.buffer_id)
                &&& post.buffers@[tgt.buffer_id as int] matches Some(Buffer::Surface(sm2)) && ({
                    &&& sm2.dma == out_sm.dma
                    &&& sm2.size == out_sm.size
                    &&& sm2.mem@ == bgrx_to_nv12_bytes(
                        tgt.width,
                        tgt.height,
                        inp.planes@[0].pitch,
                        in_sm.mem@,
                        tgt.planes@[0].pitch,
                        tgt.planes@[1].pitch,
                        split as usize,
                        out_sm.mem@,
                    )
                })
            }
        }
    }
}

/// The sequence-parameter step: on the first sequence parameter of an
/// encode context, record the encoder settings (bitrate from the block, the
/// render target's format and dimensions) and ask the host to construct the
/// encoder; a second sequence parameter is rejected without touching the
/// recorded session.
pub open spec fn seq_step_post(pre: Driver, post: Driver, context_id: u32,
    spb: EncSequenceParameter, es: EncoderState, tgt: Surface, r: Result<
    Option<EncodeAction>,
    VaStatus,
>) -> bool {
    if es.initialized {
        err_step(pre, post, r, VaStatus::Unimplemented)
    } else if spb.bits_per_second > 0x7FFF_FFFFu32 {
        err_step(pre, post, r, VaStatus::InvalidParameter)
    } else if tgt.format.fourcc != VA_FOURCC_NV12 {
        err_step(pre, post, r, VaStatus::Unimplemented)
    } else {
        &&& r == Ok::<Option<EncodeAction>, VaStatus>(
            Some(
                EncodeAction::BuildEncoder {
                    bitrate_kbps: spb.bits_per_second / 1024,
                    fourcc: VA_FOURCC_NV12,
                    width: tgt.width,
                    height: tgt.height,
                },
            ),
        )
        &&& only_context_updated(pre, post, context_id)
        &&& post.contexts@[context_id as int] matches Some(c2) && ({
            &&& same_ctx_but_data(pre.contexts.at(context_id), c2)
            &&& c2.data matches ContextData::Enc(es2) && ({
                &&& es2.initialized == true
                &&& es2.bitrate_kbps == spb.bits_per_second / 1024
                &&& es2.width == tgt.width
                &&& es2.height == tgt.height
                &&& es2.fourcc == VA_FOURCC_NV12
                &&& es2.coded_buf == es.coded_buf
                &&& es2.discarded@ == es.discarded@
            })
        })
    }
}

/// The miscellaneous-parameter step: a recognized kind (frame rate, rate
/// control, HRD) is accepted and recorded as a no-op in the context's
/// discard log; any other kind is unimplemented.
pub open spec fn misc_step_post(pre: Driver, post: Driver, context_id: u32, misc_type: u32,
    es: EncoderState, r: Result<Option<EncodeAction>, VaStatus>) -> bool {
    if misc_type == VA_ENC_MISC_TYPE_FRAME_RATE || misc_type == VA_ENC_MISC_TYPE_RATE_CONTROL
        || misc_type == VA_ENC_MISC_TYPE_HRD {
        &&& r == Ok::<Option<EncodeAction>, VaStatus>(None)
        &&& only_context_updated(pre, post, context_id)
        &&& post.contexts@[context_id as int] matches Some(c2) && ({
            &&& same_ctx_but_data(pre.contexts.at(context_id), c2)
            &&& c2.data matches ContextData::Enc(es2) && ({
                &&& es2.initialized == es.initialized
                &&& es2.bitrate_kbps == es.bitrate_kbps
                &&& es2.width == es.width
                &&& es2.height == es.height
                &&& es2.fourcc == es.fourcc
                &&& es2.coded_buf == es.coded_buf
                &&& es2.discarded@ == es.discarded@.push(misc_type)
            })
        })
    } else {
        err_step(pre, post, r, VaStatus::Unimplemented)
    }
}

/// The picture-parameter step: the block is accepted, its coded-output
/// buffer handle is recorded for the next encode step, and the rest is
/// recorded as discarded.
pub open spec fn pic_step_post(pre: Driver, post: Driver, context_id: u32,
    eps: EncPictureParameter, es: EncoderState, r: Result<Option<EncodeAction>, VaStatus>) -> bool {
    &&& r == Ok::<Option<EncodeAction>, VaStatus>(None)
    &&& only_context_updated(pre, post, context_id)
    &&& post.contexts@[context_id as int] matches Some(c2) && ({
        &&& same_ctx_but_data(pre.contexts.at(context_id), c2)
        &&& c2.data matches ContextData::Enc(es2) && ({
            &&& es2.initialized == es.initialized
            &&& es2.bitrate_kbps == es.bitrate_kbps
            &&& es2.width == es.width
            &&& es2.height == es.height
            &&& es2.fourcc == es.fourcc
            &&& es2.coded_buf == Some(eps.coded_buf)
            &&& es2.discarded@ == es.discarded@.push(VA_BUFFER_TYPE_ENC_PICTURE_PARAMETER)
        })
    })
}

/// The slice-parameter step: with a constructed encoder and a recorded
/// coded-output buffer that still resolves to a coded segment, ask the host
/// to encode the render target's planes; the driver state is unchanged.
pub open spec fn slice_step_post(pre: Driver, post: Driver, esp: EncSliceParameter,
    es: EncoderState, tgt: Surface, r: Result<Option<EncodeAction>, VaStatus>) -> bool {
    if !es.initialized {
        err_step(pre, post, r, VaStatus::EncodingError)
    } else if es.coded_buf is None {
        err_step(pre, post, r, VaStatus::InvalidBuffer)
    } else {
        let cb = es.coded_buf->Some_0;
        if !pre.buffers.valid(cb) || !(pre.buffers.at(cb) matches Buffer::CodedSegment(_)) {
            err_step(pre, post, r, VaStatus::InvalidBuffer)
        } else if tgt.format.fourcc != VA_FOURCC_NV12 {
            err_step(pre, post, r, VaStatus::Unimplemented)
        } else if surface_backing(&pre, tgt) is None {
            err_step(pre, post, r, VaStatus::InvalidSurface)
        } else {
            &&& same_driver(&pre, &post)
            &&& r == Ok::<Option<EncodeAction>, VaStatus>(
                Some(
                    EncodeAction::EncodeFrame {
                        frame_buffer: tgt.buffer_id,
                        width: tgt.width,
                        height: tgt.height,
                        y_pitch: tgt.planes@[0].pitch,
                        uv_offset: tgt.planes@[1].offset,
                        uv_pitch: tgt.planes@[1].pitch,
                        coded_buf: cb,
                    },
                ),
            )
        }
    }
}

/// The state-transition table of one dispatch step, keyed on the submitted
/// buffer's kind, the config's profile and the context's pipeline kind.
/// Assumes the frame-level condition `render_frame_ok` in the pre-state.
pub open spec fn step_post(pre: Driver, post: Driver, context_id: u32, buffer_id: u32, r: Result<
    Option<EncodeAction>,
    VaStatus,
>) -> bool {
    let ctx = pre.contexts.at(context_id);
    let cfg = pre.configs.at(ctx.config_id);
    let tgt = pre.surfaces.at(ctx.render_target->Some_0);
    if !pre.buffers.valid(buffer_id) {
        err_step(pre, post, r, VaStatus::InvalidBuffer)
    } else {
        match pre.buffers.at(buffer_id) {
            Buffer::ProcPipeline(pic) => {
                if ctx.data is Proc {
                    proc_step_post(pre, post, pic, tgt, r)
                } else {
                    err_step(pre, post, r, VaStatus::Unimplemented)
                }
            },
            Buffer::EncSequence(spb) => {
                match ctx.data {
                    ContextData::Enc(es) => {
                        if cfg.profile == VA_PROFILE_H264_MAIN {
                            seq_step_post(pre, post, context_id, spb, es, tgt, r)
                        } else {
                            err_step(pre, post, r, VaStatus::Unimplemented)
                        }
                    },
                    _ => err_step(pre, post, r, VaStatus::Unimplemented),
                }
            },
            Buffer::EncMisc(emp) => {
                match ctx.data {
                    ContextData::Enc(es) => {
                        if cfg.profile == VA_PROFILE_H264_MAIN {
                            misc_step_post(pre, post, context_id, emp.param_type, es, r)
                        } else {
                            err_step(pre, post, r, VaStatus::Unimplemented)
                        }
                    },
                    _ => err_step(pre, post, r, VaStatus::Unimplemented),
                }
            },
            Buffer::EncPicture(eps) => {
                match ctx.data {
                    ContextData::Enc(es) => {
                        if cfg.profile == VA_PROFILE_H264_MAIN {
                            pic_step_post(pre, post, context_id, eps, es, r)
                        } else {
                            err_step(pre, post, r, VaStatus::Unimplemented)
                        }
                    },
                    _ => err_step(pre, post, r, VaStatus::Unimplemented),
                }
            },
            Buffer::EncSlice(esp) => {
                match ctx.data {
                    ContextData::Enc(es) => {
                        if cfg.profile == VA_PROFILE_H264_MAIN {
                            slice_step_post(pre, post, esp, es, tgt, r)
                        } else {
                            err_step(pre, post, r, VaStatus::Unimplemented)
                        }
                    },
                    _ => err_step(pre, post, r, VaStatus::Unimplemented),
                }
            },
            _ => err_step(pre, post, r, VaStatus::Unimplemented),
        }
    }
}

/// A dispatch chain: `states` are the driver states around each step
/// (`states[0]` before the first), and `steps[i]` is the outcome of
/// dispatching `bufs[i]` from `states[i]` to `states[i + 1]`, for the first
/// `n` buffers of the batch. Every step before the last succeeded: the first
/// failing buffer ends the chain, and the buffers after it are not
/// dispatched.
pub open spec fn batch_chain(states: Seq<Driver>, steps: Seq<
    Result<Option<EncodeAction>, VaStatus>,
>, context_id: u32, bufs: Seq<u32>, n: int) -> bool {
    &&& 0 <= n <= bufs.len()
    &&& states.len() == n + 1
    &&& steps.len() == n
    &&& forall|i: int|
        0 <= i < n ==> step_post(
            states[i],
            states[i + 1],
            context_id,
            bufs[i],
            #[trigger] steps[i],
        )
    &&& forall|i: int| 0 <= i < n - 1 ==> (#[trigger] steps[i]) is Ok
}

/// The actions a chain of step outcomes accumulates, in order.
pub open spec fn chain_actions(steps: Seq<Result<Option<EncodeAction>, VaStatus>>) -> Seq<
    EncodeAction,
>
    decreases steps.len(),
{
    if steps.len() == 0 {
        Seq::empty()
    } else {
        let prefix = chain_actions(steps.drop_last());
        match steps.last() {
            Result::Ok(Option::Some(a)) => prefix.push(a),
            _ => prefix,
        }
    }
}

/// The buffer kinds the dispatcher distinguishes, with the copied-out fields
/// each step needs.
#[derive(Clone, Copy)]
enum StepKind {
    Proc(ProcPipelineParameter),
    Sequence(EncSequenceParameter),
    Misc(u32),
    Pic(EncPictureParameter),
    Slice(EncSliceParameter),
    Other,
}

impl Driver {
    /// Dispatches one submitted buffer against the context, per the
    /// state-transition table `step_post`.
    pub fn render_buffer(&mut self, context_id: u32, buffer_id: u32) -> (r: Result<
        Option<EncodeAction>,
        VaStatus,
    >)
        requires
            old(self).wf(),
            render_frame_ok(old(self), context_id),
        ensures
            final(self).wf(),
            render_frame_ok(final(self), context_id),
            step_post(*old(self), *final(self), context_id, buffer_id, r),
    {
        let (cfg_id, tgt_id) = match self.contexts.get(context_id) {
            Some(c) => {
                let t = match c.render_target {
                    Some(t) => t,
                    None => {
                        return Err(VaStatus::InvalidContext);
                    },
                };
                (c.config_id, t)
            },
            None => {
                return Err(VaStatus::InvalidContext);
            },
        };
        let profile = match self.configs.get(cfg_id) {
            Some(c) => c.profile,
            None => {
                return Err(VaStatus::InvalidConfig);
            },
        };
        let (tgt_width, tgt_height, tgt_fourcc, tgt_buf_id, tgt_y_pitch, tgt_uv_pitch,
            tgt_uv_offset) = match self.surfaces.get(tgt_id) {
            Some(s) => {
                let y_pitch = if s.planes.len() >= 1 {
                    s.planes[0].pitch
                } else {
                    0
                };
                let (uv_pitch, uv_offset) = if s.planes.len() >= 2 {
                    (s.planes[1].pitch, s.planes[1].offset)
                } else {
                    (0, 0)
                };
                (s.width, s.height, s.format.fourcc, s.buffer_id, y_pitch, uv_pitch, uv_offset)
            },
            None => {
                return Err(VaStatus::InvalidSurface);
            },
        };
        let kind = match self.buffers.get(buffer_id) {
            None => {
                return Err(VaStatus::InvalidBuffer);
            },
            Some(Buffer::ProcPipeline(p)) => StepKind::Proc(*p),
            Some(Buffer::EncSequence(s)) => StepKind::Sequence(*s),
            Some(Buffer::EncMisc(m)) => StepKind::Misc(m.param_type),
            Some(Buffer::EncPicture(p)) => StepKind::Pic(*p),
            Some(Buffer::EncSlice(s)) => StepKind::Slice(*s),
            Some(_) => StepKind::Other,
        };
        let is_proc = match self.contexts.get(context_id) {
            Some(c) => match &c.data {
                ContextData::Proc => true,
                ContextData::Enc(_) => false,
            },
            None => {
                return Err(VaStatus::InvalidContext);
            },
        };
        match kind {
            StepKind::Proc(pic) => {
                if !is_proc {
                    return Err(VaStatus::Unimplemented);
                }
                self.render_proc_step(pic, tgt_id, tgt_width, tgt_height, tgt_fourcc, tgt_buf_id,
                    tgt_y_pitch, tgt_uv_pitch)
            },
            StepKind::Sequence(spb) => {
                if is_proc || profile != VA_PROFILE_H264_MAIN {
                    return Err(VaStatus::Unimplemented);
                }
                self.render_seq_step(context_id, spb, tgt_width, tgt_height, tgt_fourcc)
            },
            StepKind::Misc(t) => {
                if is_proc || profile != VA_PROFILE_H264_MAIN {
                    return Err(VaStatus::Unimplemented);
                }
                self.render_misc_step(context_id, t)
            },
            StepKind::Pic(eps) => {
                if is_proc || profile != VA_PROFILE_H264_MAIN {
                    return Err(VaStatus::Unimplemented);
                }
                self.render_pic_step(context_id, eps)
            },
            StepKind::Slice(esp) => {
                if is_proc || profile != VA_PROFILE_H264_MAIN {
                    return Err(VaStatus::Unimplemented);
                }
                self.render_slice_step(context_id, esp, tgt_width, tgt_height, tgt_fourcc,
                    tgt_buf_id, tgt_y_pitch, tgt_uv_pitch, tgt_uv_offset)
            },
            StepKind::Other => Err(VaStatus::Unimplemented),
        }
    }

    /// The post-processing conversion step of the dispatcher.
    fn render_proc_step(&mut self, pic: ProcPipelineParameter, tgt_id: u32, tgt_width: u32,
        tgt_height: u32, tgt_fourcc: u32, tgt_buf_id: u32, tgt_y_pitch: usize,
        tgt_uv_pitch: usize) -> (r: Result<Option<EncodeAction>, VaStatus>)
        requires
            old(self).wf(),
            old(self).surfaces.valid(tgt_id),
            old(self).surfaces.at(tgt_id).width == tgt_width,
            old(self).surfaces.at(tgt_id).height == tgt_height,
            old(self).surfaces.at(tgt_id).format.fourcc == tgt_fourcc,
            old(self).surfaces.at(tgt_id).buffer_id == tgt_buf_id,
            old(self).surfaces.at(tgt_id).planes@.len() >= 1 ==> tgt_y_pitch == old(
                self,
            ).surfaces.at(tgt_id).planes@[0].pitch,
            old(self).surfaces.at(tgt_id).planes@.len() >= 2 ==> tgt_uv_pitch == old(
                self,
            ).surfaces.at(tgt_id).planes@[1].pitch,
        ensures
            final(self).wf(),
            final(self).page_size == old(self).page_size,
            same_surfaces(old(self), final(self)),
            same_configs(old(self), final(self)),
            same_contexts(old(self), final(self)),
            same_images(old(self), final(self)),
            proc_step_post(*old(self), *final(self), pic, old(self).surfaces.at(tgt_id), r),
    {
        let ghost tgt = old(self).surfaces.at(tgt_id);
        if pic.has_output_region || pic.num_filters != 0 || pic.has_blend_state
            || pic.has_additional_outputs {
            return Err(VaStatus::Unimplemented);
        }
        let reg = match pic.surface_region {
            Some(reg) => reg,
            None => {
                return Err(VaStatus::InvalidParameter);
            },
        };
        let (in_fourcc, in_buf_id, in_pitch) = match self.surfaces.get(pic.surface) {
            Some(s) => (
                s.format.fourcc,
                s.buffer_id,
                if s.planes.len() >= 1 {
                    s.planes[0].pitch
                } else {
                    0
                },
            ),
            None => {
                return Err(VaStatus::InvalidSurface);
            },
        };
        if reg.width != tgt_width || reg.height != tgt_height || reg.x != 0 || reg.y != 0 {
            return Err(VaStatus::InvalidParameter);
        }
        if in_fourcc != VA_FOURCC_BGRX || tgt_fourcc != VA_FOURCC_NV12 {
            return Err(VaStatus::Unimplemented);
        }
        let in_backed = match self.buffers.get(in_buf_id) {
            Some(Buffer::Surface(_)) => true,
            _ => false,
        };
        if !in_backed {
            return Err(VaStatus::InvalidSurface);
        }
        let out_backed = match self.buffers.get(tgt_buf_id) {
            Some(Buffer::Surface(_)) => true,
            _ => false,
        };
        if !out_backed {
            return Err(VaStatus::InvalidSurface);
        }
        if in_buf_id == tgt_buf_id {
            return Err(VaStatus::InvalidParameter);
        }
        proof {
            assert(crate::types::surface_wf(old(self).surfaces.at(tgt_id)));
            assert(crate::types::surface_wf(old(self).surfaces.at(pic.surface)));
            vstd::arithmetic::mul::lemma_mul_upper_bound(
                tgt_y_pitch as int,
                0x20000,
                tgt_height as int,
                16384,
            );
            vstd::arithmetic::mul::lemma_mul_upper_bound(
                tgt_uv_pitch as int,
                0x20000,
                tgt_height as int,
                16384,
            );
            vstd::arithmetic::mul::lemma_mul_upper_bound(
                in_pitch as int,
                0x20000,
                tgt_height as int,
                16384,
            );
        }
        let split = tgt_y_pitch * (tgt_height as usize);
        let ghost b0 = old(self).buffers.at(tgt_buf_id);
        let mut out_sm = match self.buffers.take(tgt_buf_id) {
            Some(Buffer::Surface(sm)) => sm,
            _ => {
                return Err(VaStatus::InvalidSurface);
            },
        };
        let ghost sm0 = out_sm;
        if split > out_sm.mem.len() {
            self.buffers.put(tgt_buf_id, Buffer::Surface(out_sm));
            proof {
                assert(self.buffers@ =~= old(self).buffers@);
            }
            return Err(VaStatus::InvalidParameter);
        }
        let res = match self.buffers.get(in_buf_id) {
            Some(Buffer::Surface(in_sm)) => convert_bgrx_to_nv12(
                tgt_width,
                tgt_height,
                in_pitch,
                &in_sm.mem,
                tgt_y_pitch,
                tgt_uv_pitch,
                split,
                &mut out_sm.mem,
            ),
            _ => Err(VaStatus::InvalidSurface),
        };
        match res {
            Ok(()) => {
                self.buffers.put(tgt_buf_id, Buffer::Surface(out_sm));
                Ok(None)
            },
            Err(e) => {
                self.buffers.put(tgt_buf_id, Buffer::Surface(out_sm));
                proof {
                    assert(Buffer::Surface(out_sm) == b0);
                    assert(self.buffers@ =~= old(self).buffers@);
                }
                Err(e)
            },
        }
    }

    /// The sequence-parameter step of the dispatcher.
    fn render_seq_step(&mut self, context_id: u32, spb: EncSequenceParameter, tgt_width: u32,
        tgt_height: u32, tgt_fourcc: u32) -> (r: Result<Option<EncodeAction>, VaStatus>)
        requires
            old(self).wf(),
            render_frame_ok(old(self), context_id),
            old(self).contexts.at(context_id).data is Enc,
            old(self).surfaces.at(old(self).contexts.at(context_id).render_target->Some_0).width
                == tgt_width,
            old(self).surfaces.at(old(self).contexts.at(context_id).render_target->Some_0).height
                == tgt_height,
            old(self).surfaces.at(
                old(self).contexts.at(context_id).render_target->Some_0,
            ).format.fourcc == tgt_fourcc,
        ensures
            final(self).wf(),
            render_frame_ok(final(self), context_id),
            seq_step_post(
                *old(self),
                *final(self),
                context_id,
                spb,
                old(self).contexts.at(context_id).data->Enc_0,
                old(self).surfaces.at(old(self).contexts.at(context_id).render_target->Some_0),
                r,
            ),
    {
        let ctx = match self.contexts.take(context_id) {
            Some(c) => c,
            None => {
                return Err(VaStatus::InvalidContext);
            },
        };
        let rt = ctx.render_target;
        let cid = ctx.config_id;
        let pw = ctx.picture_width;
        let ph = ctx.picture_height;
        let fl = ctx.flag;
        let mut es = match ctx.data {
            ContextData::Enc(es) => es,
            ContextData::Proc => {
                self.contexts.put(
                    context_id,
                    Context {
                        render_target: rt,
                        config_id: cid,
                        picture_width: pw,
                        picture_height: ph,
                        flag: fl,
                        data: ContextData::Proc,
                    },
                );
                return Err(VaStatus::Unimplemented);
            },
        };
        if es.initialized || spb.bits_per_second > 0x7FFF_FFFFu32 || tgt_fourcc != VA_FOURCC_NV12 {
            let status = if es.initialized {
                VaStatus::Unimplemented
            } else if spb.bits_per_second > 0x7FFF_FFFFu32 {
                VaStatus::InvalidParameter
            } else {
                VaStatus::Unimplemented
            };
            self.contexts.put(
                context_id,
                Context {
                    render_target: rt,
                    config_id: cid,
                    picture_width: pw,
                    picture_height: ph,
                    flag: fl,
                    data: ContextData::Enc(es),
                },
            );
            proof {
                assert(self.contexts@ =~= old(self).contexts@);
            }
            return Err(status);
        }
        let kbps = spb.bits_per_second / 1024;
        es.initialized = true;
        es.bitrate_kbps = kbps;
        es.width = tgt_width;
        es.height = tgt_height;
        es.fourcc = VA_FOURCC_NV12;
        self.contexts.put(
            context_id,
            Context {
                render_target: rt,
                config_id: cid,
                picture_width: pw,
                picture_height: ph,
                flag: fl,
                data: ContextData::Enc(es),
            },
        );
        Ok(
            Some(
                EncodeAction::BuildEncoder {
                    bitrate_kbps: kbps,
                    fourcc: VA_FOURCC_NV12,
                    width: tgt_width,
                    height: tgt_height,
                },
            ),
        )
    }

    /// The miscellaneous-parameter step of the dispatcher.
    fn render_misc_step(&mut self, context_id: u32, misc_type: u32) -> (r: Result<
        Option<EncodeAction>,
        VaStatus,
    >)
        requires
            old(self).wf(),
            render_frame_ok(old(self), context_id),
            old(self).contexts.at(context_id).data is Enc,
        ensures
            final(self).wf(),
            render_frame_ok(final(self), context_id),
            misc_step_post(
                *old(self),
                *final(self),
                context_id,
                misc_type,
                old(self).contexts.at(context_id).data->Enc_0,
                r,
            ),
    {
        if misc_type != VA_ENC_MISC_TYPE_FRAME_RATE && misc_type != VA_ENC_MISC_TYPE_RATE_CONTROL
            && misc_type != VA_ENC_MISC_TYPE_HRD {
            return Err(VaStatus::Unimplemented);
        }
        let ctx = match self.contexts.take(context_id) {
            Some(c) => c,
            None => {
                return Err(VaStatus::InvalidContext);
            },
        };
        let rt = ctx.render_target;
        let cid = ctx.config_id;
        let pw = ctx.picture_width;
        let ph = ctx.picture_height;
        let fl = ctx.flag;
        let mut es = match ctx.data {
            ContextData::Enc(es) => es,
            ContextData::Proc => {
                self.contexts.put(
                    context_id,
                    Context {
                        render_target: rt,
                        config_id: cid,
                        picture_width: pw,
                        picture_height: ph,
                        flag: fl,
                        data: ContextData::Proc,
                    },
                );
                return Err(VaStatus::Unimplemented);
            },
        };
        es.discarded.push(misc_type);
        self.contexts.put(
            context_id,
            Context {
                render_target: rt,
                config_id: cid,
                picture_width: pw,
                picture_height: ph,
                flag: fl,
                data: ContextData::Enc(es),
            },
        );
        Ok(None)
    }

    /// The picture-parameter step of the dispatcher.
    fn render_pic_step(&mut self, context_id: u32, eps: EncPictureParameter) -> (r: Result<
        Option<EncodeAction>,
        VaStatus,
    >)
        requires
            old(self).wf(),
            render_frame_ok(old(self), context_id),
            old(self).contexts.at(context_id).data is Enc,
        ensures
            final(self).wf(),
            render_frame_ok(final(self), context_id),
            pic_step_post(
                *old(self),
                *final(self),
                context_id,
                eps,
                old(self).contexts.at(context_id).data->Enc_0,
                r,
            ),
    {
        let ctx = match self.contexts.take(context_id) {
            Some(c) => c,
            None => {
                return Err(VaStatus::InvalidContext);
            },
        };
        let rt = ctx.render_target;
        let cid = ctx.config_id;
        let pw = ctx.picture_width;
        let ph = ctx.picture_height;
        let fl = ctx.flag;
        let mut es = match ctx.data {
            ContextData::Enc(es) => es,
            ContextData::Proc => {
                self.contexts.put(
                    context_id,
                    Context {
                        render_target: rt,
                        config_id: cid,
                        picture_width: pw,
                        picture_height: ph,
                        flag: fl,
                        data: ContextData::Proc,
                    },
                );
                return Err(VaStatus::Unimplemented);
            },
        };
        es.coded_buf = Some(eps.coded_buf);
        es.discarded.push(VA_BUFFER_TYPE_ENC_PICTURE_PARAMETER);
        self.contexts.put(
            context_id,
            Context {
                render_target: rt,
                config_id: cid,
                picture_width: pw,
                picture_height: ph,
                flag: fl,
                data: ContextData::Enc(es),
            },
        );
        Ok(None)
    }

    /// The slice-parameter step of the dispatcher.
    fn render_slice_step(&mut self, context_id: u32, esp: EncSliceParameter, tgt_width: u32,
        tgt_height: u32, tgt_fourcc: u32, tgt_buf_id: u32, tgt_y_pitch: usize,
        tgt_uv_pitch: usize, tgt_uv_offset: usize) -> (r: Result<Option<EncodeAction>, VaStatus>)
        requires
            old(self).wf(),
            render_frame_ok(old(self), context_id),
            old(self).contexts.at(context_id).data is Enc,
            old(self).surfaces.at(old(self).contexts.at(context_id).render_target->Some_0).width
                == tgt_width,
            old(self).surfaces.at(old(self).contexts.at(context_id).render_target->Some_0).height
                == tgt_height,
            old(self).surfaces.at(
                old(self).contexts.at(context_id).render_target->Some_0,
            ).format.fourcc == tgt_fourcc,
            old(self).surfaces.at(
                old(self).contexts.at(context_id).render_target->Some_0,
            ).buffer_id == tgt_buf_id,
            old(self).surfaces.at(old(self).contexts.at(context_id).render_target->Some_0).planes@.len()
                >= 1 ==> tgt_y_pitch == old(self).surfaces.at(
                old(self).contexts.at(context_id).render_target->Some_0,
            ).planes@[0].pitch,
            old(self).surfaces.at(old(self).contexts.at(context_id).render_target->Some_0).planes@.len()
                >= 2 ==> tgt_uv_pitch == old(self).surfaces.at(
                old(self).contexts.at(context_id).render_target->Some_0,
            ).planes@[1].pitch && tgt_uv_offset == old(self).surfaces.at(
                old(self).contexts.at(context_id).render_target->Some_0,
            ).planes@[1].offset,
        ensures
            final(self).wf(),
            render_frame_ok(final(self), context_id),
            slice_step_post(
                *old(self),
                *final(self),
                esp,
                old(self).contexts.at(context_id).data->Enc_0,
                old(self).surfaces.at(old(self).contexts.at(context_id).render_target->Some_0),
                r,
            ),
    {
        let _ = esp;
        let (es_init, es_cb) = match self.contexts.get(context_id) {
            Some(c) => match &c.data {
                ContextData::Enc(es) => (es.initialized, es.coded_buf),
                ContextData::Proc => {
                    return Err(VaStatus::Unimplemented);
                },
            },
            None => {
                return Err(VaStatus::InvalidContext);
            },
        };
        if !es_init {
            return Err(VaStatus::EncodingError);
        }
        let cb = match es_cb {
            Some(cb) => cb,
            None => {
                return Err(VaStatus::InvalidBuffer);
            },
        };
        let cb_ok = match self.buffers.get(cb) {
            Some(Buffer::CodedSegment(_)) => true,
            _ => false,
        };
        if !cb_ok {
            return Err(VaStatus::InvalidBuffer);
        }
        if tgt_fourcc != VA_FOURCC_NV12 {
            return Err(VaStatus::Unimplemented);
        }
        let tgt_backed = match self.buffers.get(tgt_buf_id) {
            Some(Buffer::Surface(_)) => true,
            _ => false,
        };
        if !tgt_backed {
            return Err(VaStatus::InvalidSurface);
        }
        proof {
            assert(crate::types::surface_wf(
                old(self).surfaces.at(old(self).contexts.at(context_id).render_target->Some_0),
            ));
        }
        Ok(
            Some(
                EncodeAction::EncodeFrame {
                    frame_buffer: tgt_buf_id,
                    width: tgt_width,
                    height: tgt_height,
                    y_pitch: tgt_y_pitch,
                    uv_offset: tgt_uv_offset,
                    uv_pitch: tgt_uv_pitch,
                    coded_buf: cb,
                },
            ),
        )
    }

    /// Executes the render dispatcher for a batch of submitted buffers, in
    /// submission order, against the context's active render target: the
    /// state machine of `step_post`, folded as `batch_chain` describes. The
    /// returned actions are the encoder work the hosting loop must perform.
    ///
    /// A call outside a begin/end-picture bracket, or on a stale handle,
    /// fails before any buffer is dispatched; a failing buffer ends the
    /// batch with its status, and the effects of the buffers before it
    /// stand.
    pub fn render_picture(&mut self, context_id: u32, buffer_ids: &Vec<u32>) -> (r: Result<
        Vec<EncodeAction>,
        VaStatus,
    >)
        requires
            old(self).wf(),
        ensures
            final(self).wf(),
            !old(self).contexts.valid(context_id) ==> r == Err::<Vec<EncodeAction>, VaStatus>(
                VaStatus::InvalidContext,
            ) && same_driver(old(self), final(self)),
            old(self).contexts.valid(context_id) && !old(self).configs.valid(
                old(self).contexts.at(context_id).config_id,
            ) ==> r == Err::<Vec<EncodeAction>, VaStatus>(VaStatus::InvalidConfig) && same_driver(
                old(self),
                final(self),
            ),
            old(self).contexts.valid(context_id) && old(self).configs.valid(
                old(self).contexts.at(context_id).config_id,
            ) && !render_frame_ok(old(self), context_id) ==> r == Err::<
                Vec<EncodeAction>,
                VaStatus,
            >(VaStatus::InvalidSurface) && same_driver(old(self), final(self)),
            render_frame_ok(old(self), context_id) ==> match r {
                Result::Ok(v) => exists|
                    states: Seq<Driver>,
                    steps: Seq<Result<Option<EncodeAction>, VaStatus>>,
                |
                    {
                        &&& #[trigger] batch_chain(
                            states,
                            steps,
                            context_id,
                            buffer_ids@,
                            buffer_ids@.len() as int,
                        )
                        &&& states[0] == *old(self)
                        &&& states.last() == *final(self)
                        &&& forall|i: int| 0 <= i < steps.len() ==> (#[trigger] steps[i]) is Ok
                        &&& v@ == chain_actions(steps)
                    },
                Result::Err(e) => exists|
                    states: Seq<Driver>,
                    steps: Seq<Result<Option<EncodeAction>, VaStatus>>,
                    n: int,
                |
                    {
                        &&& #[trigger] batch_chain(states, steps, context_id, buffer_ids@, n)
                        &&& 1 <= n <= buffer_ids@.len()
                        &&& states[0] == *old(self)
                        &&& states.last() == *final(self)
                        &&& steps.last() == Err::<Option<EncodeAction>, VaStatus>(e)
                    },
            },
    {
        let (cfg_id, rt) = match self.contexts.get(context_id) {
            Some(c) => (c.config_id, c.render_target),
            None => {
                return Err(VaStatus::InvalidContext);
            },
        };
        if self.configs.get(cfg_id).is_none() {
            return Err(VaStatus::InvalidConfig);
        }
        match rt {
            Some(t) => {
                if self.surfaces.get(t).is_none() {
                    return Err(VaStatus::InvalidSurface);
                }
            },
            None => {
                return Err(VaStatus::InvalidSurface);
            },
        }
        let n = buffer_ids.len();
        let mut actions: Vec<EncodeAction> = Vec::new();
        let ghost mut states: Seq<Driver> = seq![*old(self)];
        let ghost mut steps: Seq<Result<Option<EncodeAction>, VaStatus>> = Seq::empty();
        let mut i: usize = 0;
        while i < n
            invariant
                self.wf(),
                render_frame_ok(old(self), context_id),
                render_frame_ok(self, context_id),
                n == buffer_ids@.len(),
                0 <= i <= n,
                states.len() == i + 1,
                steps.len() == i,
                states[0] == *old(self),
                states.last() == *self,
                batch_chain(states, steps, context_id, buffer_ids@, i as int),
                forall|j: int| 0 <= j < steps.len() ==> (#[trigger] steps[j]) is Ok,
                actions@ == chain_actions(steps),
            decreases n - i,
        {
            let ghost mid = *self;
            let ghost states0 = states;
            let ghost steps0 = steps;
            let r1 = self.render_buffer(context_id, buffer_ids[i]);
            proof {
                states = states0.push(*self);
                steps = steps0.push(r1);
                assert(steps.drop_last() =~= steps0);
                assert(states.last() == *self);
                assert(step_post(mid, *self, context_id, buffer_ids@[i as int], r1));
                assert(batch_chain(states, steps, context_id, buffer_ids@, i + 1)) by {
                    assert(forall|j: int| 0 <= j < i ==> states[j] == states0[j] && #[trigger] steps[j] == steps0[j]);
                    assert(states[i as int] == states0.last());
                    assert(steps[i as int] == r1);
                };
            }
            match r1 {
                Ok(a) => {
                    if let Some(act) = a {
                        actions.push(act);
                    }
                    i = i + 1;
                },
                Err(e) => {
                    proof {
                        assert(batch_chain(states, steps, context_id, buffer_ids@, i + 1));
                    }
                    return Err(e);
                },
            }
        }
        Ok(actions)
    }
}

} // verus!
