//! End-to-end post-processing scenarios: submitting a pipeline parameter
//! buffer converts a BGRX input surface into the NV12 render target through
//! the external conversion engine.

use va_x264::buffer::DmaHandles;
use va_x264::format::{VA_FOURCC_BGRX, VA_FOURCC_NV12, VA_RT_FORMAT_RGB32, VA_RT_FORMAT_YUV420};
use va_x264::params::VA_BUFFER_TYPE_PROC_PIPELINE_PARAMETER;
use va_x264::status::VaStatus;
use va_x264::types::{
    Driver, SurfaceAttrib, VA_ENTRYPOINT_VIDEO_PROC, VA_PROFILE_H264_MAIN,
    VA_SURFACE_ATTRIB_PIXEL_FORMAT,
};

const PAGE: usize = 4096;

fn push_u32(v: &mut Vec<u8>, x: u32) {
    v.push((x & 0xff) as u8);
    v.push(((x >> 8) & 0xff) as u8);
    v.push(((x >> 16) & 0xff) as u8);
    v.push(((x >> 24) & 0xff) as u8);
}

fn fourcc_attrib(fourcc: u32) -> SurfaceAttrib {
    SurfaceAttrib { attrib_type: VA_SURFACE_ATTRIB_PIXEL_FORMAT, value: fourcc as i32 }
}

fn new_surface(d: &mut Driver, rt_format: u32, fourcc: u32, w: u32, h: u32, fd: u64) -> u32 {
    let ids = d
        .create_surfaces(
            rt_format,
            w,
            h,
            &vec![fourcc_attrib(fourcc)],
            vec![DmaHandles { dmabuf_fd: fd, backing_fd: fd + 100 }],
        )
        .unwrap();
    ids[0]
}

fn pipeline_param_bytes(input_surface: u32, w: u32, h: u32) -> Vec<u8> {
    let mut data = Vec::new();
    push_u32(&mut data, input_surface);
    push_u32(&mut data, 1);
    push_u32(&mut data, 0);
    push_u32(&mut data, 0);
    push_u32(&mut data, w);
    push_u32(&mut data, h);
    push_u32(&mut data, 0);
    data
}

fn proc_setup(d: &mut Driver, target: u32, w: u32, h: u32) -> u32 {
    let cfg = d
        .create_config(VA_PROFILE_H264_MAIN, VA_ENTRYPOINT_VIDEO_PROC, Vec::new())
        .unwrap();
    let ctx = d.create_context(cfg, w as i32, h as i32, 0, &vec![target]).unwrap();
    d.begin_picture(ctx, target).unwrap();
    ctx
}

#[test]
fn bgrx_to_nv12_full_frame_conversion() {
    let w = 64;
    let h = 64;
    let mut d = Driver::new(PAGE);
    let nv12 = new_surface(&mut d, VA_RT_FORMAT_YUV420, VA_FOURCC_NV12, w, h, 3);
    let bgrx = new_surface(&mut d, VA_RT_FORMAT_RGB32, VA_FOURCC_BGRX, w, h, 5);
    let ctx = proc_setup(&mut d, nv12, w, h);
    // fill the input with white pixels (blue, green, red, padding all 255)
    let bgrx_img = d.derive_image(bgrx).unwrap();
    let white = vec![255u8; bgrx_img.data_size as usize];
    d.buffer_write_bytes(bgrx_img.buf, 0, &white).unwrap();
    // submit the pipeline parameter: full-extent, zero-origin region
    let bytes = pipeline_param_bytes(bgrx, w, h);
    let pp = d
        .create_buffer(ctx, VA_BUFFER_TYPE_PROC_PIPELINE_PARAMETER, 28, 1, Some(&bytes))
        .unwrap();
    let actions = d.render_picture(ctx, &vec![pp]).unwrap();
    assert!(actions.is_empty());
    d.end_picture(ctx).unwrap();
    // the luma plane of white at BT.601 studio range is 235, chroma neutral 128
    let nv12_img = d.derive_image(nv12).unwrap();
    let m = d.map_buffer(nv12_img.buf).unwrap();
    let y_pitch = nv12_img.pitches[0] as usize;
    let uv_off = nv12_img.offsets[1] as usize;
    let uv_pitch = nv12_img.pitches[1] as usize;
    for row in 0..h as usize {
        for col in 0..w as usize {
            let y = m[row * y_pitch + col];
            assert!((233..=237).contains(&y), "luma {} at {},{}", y, row, col);
        }
    }
    for row in 0..(h as usize) / 2 {
        for col in 0..w as usize {
            let c = m[uv_off + row * uv_pitch + col];
            assert!((126..=130).contains(&c), "chroma {} at {},{}", c, row, col);
        }
    }
}

#[test]
fn mismatched_region_rejected_without_partial_write() {
    let mut d = Driver::new(PAGE);
    let nv12 = new_surface(&mut d, VA_RT_FORMAT_YUV420, VA_FOURCC_NV12, 64, 64, 3);
    let bgrx = new_surface(&mut d, VA_RT_FORMAT_RGB32, VA_FOURCC_BGRX, 32, 32, 5);
    let ctx = proc_setup(&mut d, nv12, 64, 64);
    let bgrx_img = d.derive_image(bgrx).unwrap();
    let filled = vec![200u8; bgrx_img.data_size as usize];
    d.buffer_write_bytes(bgrx_img.buf, 0, &filled).unwrap();
    // the region matches the input but not the render target
    let bytes = pipeline_param_bytes(bgrx, 32, 32);
    let pp = d
        .create_buffer(ctx, VA_BUFFER_TYPE_PROC_PIPELINE_PARAMETER, 28, 1, Some(&bytes))
        .unwrap();
    assert_eq!(d.render_picture(ctx, &vec![pp]).err(), Some(VaStatus::InvalidParameter));
    // the output surface was never written
    let nv12_img = d.derive_image(nv12).unwrap();
    let m = d.map_buffer(nv12_img.buf).unwrap();
    assert!(m.iter().all(|b| *b == 0));
}

#[test]
fn pipeline_features_and_region_validation() {
    let mut d = Driver::new(PAGE);
    let nv12 = new_surface(&mut d, VA_RT_FORMAT_YUV420, VA_FOURCC_NV12, 64, 64, 3);
    let bgrx = new_surface(&mut d, VA_RT_FORMAT_RGB32, VA_FOURCC_BGRX, 64, 64, 5);
    let ctx = proc_setup(&mut d, nv12, 64, 64);
    // requesting a blend state is a hard failure, not a silent no-op
    let mut with_blend = Vec::new();
    push_u32(&mut with_blend, bgrx);
    push_u32(&mut with_blend, 1 | 4);
    push_u32(&mut with_blend, 0);
    push_u32(&mut with_blend, 0);
    push_u32(&mut with_blend, 64);
    push_u32(&mut with_blend, 64);
    push_u32(&mut with_blend, 0);
    let pp1 = d
        .create_buffer(ctx, VA_BUFFER_TYPE_PROC_PIPELINE_PARAMETER, 28, 1, Some(&with_blend))
        .unwrap();
    assert_eq!(d.render_picture(ctx, &vec![pp1]).err(), Some(VaStatus::Unimplemented));
    // a missing region is a malformed parameter
    let mut no_region = Vec::new();
    push_u32(&mut no_region, bgrx);
    push_u32(&mut no_region, 0);
    for _ in 0..5 {
        push_u32(&mut no_region, 0);
    }
    let pp2 = d
        .create_buffer(ctx, VA_BUFFER_TYPE_PROC_PIPELINE_PARAMETER, 28, 1, Some(&no_region))
        .unwrap();
    assert_eq!(d.render_picture(ctx, &vec![pp2]).err(), Some(VaStatus::InvalidParameter));
    // a nonzero origin is rejected
    let mut off_origin = Vec::new();
    push_u32(&mut off_origin, bgrx);
    push_u32(&mut off_origin, 1);
    push_u32(&mut off_origin, 8);
    push_u32(&mut off_origin, 0);
    push_u32(&mut off_origin, 64);
    push_u32(&mut off_origin, 64);
    push_u32(&mut off_origin, 0);
    let pp3 = d
        .create_buffer(ctx, VA_BUFFER_TYPE_PROC_PIPELINE_PARAMETER, 28, 1, Some(&off_origin))
        .unwrap();
    assert_eq!(d.render_picture(ctx, &vec![pp3]).err(), Some(VaStatus::InvalidParameter));
    // an input surface that was destroyed is a stale handle
    let bytes = pipeline_param_bytes(bgrx, 64, 64);
    let pp4 = d
        .create_buffer(ctx, VA_BUFFER_TYPE_PROC_PIPELINE_PARAMETER, 28, 1, Some(&bytes))
        .unwrap();
    d.destroy_surfaces(&vec![bgrx]).unwrap();
    assert_eq!(d.render_picture(ctx, &vec![pp4]).err(), Some(VaStatus::InvalidSurface));
}

#[test]
fn gradient_conversion_tracks_brightness() {
    // darker input pixels give a darker luma plane: the converted output
    // depends on the input pixels, not on the buffers' prior contents
    let w = 64;
    let h = 64;
    let mut d = Driver::new(PAGE);
    let nv12 = new_surface(&mut d, VA_RT_FORMAT_YUV420, VA_FOURCC_NV12, w, h, 3);
    let bgrx = new_surface(&mut d, VA_RT_FORMAT_RGB32, VA_FOURCC_BGRX, w, h, 5);
    let ctx = proc_setup(&mut d, nv12, w, h);
    let bgrx_img = d.derive_image(bgrx).unwrap();
    // mid grey everywhere
    let grey = vec![128u8; bgrx_img.data_size as usize];
    d.buffer_write_bytes(bgrx_img.buf, 0, &grey).unwrap();
    let bytes = pipeline_param_bytes(bgrx, w, h);
    let pp = d
        .create_buffer(ctx, VA_BUFFER_TYPE_PROC_PIPELINE_PARAMETER, 28, 1, Some(&bytes))
        .unwrap();
    d.render_picture(ctx, &vec![pp]).unwrap();
    let nv12_img = d.derive_image(nv12).unwrap();
    let m = d.map_buffer(nv12_img.buf).unwrap();
    // y = 0.859 * 128 + 16, roughly 126
    let y = m[0];
    assert!((123..=129).contains(&y), "luma {}", y);
}
