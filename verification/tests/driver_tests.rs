//! Driver-level scenarios: configs and attribute queries, surface and
//! context lifecycles, the picture bracket, the render dispatcher, image
//! derivation and zero-copy export.

use va_x264::buffer::DmaHandles;
use va_x264::driver::{query_config_entrypoints, query_config_profiles, query_image_formats};
use va_x264::format::{
    VA_FOURCC_BGRX, VA_FOURCC_NV12, VA_RT_FORMAT_RGB32, VA_RT_FORMAT_YUV420,
};
use va_x264::params::{
    VA_BUFFER_TYPE_ENC_CODED, VA_BUFFER_TYPE_ENC_MISC_PARAMETER,
    VA_BUFFER_TYPE_ENC_PICTURE_PARAMETER, VA_BUFFER_TYPE_ENC_SEQUENCE_PARAMETER,
    VA_BUFFER_TYPE_ENC_SLICE_PARAMETER, VA_ENC_MISC_TYPE_RATE_CONTROL,
};
use va_x264::render::EncodeAction;
use va_x264::status::VaStatus;
use va_x264::types::{
    ConfigAttrib, Driver, SurfaceAttrib, DEFAULT_ENC_MAX_REF_FRAMES, VA_ATTRIB_NOT_SUPPORTED,
    VA_CONFIG_ATTRIB_ENC_MAX_REF_FRAMES, VA_CONFIG_ATTRIB_RATE_CONTROL, VA_CONFIG_ATTRIB_RT_FORMAT,
    VA_ENTRYPOINT_ENC_PICTURE, VA_ENTRYPOINT_VIDEO_PROC, VA_PROFILE_H264_MAIN, VA_RC_CBR,
    VA_SURFACE_ATTRIB_MEMORY_TYPE, VA_SURFACE_ATTRIB_MEM_TYPE_DRM_PRIME,
    VA_SURFACE_ATTRIB_MEM_TYPE_DRM_PRIME_2, VA_SURFACE_ATTRIB_MEM_TYPE_VA,
    VA_SURFACE_ATTRIB_PIXEL_FORMAT,
};

const PAGE: usize = 4096;

fn push_u32(v: &mut Vec<u8>, x: u32) {
    v.push((x & 0xff) as u8);
    v.push(((x >> 8) & 0xff) as u8);
    v.push(((x >> 16) & 0xff) as u8);
    v.push(((x >> 24) & 0xff) as u8);
}

fn fourcc_attrib(fourcc: u32) -> SurfaceAttrib {
    SurfaceAttrib { attrib_type: VA_SURFACE_ATTRIB_PIXEL_FORMAT, value: fourcc as i32 }
}

fn dma(n: u64) -> DmaHandles {
    DmaHandles { dmabuf_fd: n, backing_fd: n + 100 }
}

fn new_surface(d: &mut Driver, rt_format: u32, fourcc: u32, w: u32, h: u32, fd: u64) -> u32 {
    let ids = d
        .create_surfaces(rt_format, w, h, &vec![fourcc_attrib(fourcc)], vec![dma(fd)])
        .unwrap();
    assert_eq!(ids.len(), 1);
    ids[0]
}

fn enc_setup(d: &mut Driver, target: u32) -> u32 {
    let cfg = d.create_config(VA_PROFILE_H264_MAIN, VA_ENTRYPOINT_ENC_PICTURE, Vec::new()).unwrap();
    let ctx = d.create_context(cfg, 64, 64, 0, &vec![target]).unwrap();
    d.begin_picture(ctx, target).unwrap();
    ctx
}

#[test]
fn queries_report_single_capabilities() {
    assert_eq!(query_config_profiles(), vec![VA_PROFILE_H264_MAIN]);
    assert_eq!(query_config_entrypoints(VA_PROFILE_H264_MAIN), vec![VA_ENTRYPOINT_ENC_PICTURE]);
    assert!(query_config_entrypoints(5).is_empty());
    let formats = query_image_formats();
    assert_eq!(formats.len(), 1);
    assert_eq!(formats[0].fourcc, VA_FOURCC_NV12);
}

#[test]
fn config_attribute_defaults_for_other_pairs() {
    let mut d = Driver::new(PAGE);
    // A pair other than the one supported combination.
    let cfg = d.create_config(5, VA_ENTRYPOINT_VIDEO_PROC, Vec::new()).unwrap();
    assert_eq!(cfg, 0);
    let mut attribs = vec![
        ConfigAttrib { attrib_type: VA_CONFIG_ATTRIB_RT_FORMAT, value: 0 },
        ConfigAttrib { attrib_type: VA_CONFIG_ATTRIB_RATE_CONTROL, value: 0 },
        ConfigAttrib { attrib_type: VA_CONFIG_ATTRIB_ENC_MAX_REF_FRAMES, value: 0 },
        ConfigAttrib { attrib_type: 999, value: 0 },
    ];
    d.get_config_attributes(5, VA_ENTRYPOINT_VIDEO_PROC, &mut attribs);
    assert_eq!(attribs[0].value, VA_RT_FORMAT_YUV420);
    assert_eq!(attribs[1].value, VA_RC_CBR);
    assert_eq!(attribs[2].value, DEFAULT_ENC_MAX_REF_FRAMES);
    assert_eq!(attribs[3].value, VA_ATTRIB_NOT_SUPPORTED);
}

#[test]
fn created_surfaces_are_distinct_with_aligned_layout() {
    let mut d = Driver::new(PAGE);
    let attribs = vec![
        fourcc_attrib(VA_FOURCC_NV12),
        SurfaceAttrib {
            attrib_type: VA_SURFACE_ATTRIB_MEMORY_TYPE,
            value: VA_SURFACE_ATTRIB_MEM_TYPE_VA as i32,
        },
    ];
    let ids = d
        .create_surfaces(VA_RT_FORMAT_YUV420, 640, 480, &attribs, vec![dma(3), dma(5), dma(7)])
        .unwrap();
    assert_eq!(ids, vec![0, 1, 2]);
    for id in ids {
        let img = d.derive_image(id).unwrap();
        assert_eq!(img.num_planes, 2);
        // stride at least the row width and aligned to the format alignment
        assert!(img.pitches[0] >= 640);
        assert_eq!(img.pitches[0] % 2048, 0);
        assert_eq!(img.pitches[0], 2048);
        assert_eq!(img.offsets[1], 2048 * 480);
        // total backing size covers both plane extents
        assert!(img.data_size >= 2048 * 480 + 2048 * 240);
    }
}

#[test]
fn surface_creation_rejects_bad_attributes() {
    let mut d = Driver::new(PAGE);
    // unknown attribute type
    let unknown = vec![SurfaceAttrib { attrib_type: 3, value: 0 }];
    assert_eq!(
        d.create_surfaces(VA_RT_FORMAT_YUV420, 64, 64, &unknown, vec![dma(3)]).err(),
        Some(VaStatus::Unimplemented)
    );
    // wrong memory kind assertion
    let wrong_mem = vec![
        fourcc_attrib(VA_FOURCC_NV12),
        SurfaceAttrib {
            attrib_type: VA_SURFACE_ATTRIB_MEMORY_TYPE,
            value: VA_SURFACE_ATTRIB_MEM_TYPE_DRM_PRIME as i32,
        },
    ];
    assert_eq!(
        d.create_surfaces(VA_RT_FORMAT_YUV420, 64, 64, &wrong_mem, vec![dma(3)]).err(),
        Some(VaStatus::InvalidParameter)
    );
    // no fourcc given
    assert_eq!(
        d.create_surfaces(VA_RT_FORMAT_YUV420, 64, 64, &Vec::new(), vec![dma(3)]).err(),
        Some(VaStatus::InvalidParameter)
    );
    // unsupported class/fourcc pair
    assert_eq!(
        d.create_surfaces(
            VA_RT_FORMAT_RGB32,
            64,
            64,
            &vec![fourcc_attrib(VA_FOURCC_NV12)],
            vec![dma(3)],
        )
            .err(),
        Some(VaStatus::Unimplemented)
    );
    // dimensions out of range
    assert_eq!(
        d.create_surfaces(
            VA_RT_FORMAT_YUV420,
            0,
            64,
            &vec![fourcc_attrib(VA_FOURCC_NV12)],
            vec![dma(3)],
        )
            .err(),
        Some(VaStatus::InvalidParameter)
    );
}

#[test]
fn destroyed_surface_rejected_everywhere() {
    let mut d = Driver::new(PAGE);
    let s = new_surface(&mut d, VA_RT_FORMAT_YUV420, VA_FOURCC_NV12, 64, 64, 3);
    d.destroy_surfaces(&vec![s]).unwrap();
    assert_eq!(d.sync_surface(s), Err(VaStatus::InvalidSurface));
    assert_eq!(d.derive_image(s).err(), Some(VaStatus::InvalidSurface));
    assert_eq!(
        d.export_surface_handle(s, VA_SURFACE_ATTRIB_MEM_TYPE_DRM_PRIME_2, 0).err(),
        Some(VaStatus::InvalidSurface)
    );
    // destroying it twice fails on the second call
    assert_eq!(d.destroy_surfaces(&vec![s]), Err(VaStatus::InvalidSurface));
    // and it cannot become a render target
    let cfg = d.create_config(VA_PROFILE_H264_MAIN, VA_ENTRYPOINT_ENC_PICTURE, Vec::new()).unwrap();
    let ctx = d.create_context(cfg, 64, 64, 0, &Vec::new()).unwrap();
    assert_eq!(d.begin_picture(ctx, s), Err(VaStatus::InvalidSurface));
}

#[test]
fn destroy_surfaces_is_all_or_nothing() {
    let mut d = Driver::new(PAGE);
    let s = new_surface(&mut d, VA_RT_FORMAT_YUV420, VA_FOURCC_NV12, 64, 64, 3);
    assert_eq!(d.destroy_surfaces(&vec![s, 99]), Err(VaStatus::InvalidSurface));
    // the valid handle survived the failed call
    assert!(d.sync_surface(s).is_ok());
}

#[test]
fn derive_and_export_report_same_description() {
    let mut d = Driver::new(PAGE);
    let s = new_surface(&mut d, VA_RT_FORMAT_YUV420, VA_FOURCC_NV12, 640, 480, 42);
    let img = d.derive_image(s).unwrap();
    let desc = d.export_surface_handle(s, VA_SURFACE_ATTRIB_MEM_TYPE_DRM_PRIME_2, 0).unwrap();
    assert_eq!(desc.num_objects, 1);
    assert_eq!(desc.num_layers, 1);
    assert_eq!(desc.layers[0].num_planes, img.num_planes);
    for i in 0..3 {
        assert_eq!(desc.layers[0].pitch[i], img.pitches[i]);
        assert_eq!(desc.layers[0].offset[i], img.offsets[i]);
    }
    assert_eq!(desc.objects[0].size, img.data_size);
    assert_eq!(desc.objects[0].fd, 42);
    assert_eq!(desc.fourcc, VA_FOURCC_NV12);
    // the other memory kind is unimplemented
    assert_eq!(
        d.export_surface_handle(s, VA_SURFACE_ATTRIB_MEM_TYPE_DRM_PRIME, 0).err(),
        Some(VaStatus::Unimplemented)
    );
}

#[test]
fn acquire_buffer_handle_reports_backing() {
    let mut d = Driver::new(PAGE);
    let s = new_surface(&mut d, VA_RT_FORMAT_YUV420, VA_FOURCC_NV12, 64, 64, 9);
    let img = d.derive_image(s).unwrap();
    let info = d.acquire_buffer_handle(img.buf, VA_SURFACE_ATTRIB_MEM_TYPE_DRM_PRIME).unwrap();
    assert_eq!(info.handle, 9);
    assert_eq!(info.mem_size as u32, img.data_size);
    assert!(d.release_buffer_handle(img.buf).is_ok());
    // other memory kinds, or a non-surface buffer, are unimplemented
    assert_eq!(
        d.acquire_buffer_handle(img.buf, VA_SURFACE_ATTRIB_MEM_TYPE_DRM_PRIME_2).err(),
        Some(VaStatus::Unimplemented)
    );
    let seq = d
        .create_buffer(0, VA_BUFFER_TYPE_ENC_SEQUENCE_PARAMETER, 4, 1, None)
        .unwrap();
    assert_eq!(
        d.acquire_buffer_handle(seq, VA_SURFACE_ATTRIB_MEM_TYPE_DRM_PRIME).err(),
        Some(VaStatus::Unimplemented)
    );
}

#[test]
fn image_lifecycle() {
    let mut d = Driver::new(PAGE);
    let s = new_surface(&mut d, VA_RT_FORMAT_YUV420, VA_FOURCC_NV12, 64, 64, 3);
    let img = d.derive_image(s).unwrap();
    assert_eq!(img.width, 64);
    assert_eq!(img.height, 64);
    assert!(d.destroy_image(img.image_id).is_ok());
    assert_eq!(d.destroy_image(img.image_id), Err(VaStatus::InvalidImage));
}

#[test]
fn context_lifecycle_and_errors() {
    let mut d = Driver::new(PAGE);
    assert_eq!(
        d.create_context(7, 64, 64, 0, &Vec::new()).err(),
        Some(VaStatus::InvalidConfig)
    );
    let cfg = d.create_config(VA_PROFILE_H264_MAIN, 1, Vec::new()).unwrap();
    assert_eq!(
        d.create_context(cfg, 64, 64, 0, &Vec::new()).err(),
        Some(VaStatus::Unimplemented)
    );
    let cfg2 = d.create_config(VA_PROFILE_H264_MAIN, VA_ENTRYPOINT_ENC_PICTURE, Vec::new()).unwrap();
    let ctx = d.create_context(cfg2, 64, 64, 0, &Vec::new()).unwrap();
    assert!(d.destroy_context(ctx).is_ok());
    assert_eq!(d.destroy_context(ctx), Err(VaStatus::InvalidContext));
    assert!(d.destroy_config(cfg2).is_ok());
    assert_eq!(d.destroy_config(cfg2), Err(VaStatus::InvalidConfig));
}

#[test]
fn render_requires_picture_bracket() {
    let mut d = Driver::new(PAGE);
    let s = new_surface(&mut d, VA_RT_FORMAT_YUV420, VA_FOURCC_NV12, 64, 64, 3);
    let cfg = d.create_config(VA_PROFILE_H264_MAIN, VA_ENTRYPOINT_ENC_PICTURE, Vec::new()).unwrap();
    let ctx = d.create_context(cfg, 64, 64, 0, &vec![s]).unwrap();
    // outside a begin/end bracket there is no render target
    assert_eq!(d.render_picture(ctx, &Vec::new()).err(), Some(VaStatus::InvalidSurface));
    d.begin_picture(ctx, s).unwrap();
    assert!(d.render_picture(ctx, &Vec::new()).is_ok());
    d.end_picture(ctx).unwrap();
    assert_eq!(d.render_picture(ctx, &Vec::new()).err(), Some(VaStatus::InvalidSurface));
    // stale handles are told apart by kind
    assert_eq!(d.render_picture(99, &Vec::new()).err(), Some(VaStatus::InvalidContext));
    d.begin_picture(ctx, s).unwrap();
    d.destroy_config(cfg).unwrap();
    assert_eq!(d.render_picture(ctx, &Vec::new()).err(), Some(VaStatus::InvalidConfig));
}

#[test]
fn sequence_parameter_initializes_encoder_once() {
    let mut d = Driver::new(PAGE);
    let s = new_surface(&mut d, VA_RT_FORMAT_YUV420, VA_FOURCC_NV12, 64, 64, 3);
    let ctx = enc_setup(&mut d, s);
    let mut bytes = Vec::new();
    push_u32(&mut bytes, 2_048_000);
    let seq = d
        .create_buffer(ctx, VA_BUFFER_TYPE_ENC_SEQUENCE_PARAMETER, 4, 1, Some(&bytes))
        .unwrap();
    let actions = d.render_picture(ctx, &vec![seq]).unwrap();
    assert_eq!(
        actions,
        vec![EncodeAction::BuildEncoder {
            bitrate_kbps: 2000,
            fourcc: VA_FOURCC_NV12,
            width: 64,
            height: 64,
        }]
    );
    // a second sequence parameter is rejected on an initialized session
    assert_eq!(d.render_picture(ctx, &vec![seq]).err(), Some(VaStatus::Unimplemented));
}

#[test]
fn misc_parameters_recorded_not_dropped() {
    let mut d = Driver::new(PAGE);
    let s = new_surface(&mut d, VA_RT_FORMAT_YUV420, VA_FOURCC_NV12, 64, 64, 3);
    let ctx = enc_setup(&mut d, s);
    let mut bytes = Vec::new();
    push_u32(&mut bytes, VA_ENC_MISC_TYPE_RATE_CONTROL);
    let misc = d
        .create_buffer(ctx, VA_BUFFER_TYPE_ENC_MISC_PARAMETER, 4, 1, Some(&bytes))
        .unwrap();
    assert_eq!(d.render_picture(ctx, &vec![misc]).unwrap(), Vec::new());
    // an unrecognized miscellaneous kind fails loudly
    let mut bytes2 = Vec::new();
    push_u32(&mut bytes2, 9);
    let misc2 = d
        .create_buffer(ctx, VA_BUFFER_TYPE_ENC_MISC_PARAMETER, 4, 1, Some(&bytes2))
        .unwrap();
    assert_eq!(d.render_picture(ctx, &vec![misc2]).err(), Some(VaStatus::Unimplemented));
}

#[test]
fn slice_requires_initialized_encoder_and_coded_buffer() {
    let mut d = Driver::new(PAGE);
    let s = new_surface(&mut d, VA_RT_FORMAT_YUV420, VA_FOURCC_NV12, 64, 64, 3);
    let ctx = enc_setup(&mut d, s);
    let slice = d
        .create_buffer(ctx, VA_BUFFER_TYPE_ENC_SLICE_PARAMETER, 12, 1, None)
        .unwrap();
    // no sequence parameter yet: the encoder was never constructed
    assert_eq!(d.render_picture(ctx, &vec![slice]).err(), Some(VaStatus::EncodingError));
    let mut bytes = Vec::new();
    push_u32(&mut bytes, 1_024_000);
    let seq = d
        .create_buffer(ctx, VA_BUFFER_TYPE_ENC_SEQUENCE_PARAMETER, 4, 1, Some(&bytes))
        .unwrap();
    d.render_picture(ctx, &vec![seq]).unwrap();
    // no picture parameter named a coded-output buffer yet
    assert_eq!(d.render_picture(ctx, &vec![slice]).err(), Some(VaStatus::InvalidBuffer));
}

#[test]
fn encode_flow_builds_once_and_fills_coded_buffer() {
    let mut d = Driver::new(PAGE);
    let s = new_surface(&mut d, VA_RT_FORMAT_YUV420, VA_FOURCC_NV12, 64, 64, 3);
    let ctx = enc_setup(&mut d, s);
    let coded = d.create_buffer(ctx, VA_BUFFER_TYPE_ENC_CODED, 12, 1, None).unwrap();
    let mut seq_bytes = Vec::new();
    push_u32(&mut seq_bytes, 2048);
    let seq = d
        .create_buffer(ctx, VA_BUFFER_TYPE_ENC_SEQUENCE_PARAMETER, 4, 1, Some(&seq_bytes))
        .unwrap();
    let mut pic_bytes = Vec::new();
    push_u32(&mut pic_bytes, coded);
    push_u32(&mut pic_bytes, 0);
    let pic = d
        .create_buffer(ctx, VA_BUFFER_TYPE_ENC_PICTURE_PARAMETER, 8, 1, Some(&pic_bytes))
        .unwrap();
    let slice = d
        .create_buffer(ctx, VA_BUFFER_TYPE_ENC_SLICE_PARAMETER, 12, 1, None)
        .unwrap();
    let actions = d.render_picture(ctx, &vec![seq, pic, slice]).unwrap();
    // the encoder is constructed exactly once, then fed exactly one frame
    let builds = actions
        .iter()
        .filter(|a| matches!(a, EncodeAction::BuildEncoder { .. }))
        .count();
    assert_eq!(builds, 1);
    assert_eq!(actions.len(), 2);
    match actions[1] {
        EncodeAction::EncodeFrame { frame_buffer, width, height, y_pitch, uv_offset, coded_buf, .. } => {
            assert_eq!(width, 64);
            assert_eq!(height, 64);
            assert_eq!(y_pitch, 2048);
            assert_eq!(uv_offset, 2048 * 64);
            assert_eq!(coded_buf, coded);
            let info = d
                .acquire_buffer_handle(frame_buffer, VA_SURFACE_ATTRIB_MEM_TYPE_DRM_PRIME)
                .unwrap();
            assert_eq!(info.handle, 3);
        },
        _ => panic!("expected an encode action"),
    }
    // the hosting loop hands the compressed frame back; it is then
    // retrievable through the coded-output buffer
    let compressed = vec![0x17, 0x42, 0x00, 0x1f, 0x9a];
    d.submit_coded_output(coded, compressed.clone()).unwrap();
    assert_eq!(d.map_buffer(coded).unwrap(), &compressed);
    d.end_picture(ctx).unwrap();
}

#[test]
fn buffer_lifecycle_and_mapping() {
    let mut d = Driver::new(PAGE);
    assert_eq!(d.map_buffer(0).err(), Some(VaStatus::InvalidBuffer));
    assert_eq!(d.unmap_buffer(0).err(), Some(VaStatus::InvalidBuffer));
    assert_eq!(d.sync_buffer(0, 1000).err(), Some(VaStatus::InvalidBuffer));
    let seq = d
        .create_buffer(0, VA_BUFFER_TYPE_ENC_SEQUENCE_PARAMETER, 4, 1, None)
        .unwrap();
    // parameter blocks are not mappable in place
    assert_eq!(d.map_buffer(seq).err(), Some(VaStatus::Unimplemented));
    assert!(d.unmap_buffer(seq).is_ok());
    assert!(d.sync_buffer(seq, 0).is_ok());
    assert!(d.destroy_buffer(seq).is_ok());
    assert_eq!(d.destroy_buffer(seq), Err(VaStatus::InvalidBuffer));
}

#[test]
fn surface_buffer_write_and_map() {
    let mut d = Driver::new(PAGE);
    let s = new_surface(&mut d, VA_RT_FORMAT_YUV420, VA_FOURCC_NV12, 64, 64, 3);
    let img = d.derive_image(s).unwrap();
    let len = d.map_buffer(img.buf).unwrap().len();
    assert_eq!(len as u32, img.data_size);
    d.buffer_write_bytes(img.buf, 4, &vec![7, 8, 9]).unwrap();
    let m = d.map_buffer(img.buf).unwrap();
    assert_eq!(&m[0..8], &[0, 0, 0, 0, 7, 8, 9, 0]);
    // a write past the end of the region is rejected outright
    let past = len - 1;
    assert_eq!(
        d.buffer_write_bytes(img.buf, past, &vec![1, 2]).err(),
        Some(VaStatus::InvalidParameter)
    );
}

#[test]
fn pipeline_caps_and_surface_attribute_query() {
    let mut d = Driver::new(PAGE);
    let caps = d.vpp_query_video_proc_pipeline_caps(&Vec::new()).unwrap();
    assert_eq!(caps.input_pixel_formats, vec![VA_FOURCC_BGRX]);
    assert_eq!(caps.output_pixel_formats, vec![VA_FOURCC_NV12]);
    assert_eq!(caps.num_additional_outputs, 0);
    assert_eq!((caps.min_input_width, caps.max_input_width), (2, 16384));
    assert_eq!(
        d.vpp_query_video_proc_pipeline_caps(&vec![1]).err(),
        Some(VaStatus::Unimplemented)
    );
    let cfg = d.create_config(VA_PROFILE_H264_MAIN, VA_ENTRYPOINT_VIDEO_PROC, Vec::new()).unwrap();
    assert_eq!(d.query_surface_attributes(cfg).unwrap(), Vec::new());
    assert_eq!(d.query_surface_attributes(9).err(), Some(VaStatus::InvalidConfig));
}
