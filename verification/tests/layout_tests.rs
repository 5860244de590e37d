//! Alignment, surface layout and parameter-block parsing behavior.

use va_x264::buffer::{buffer_from_type, Buffer};
use va_x264::format::{
    align_up, surface_layout, MAX_DIM, VA_FOURCC_BGRX, VA_FOURCC_NV12, VA_RT_FORMAT_RGB32,
    VA_RT_FORMAT_YUV420,
};
use va_x264::params::{
    VA_BUFFER_TYPE_ENC_CODED, VA_BUFFER_TYPE_ENC_MISC_PARAMETER,
    VA_BUFFER_TYPE_ENC_PICTURE_PARAMETER, VA_BUFFER_TYPE_ENC_SEQUENCE_PARAMETER,
    VA_BUFFER_TYPE_ENC_SLICE_PARAMETER, VA_BUFFER_TYPE_PROC_PIPELINE_PARAMETER,
};
use va_x264::status::VaStatus;

fn push_u32(v: &mut Vec<u8>, x: u32) {
    v.push((x & 0xff) as u8);
    v.push(((x >> 8) & 0xff) as u8);
    v.push(((x >> 16) & 0xff) as u8);
    v.push(((x >> 24) & 0xff) as u8);
}

#[test]
fn align_up_values() {
    assert_eq!(align_up(0, 512), 0);
    assert_eq!(align_up(1, 512), 512);
    assert_eq!(align_up(512, 512), 512);
    assert_eq!(align_up(513, 512), 1024);
    assert_eq!(align_up(640, 2048), 2048);
    assert_eq!(align_up(4096, 4096), 4096);
    assert_eq!(align_up(4097, 4096), 8192);
}

#[test]
fn bgrx_layout_values() {
    let l = surface_layout(VA_RT_FORMAT_RGB32, VA_FOURCC_BGRX, 1920, 1080).unwrap();
    assert_eq!(l.planes.len(), 1);
    assert_eq!(l.planes[0].pitch, 7680);
    assert_eq!(l.planes[0].offset, 0);
    assert_eq!(l.size, 7680 * 1080);
    assert_eq!(l.format.fourcc, VA_FOURCC_BGRX);
    assert_eq!(l.format.bits_per_pixel, 32);
}

#[test]
fn nv12_layout_values() {
    let l = surface_layout(VA_RT_FORMAT_YUV420, VA_FOURCC_NV12, 1920, 1080).unwrap();
    assert_eq!(l.planes.len(), 2);
    assert_eq!(l.planes[0].pitch, 2048);
    assert_eq!(l.planes[0].offset, 0);
    assert_eq!(l.planes[1].pitch, 2048);
    assert_eq!(l.planes[1].offset, 2048 * 1080);
    assert_eq!(l.size, 2048 * (1080 + 540));
    assert_eq!(l.format.fourcc, VA_FOURCC_NV12);
    assert_eq!(l.format.bits_per_pixel, 12);
}

#[test]
fn nv12_layout_odd_height_rounds_chroma_up() {
    let l = surface_layout(VA_RT_FORMAT_YUV420, VA_FOURCC_NV12, 100, 101).unwrap();
    assert_eq!(l.size, 2048 * (101 + 51));
}

#[test]
fn layout_rejects_unsupported_combo() {
    assert_eq!(
        surface_layout(VA_RT_FORMAT_YUV420, VA_FOURCC_BGRX, 64, 64),
        Err(VaStatus::Unimplemented)
    );
    assert_eq!(
        surface_layout(VA_RT_FORMAT_RGB32, VA_FOURCC_NV12, 64, 64),
        Err(VaStatus::Unimplemented)
    );
    assert_eq!(surface_layout(0x400, VA_FOURCC_NV12, 64, 64), Err(VaStatus::Unimplemented));
}

#[test]
fn layout_rejects_bad_dimensions() {
    assert_eq!(
        surface_layout(VA_RT_FORMAT_YUV420, VA_FOURCC_NV12, 0, 64),
        Err(VaStatus::InvalidParameter)
    );
    assert_eq!(
        surface_layout(VA_RT_FORMAT_YUV420, VA_FOURCC_NV12, 64, 0),
        Err(VaStatus::InvalidParameter)
    );
    assert_eq!(
        surface_layout(VA_RT_FORMAT_YUV420, VA_FOURCC_NV12, MAX_DIM + 1, 64),
        Err(VaStatus::InvalidParameter)
    );
    assert!(surface_layout(VA_RT_FORMAT_YUV420, VA_FOURCC_NV12, MAX_DIM, MAX_DIM).is_ok());
}

#[test]
fn buffer_rejects_multiple_elements() {
    let r = buffer_from_type(VA_BUFFER_TYPE_ENC_SEQUENCE_PARAMETER, 4, 2, None);
    assert_eq!(r.err(), Some(VaStatus::Unimplemented));
}

#[test]
fn buffer_rejects_short_parameter_block() {
    assert_eq!(
        buffer_from_type(VA_BUFFER_TYPE_ENC_SEQUENCE_PARAMETER, 3, 1, None).err(),
        Some(VaStatus::InvalidParameter)
    );
    assert_eq!(
        buffer_from_type(VA_BUFFER_TYPE_PROC_PIPELINE_PARAMETER, 27, 1, None).err(),
        Some(VaStatus::InvalidParameter)
    );
    assert_eq!(
        buffer_from_type(VA_BUFFER_TYPE_ENC_PICTURE_PARAMETER, 7, 1, None).err(),
        Some(VaStatus::InvalidParameter)
    );
    assert_eq!(
        buffer_from_type(VA_BUFFER_TYPE_ENC_SLICE_PARAMETER, 11, 1, None).err(),
        Some(VaStatus::InvalidParameter)
    );
    assert_eq!(
        buffer_from_type(VA_BUFFER_TYPE_ENC_MISC_PARAMETER, 3, 1, None).err(),
        Some(VaStatus::InvalidParameter)
    );
    assert_eq!(
        buffer_from_type(VA_BUFFER_TYPE_ENC_CODED, 11, 1, None).err(),
        Some(VaStatus::InvalidParameter)
    );
}

#[test]
fn sequence_parameter_parses_bitrate() {
    let mut data = Vec::new();
    push_u32(&mut data, 2_048_000);
    match buffer_from_type(VA_BUFFER_TYPE_ENC_SEQUENCE_PARAMETER, 4, 1, Some(&data)).unwrap() {
        Buffer::EncSequence(s) => assert_eq!(s.bits_per_second, 2_048_000),
        _ => panic!("wrong buffer kind"),
    }
}

#[test]
fn sequence_parameter_defaults_to_zero() {
    match buffer_from_type(VA_BUFFER_TYPE_ENC_SEQUENCE_PARAMETER, 4, 1, None).unwrap() {
        Buffer::EncSequence(s) => assert_eq!(s.bits_per_second, 0),
        _ => panic!("wrong buffer kind"),
    }
}

#[test]
fn picture_parameter_parses_coded_buffer_handle() {
    let mut data = Vec::new();
    push_u32(&mut data, 7);
    push_u32(&mut data, 3);
    match buffer_from_type(VA_BUFFER_TYPE_ENC_PICTURE_PARAMETER, 8, 1, Some(&data)).unwrap() {
        Buffer::EncPicture(p) => {
            assert_eq!(p.coded_buf, 7);
            assert_eq!(p.frame_num, 3);
        },
        _ => panic!("wrong buffer kind"),
    }
}

#[test]
fn pipeline_parameter_parses_region_and_flags() {
    let mut data = Vec::new();
    push_u32(&mut data, 5); // input surface
    push_u32(&mut data, 1); // region present, nothing else
    push_u32(&mut data, 0); // x
    push_u32(&mut data, 0); // y
    push_u32(&mut data, 640); // width
    push_u32(&mut data, 480); // height
    push_u32(&mut data, 0); // filters
    match buffer_from_type(VA_BUFFER_TYPE_PROC_PIPELINE_PARAMETER, 28, 1, Some(&data)).unwrap() {
        Buffer::ProcPipeline(p) => {
            assert_eq!(p.surface, 5);
            let reg = p.surface_region.unwrap();
            assert_eq!((reg.x, reg.y, reg.width, reg.height), (0, 0, 640, 480));
            assert!(!p.has_output_region);
            assert!(!p.has_blend_state);
            assert!(!p.has_additional_outputs);
            assert_eq!(p.num_filters, 0);
        },
        _ => panic!("wrong buffer kind"),
    }
}

#[test]
fn misc_parameter_keeps_payload() {
    let mut data = Vec::new();
    push_u32(&mut data, 1); // rate control
    data.push(9);
    data.push(8);
    match buffer_from_type(VA_BUFFER_TYPE_ENC_MISC_PARAMETER, 6, 1, Some(&data)).unwrap() {
        Buffer::EncMisc(m) => {
            assert_eq!(m.param_type, 1);
            assert_eq!(m.data, vec![9, 8]);
        },
        _ => panic!("wrong buffer kind"),
    }
}

#[test]
fn unrecognized_type_stored_as_blob() {
    match buffer_from_type(2, 5, 1, None).unwrap() {
        Buffer::Generic(g) => {
            assert_eq!(g.mem_type, 2);
            assert_eq!(g.data, vec![0, 0, 0, 0, 0]);
        },
        _ => panic!("wrong buffer kind"),
    }
    let data = vec![1, 2, 3];
    match buffer_from_type(2, 3, 1, Some(&data)).unwrap() {
        Buffer::Generic(g) => assert_eq!(g.data, vec![1, 2, 3]),
        _ => panic!("wrong buffer kind"),
    }
}

#[test]
fn coded_buffer_starts_empty() {
    match buffer_from_type(VA_BUFFER_TYPE_ENC_CODED, 12, 1, None).unwrap() {
        Buffer::CodedSegment(cs) => {
            assert_eq!(cs.size, 0);
            assert!(cs.data.is_empty());
        },
        _ => panic!("wrong buffer kind"),
    }
}
