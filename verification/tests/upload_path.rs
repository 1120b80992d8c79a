use render_core::error::RenderError;
use render_core::shader::shader_words;
use render_core::upload::{
    check_payload_fits, check_vertices_fit, total_vertex_count, FramePayload, ImageResources,
    VertexGroup,
};

fn group(category: u64, vertex_count: u64) -> VertexGroup {
    VertexGroup {
        category,
        vertex_count,
    }
}

#[test]
fn total_vertex_count_sums_groups() {
    let groups = vec![group(0, 3), group(1, 6), group(2, 0)];
    assert_eq!(total_vertex_count(&groups), Some(9));
    let empty: Vec<VertexGroup> = Vec::new();
    assert_eq!(total_vertex_count(&empty), Some(0));
}

#[test]
fn total_vertex_count_detects_overflow() {
    let groups = vec![group(0, u64::MAX), group(1, 1)];
    assert_eq!(total_vertex_count(&groups), None);
}

#[test]
fn vertices_fit_is_exact_at_the_boundary() {
    // 32 vertices of 32 bytes exactly fill 1024 bytes.
    assert!(check_vertices_fit(32, 32, 1024));
    assert!(!check_vertices_fit(33, 32, 1024));
    assert!(check_vertices_fit(0, 32, 0));
}

#[test]
fn payload_fits_checks_both_buffers() {
    let fits = FramePayload {
        groups: vec![group(0, 16), group(1, 16)],
        overlay_vertex_count: 32,
    };
    assert!(check_payload_fits(&fits, 32, 32, 1024));
    let geometry_too_big = FramePayload {
        groups: vec![group(0, 17), group(1, 16)],
        overlay_vertex_count: 0,
    };
    assert!(!check_payload_fits(&geometry_too_big, 32, 32, 1024));
    let overlay_too_big = FramePayload {
        groups: Vec::new(),
        overlay_vertex_count: 33,
    };
    assert!(!check_payload_fits(&overlay_too_big, 32, 32, 1024));
    let overflowing = FramePayload {
        groups: vec![group(0, u64::MAX), group(1, 2)],
        overlay_vertex_count: 0,
    };
    assert!(!check_payload_fits(&overflowing, 32, 32, 1024));
}

#[test]
fn staging_transfer_draw_lengths_agree() {
    let mut r = ImageResources::new(1024, 32, 16);
    r.stage(9, 6);
    assert_eq!(r.staged_vertices, 9);
    assert_eq!(r.staged_bytes, 288);
    assert_eq!(r.overlay_staged_vertices, 6);
    assert_eq!(r.overlay_staged_bytes, 96);
    assert_eq!(r.device_bytes, 0);
    r.record_transfer();
    assert_eq!(r.device_bytes, 288);
    assert_eq!(r.overlay_device_bytes, 96);
    r.record_draw();
    assert_eq!(r.draw_vertices, 9);
    assert_eq!(r.overlay_draw_vertices, 6);
    // Restaging marks new lengths without touching the recorded copies
    // until they are re-recorded.
    r.stage(4, 0);
    assert_eq!(r.staged_bytes, 128);
    assert_eq!(r.device_bytes, 288);
    r.record_transfer();
    assert_eq!(r.device_bytes, 128);
}

#[test]
fn shader_words_decodes_little_endian() {
    // The SPIR-V magic number, byte-reversed on disk.
    let code = vec![0x03u8, 0x02, 0x23, 0x07];
    assert_eq!(shader_words(&code), Ok(vec![0x0723_0203u32]));
    let two = vec![0x01u8, 0x00, 0x00, 0x00, 0xff, 0xff, 0xff, 0xff];
    assert_eq!(shader_words(&two), Ok(vec![1u32, u32::MAX]));
    let empty: Vec<u8> = Vec::new();
    assert_eq!(shader_words(&empty), Ok(Vec::new()));
}

#[test]
fn shader_words_rejects_ragged_length() {
    let code = vec![0x03u8, 0x02, 0x23];
    assert_eq!(
        shader_words(&code),
        Err(RenderError::InvalidShaderLength { len: 3 })
    );
}
