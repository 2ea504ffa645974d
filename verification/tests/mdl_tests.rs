//! End-to-end tests of the decoder and the mesh builder on concrete files.

use mdl_loader::build;
use mdl_loader::decode;
use mdl_loader::BuildError;
use mdl_loader::Flags;
use mdl_loader::FormatError;
use mdl_loader::Frame;
use mdl_loader::MDLFile;
use mdl_loader::Vec3;
use mdl_loader::VertexInternal;

fn push_f32(bytes: &mut Vec<u8>, v: f32) {
    bytes.extend_from_slice(&v.to_le_bytes());
}

/// A minimal file: no optional sections, three vertices, one frame, one
/// triangle.
fn scenario_a_bytes() -> Vec<u8> {
    let mut bytes: Vec<u8> = Vec::new();
    bytes.extend_from_slice(b"MDL\0");
    bytes.push(0x00); // flags: no normals, no texture coords, no colors
    bytes.push(3); // faces index arity
    bytes.extend_from_slice(&3u16.to_le_bytes()); // vertex count
    bytes.extend_from_slice(&1u16.to_le_bytes()); // frame count
    bytes.extend_from_slice(&3u16.to_le_bytes()); // index count
    for idx in [0u16, 1, 2] {
        bytes.extend_from_slice(&idx.to_le_bytes());
    }
    for (x, y, z) in [(0.0f32, 0.0f32, 0.0f32), (1.0, 0.0, 0.0), (0.0, 1.0, 0.0)] {
        push_f32(&mut bytes, x);
        push_f32(&mut bytes, y);
        push_f32(&mut bytes, z);
    }
    bytes
}

/// Like scenario A, but with the normals flag set and a (0,0,1) normal on
/// every vertex.
fn scenario_b_bytes() -> Vec<u8> {
    let mut bytes: Vec<u8> = Vec::new();
    bytes.extend_from_slice(b"MDL\0");
    bytes.push(0x01); // flags: normals only
    bytes.push(3);
    bytes.extend_from_slice(&3u16.to_le_bytes());
    bytes.extend_from_slice(&1u16.to_le_bytes());
    bytes.extend_from_slice(&3u16.to_le_bytes());
    for idx in [0u16, 1, 2] {
        bytes.extend_from_slice(&idx.to_le_bytes());
    }
    for (x, y, z) in [(0.0f32, 0.0f32, 0.0f32), (1.0, 0.0, 0.0), (0.0, 1.0, 0.0)] {
        push_f32(&mut bytes, x);
        push_f32(&mut bytes, y);
        push_f32(&mut bytes, z);
        // normal (0, 0, 1)
        push_f32(&mut bytes, 0.0);
        push_f32(&mut bytes, 0.0);
        push_f32(&mut bytes, 1.0);
    }
    bytes
}

/// A file with texture coordinates and colors: flags 0x06, two vertices,
/// one frame, two indices.
fn scenario_tex_colors_bytes() -> Vec<u8> {
    let mut bytes: Vec<u8> = Vec::new();
    bytes.extend_from_slice(b"MDL\0");
    bytes.push(0x06); // flags: texture coords and colors
    bytes.push(3);
    bytes.extend_from_slice(&2u16.to_le_bytes());
    bytes.extend_from_slice(&1u16.to_le_bytes());
    // texture coordinates: (0.25, 0.5), (0.75, 1.0)
    for uv in [0.25f32, 0.5, 0.75, 1.0] {
        push_f32(&mut bytes, uv);
    }
    // colors
    bytes.extend_from_slice(&[10, 20, 30, 40, 50, 60, 70, 80]);
    bytes.extend_from_slice(&2u16.to_le_bytes());
    for idx in [0u16, 1] {
        bytes.extend_from_slice(&idx.to_le_bytes());
    }
    for _ in 0..2 {
        push_f32(&mut bytes, 0.0);
        push_f32(&mut bytes, 0.0);
        push_f32(&mut bytes, 0.0);
    }
    bytes
}

#[test]
fn scenario_a_decodes() {
    let bytes = scenario_a_bytes();
    let m = decode(&bytes).expect("scenario A must decode");
    assert!(m.texture_cords.is_none());
    assert!(m.colors.is_none());
    assert_eq!(m.idx_per_face, 3);
    assert_eq!(m.vertex_count, 3);
    assert_eq!(m.frame_count, 1);
    assert_eq!(m.index_count, 3);
    assert_eq!(m.indexs, vec![0, 1, 2]);
    assert_eq!(m.frames.len(), 1);
    assert_eq!(m.frames[0].vertex_buff.len(), 3);
    assert!(m.frames[0].vertex_buff[1].normals.is_none());
    assert_eq!(m.frames[0].vertex_buff[1].position.x, 1.0f32.to_bits());
    assert_eq!(m.frames[0].vertex_buff[2].position.y, 1.0f32.to_bits());
    assert_eq!(m.frames[0].vertex_buff[0].position.z, 0.0f32.to_bits());
}

#[test]
fn scenario_b_decodes_with_normals() {
    let bytes = scenario_b_bytes();
    let m = decode(&bytes).expect("scenario B must decode");
    assert!(m.flags.norm);
    for vert in &m.frames[0].vertex_buff {
        let n = vert.normals.expect("every vertex must carry a normal");
        assert_eq!(n.x, 0.0f32.to_bits());
        assert_eq!(n.y, 0.0f32.to_bits());
        assert_eq!(n.z, 1.0f32.to_bits());
    }
    let mesh = build(&m).expect("scenario B must build");
    assert_eq!(mesh.frame_stride, 72);
    assert_eq!(mesh.frame_buffer.len(), 72);
}

#[test]
fn scenario_c_truncated_mid_header() {
    let mut bytes = scenario_a_bytes();
    bytes.truncate(10);
    assert_eq!(decode(&bytes), Err(FormatError::Truncated));
}

#[test]
fn scenario_d_bad_magic() {
    let mut bytes = scenario_a_bytes();
    bytes[0] = b'X';
    assert_eq!(decode(&bytes), Err(FormatError::BadMagic));
}

#[test]
fn decoding_is_deterministic() {
    let bytes = scenario_b_bytes();
    let m1 = decode(&bytes).expect("must decode");
    let m2 = decode(&bytes).expect("must decode");
    assert_eq!(m1, m2);
}

#[test]
fn truncation_at_every_offset_fails() {
    for bytes in [scenario_a_bytes(), scenario_b_bytes(), scenario_tex_colors_bytes()] {
        for k in 0..bytes.len() {
            let cut = bytes[..k].to_vec();
            assert_eq!(decode(&cut), Err(FormatError::Truncated), "cut at {}", k);
        }
    }
}

#[test]
fn corrupting_each_magic_byte_fails() {
    let bytes = scenario_a_bytes();
    for i in 0..4 {
        let mut bad = bytes.clone();
        bad[i] = bad[i].wrapping_add(1);
        assert_eq!(decode(&bad), Err(FormatError::BadMagic), "byte {}", i);
    }
}

#[test]
fn trailing_bytes_are_ignored() {
    let mut bytes = scenario_a_bytes();
    let expected = decode(&bytes).expect("must decode");
    bytes.extend_from_slice(&[0xAA, 0xBB, 0xCC]);
    let with_trailing = decode(&bytes).expect("must still decode");
    assert_eq!(expected, with_trailing);
}

#[test]
fn unknown_flag_bits_are_preserved() {
    let mut bytes = scenario_a_bytes();
    bytes[4] = 0xF8; // only the five reserved bits
    let m = decode(&bytes).expect("must decode");
    assert!(!m.flags.norm && !m.flags.txtr && !m.flags.clrs);
    assert!(m.flags.unk0 && m.flags.unk1 && m.flags.unk2 && m.flags.unk3 && m.flags.unk4);
    assert!(m.texture_cords.is_none());
    assert!(m.colors.is_none());
}

#[test]
fn optional_sections_follow_flags() {
    let bytes = scenario_tex_colors_bytes();
    let m = decode(&bytes).expect("must decode");
    let tc = m.texture_cords.as_ref().expect("texture coords present");
    let cl = m.colors.as_ref().expect("colors present");
    assert_eq!(tc.len(), m.vertex_count as usize);
    assert_eq!(cl.len(), m.vertex_count as usize);
    assert_eq!(tc[0].x, 0.25f32.to_bits());
    assert_eq!(tc[1].y, 1.0f32.to_bits());
    assert_eq!(cl[1].r, 50);
    assert_eq!(cl[1].a, 80);
}

#[test]
fn fixed_and_index_buffers_are_byte_exact() {
    let bytes = scenario_tex_colors_bytes();
    let m = decode(&bytes).expect("must decode");
    let mesh = build(&m).expect("must build");
    // The fixed buffer is the texture-coordinate section followed by the
    // color section, exactly as they stood in the file (offsets 10..26
    // and 26..34).
    assert_eq!(mesh.fixed_buffer, bytes[10..34].to_vec());
    // The index buffer is the raw index section (offsets 36..40).
    assert_eq!(mesh.index_buffer, bytes[36..40].to_vec());
    assert_eq!(mesh.num_elements, 2);
    assert_eq!(mesh.num_frames, 1);
    assert_eq!(mesh.frame_stride, 48);
}

#[test]
fn frame_buffer_zero_fills_missing_normals() {
    let bytes = scenario_a_bytes();
    let m = decode(&bytes).expect("must decode");
    let mesh = build(&m).expect("must build");
    assert_eq!(mesh.frame_stride, 72);
    assert_eq!(mesh.frame_buffer.len(), 72);
    // Each 24-byte record is 12 bytes of position from the file followed
    // by 12 zero bytes standing in for the absent normal.
    let positions = &bytes[18..54];
    for v in 0..3 {
        assert_eq!(
            &mesh.frame_buffer[v * 24..v * 24 + 12],
            &positions[v * 12..v * 12 + 12]
        );
        assert_eq!(&mesh.frame_buffer[v * 24 + 12..v * 24 + 24], &[0u8; 12]);
    }
}

#[test]
fn empty_model_is_rejected() {
    let no_vertices = MDLFile {
        flags: Flags {
            norm: false,
            txtr: false,
            clrs: false,
            unk0: false,
            unk1: false,
            unk2: false,
            unk3: false,
            unk4: false,
        },
        idx_per_face: 3,
        vertex_count: 0,
        frame_count: 1,
        texture_cords: None,
        colors: None,
        index_count: 0,
        indexs: vec![],
        frames: vec![Frame { vertex_buff: vec![] }],
    };
    assert_eq!(build(&no_vertices), Err(BuildError::EmptyModel));
    let mut no_frames = no_vertices.clone();
    no_frames.vertex_count = 1;
    no_frames.frame_count = 0;
    no_frames.frames = vec![];
    assert_eq!(build(&no_frames), Err(BuildError::EmptyModel));
}

#[test]
fn inconsistent_lengths_are_rejected() {
    let bytes = scenario_a_bytes();
    let m = decode(&bytes).expect("must decode");

    let mut wrong_indices = m.clone();
    wrong_indices.indexs.pop();
    assert_eq!(build(&wrong_indices), Err(BuildError::InconsistentLengths));

    let mut wrong_frames = m.clone();
    wrong_frames.frames.pop();
    assert_eq!(build(&wrong_frames), Err(BuildError::InconsistentLengths));

    let mut short_frame = m.clone();
    short_frame.frames[0].vertex_buff.pop();
    assert_eq!(build(&short_frame), Err(BuildError::InconsistentLengths));

    let mut stray_tex = m;
    stray_tex.texture_cords = Some(vec![]);
    assert_eq!(build(&stray_tex), Err(BuildError::InconsistentLengths));
}

#[test]
fn empty_model_detected_before_lengths() {
    // A model that is both empty and inconsistent reports EmptyModel.
    let both = MDLFile {
        flags: Flags {
            norm: false,
            txtr: false,
            clrs: false,
            unk0: false,
            unk1: false,
            unk2: false,
            unk3: false,
            unk4: false,
        },
        idx_per_face: 3,
        vertex_count: 0,
        frame_count: 1,
        texture_cords: None,
        colors: None,
        index_count: 5,
        indexs: vec![],
        frames: vec![],
    };
    assert_eq!(build(&both), Err(BuildError::EmptyModel));
}

#[test]
fn builder_does_not_mutate_its_input() {
    let bytes = scenario_b_bytes();
    let m = decode(&bytes).expect("must decode");
    let copy = m.clone();
    let _ = build(&m).expect("must build");
    assert_eq!(m, copy);
}

#[test]
fn normal_bytes_are_packed_after_positions() {
    let bytes = scenario_b_bytes();
    let m = decode(&bytes).expect("must decode");
    let mesh = build(&m).expect("must build");
    // With normals present, every 24-byte record equals the file's own
    // vertex record: the frame buffer is the frame section verbatim.
    assert_eq!(mesh.frame_buffer, bytes[18..90].to_vec());
}

#[test]
fn vertex_positions_survive_empty_frames_edge() {
    // Smallest decodable file: one vertex, one frame, no indices.
    let mut bytes: Vec<u8> = Vec::new();
    bytes.extend_from_slice(b"MDL\0");
    bytes.push(0x00);
    bytes.push(3);
    bytes.extend_from_slice(&1u16.to_le_bytes());
    bytes.extend_from_slice(&1u16.to_le_bytes());
    bytes.extend_from_slice(&0u16.to_le_bytes());
    push_f32(&mut bytes, 2.5);
    push_f32(&mut bytes, -1.0);
    push_f32(&mut bytes, 0.5);
    let m = decode(&bytes).expect("must decode");
    assert_eq!(m.index_count, 0);
    assert!(m.indexs.is_empty());
    let v: &VertexInternal = &m.frames[0].vertex_buff[0];
    assert_eq!(v.position, Vec3 {
        x: 2.5f32.to_bits(),
        y: (-1.0f32).to_bits(),
        z: 0.5f32.to_bits(),
    });
    let mesh = build(&m).expect("must build");
    assert_eq!(mesh.num_elements, 0);
    assert_eq!(mesh.index_buffer.len(), 0);
    assert_eq!(mesh.frame_stride, 24);
}
