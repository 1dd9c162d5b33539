//! Tests of the pure frame-pipeline model: aspect ratio, format choice,
//! rotation accumulation, the uniform block, and the geometry encoding.

use gpu_frame::gpu::{aspect_ratio_parts, choose_format_index};
use gpu_frame::scene::rotation_step;
use gpu_frame::uniform::{write_bytes_at, UniformBuffer, UNIFORM_BLOCK_SIZE};
use gpu_frame::vertex::{demo_indices, demo_vertices, encode_indices, encode_vertices, push_u32_le,
    Vertex, COLOR_OFFSET, VERTEX_STRIDE};

#[test]
fn aspect_ratio_is_width_over_height() {
    let (num, den) = aspect_ratio_parts(1920, 1080);
    assert_eq!((num, den), (1920, 1080));
    assert!((num as f32 / den as f32 - 1920.0 / 1080.0).abs() < 1e-6);
    let (num, den) = aspect_ratio_parts(800, 600);
    assert_eq!(num as f32 / den as f32, 800.0 / 600.0);
}

#[test]
fn aspect_ratio_guards_zero_height() {
    let (num, den) = aspect_ratio_parts(640, 0);
    assert_eq!((num, den), (640, 1));
    let ratio = num as f32 / den as f32;
    assert_eq!(ratio, 640.0);
    assert!(ratio.is_finite());
}

#[test]
fn format_choice_prefers_first_non_srgb() {
    assert_eq!(choose_format_index(&vec![true, false, false]), 1);
    assert_eq!(choose_format_index(&vec![false, true]), 0);
    assert_eq!(choose_format_index(&vec![true, true, true]), 0);
    assert_eq!(choose_format_index(&vec![false]), 0);
}

#[test]
fn rotation_accumulates_thirty_degrees_per_second() {
    // 16 ms at 30 degrees per second: 0.48 degrees, exactly 480000
    // micro-degrees.
    assert_eq!(rotation_step(0, 16_000), 480_000);
    let degrees = rotation_step(0, 1_000_000) as f64 / 1_000_000.0;
    assert_eq!(degrees, 30.0);
}

#[test]
fn rotation_zero_delta_is_identity() {
    let mut rot: u64 = 123_456;
    for _ in 0..10 {
        rot = rotation_step(rot, 0);
    }
    assert_eq!(rot, 123_456);
}

#[test]
fn rotation_is_linear_in_elapsed_time() {
    let whole = rotation_step(7, 16_000);
    let halves = rotation_step(rotation_step(7, 8_000), 8_000);
    assert_eq!(whole, halves);
}

#[test]
fn uniform_block_starts_zeroed() {
    let block = UniformBuffer::default();
    assert_eq!(block.data.len(), UNIFORM_BLOCK_SIZE);
    assert!(block.data.iter().all(|b| *b == 0));
}

#[test]
fn uniform_write_round_trips() {
    // A known matrix image: 64 distinct bytes written at offset 0 read back
    // byte-identical.
    let mut store = UniformBuffer::default().data;
    let matrix: Vec<u8> = (0..64u8).collect();
    write_bytes_at(&mut store, 0, &matrix);
    assert_eq!(store, matrix);
}

#[test]
fn uniform_partial_write_splices() {
    let mut store = vec![9u8; 8];
    let data = vec![1u8, 2, 3];
    write_bytes_at(&mut store, 2, &data);
    assert_eq!(store, vec![9, 9, 1, 2, 3, 9, 9, 9]);
}

#[test]
fn u32_encoding_is_little_endian() {
    let mut out = Vec::new();
    push_u32_le(&mut out, 0x0403_0201);
    assert_eq!(out, vec![1, 2, 3, 4]);
    let mut out = Vec::new();
    push_u32_le(&mut out, 1.0f32.to_bits());
    assert_eq!(out, 1.0f32.to_le_bytes().to_vec());
}

#[test]
fn demo_geometry_matches_float_layout() {
    let vertices = demo_vertices();
    assert_eq!(vertices.len(), 3);
    let bytes = encode_vertices(&vertices);
    assert_eq!(bytes.len() as u64, 3 * VERTEX_STRIDE);
    // The first vertex is position (1, -1, 0, 1), color (1, 0, 0, 1); its
    // bytes must equal the IEEE-754 words of those values.
    let expected: Vec<u8> = [1.0f32, -1.0, 0.0, 1.0, 1.0, 0.0, 0.0, 1.0]
        .iter()
        .flat_map(|f| f.to_le_bytes())
        .collect();
    assert_eq!(&bytes[..32], &expected[..]);
    // The third vertex is the top center, colored blue.
    let expected_top: Vec<u8> = [0.0f32, 1.0, 0.0, 1.0, 0.0, 0.0, 1.0, 1.0]
        .iter()
        .flat_map(|f| f.to_le_bytes())
        .collect();
    assert_eq!(&bytes[64..96], &expected_top[..]);
}

#[test]
fn demo_indices_are_clockwise_triangle() {
    let indices = demo_indices();
    assert_eq!(indices, vec![0, 1, 2]);
    let bytes = encode_indices(&indices);
    assert_eq!(bytes, vec![0, 0, 0, 0, 1, 0, 0, 0, 2, 0, 0, 0]);
}

#[test]
fn vertex_layout_matches_shader_contract() {
    let attributes = Vertex::vertex_attributes();
    assert_eq!(attributes.len(), 2);
    assert_eq!(attributes[0].offset, 0);
    assert_eq!(attributes[0].shader_location, 0);
    assert_eq!(attributes[1].offset, COLOR_OFFSET);
    assert_eq!(attributes[1].shader_location, 1);
    let layout = Vertex::description(&attributes);
    assert_eq!(layout.array_stride, VERTEX_STRIDE);
    assert!(layout.step_per_vertex);
}
