use bevy_wireframe::compute::{
    face_buffer_size, pad_positions, workgroup_count, FaceLabel, PosBuffer, PrepareAssetError,
};
use bevy_wireframe::pad;

fn bits(v: [f32; 3]) -> [u32; 3] {
    [v[0].to_bits(), v[1].to_bits(), v[2].to_bits()]
}

#[test]
fn pad_appends_zero() {
    let padded = pad(bits([1.0, -2.5, 3.25]));
    assert_eq!(padded, [1.0f32.to_bits(), (-2.5f32).to_bits(), 3.25f32.to_bits(), 0]);
    assert_eq!(f32::from_bits(padded[3]), 0.0);
}

#[test]
fn pad_keeps_every_bit_pattern() {
    assert_eq!(pad([u32::MAX, 0, 0x8000_0000]), [u32::MAX, 0, 0x8000_0000, 0]);
}

#[test]
fn pad_positions_pads_each_in_order() {
    let positions = vec![[1, 2, 3], [4, 5, 6], [7, 8, 9]];
    assert_eq!(pad_positions(&positions), vec![[1, 2, 3, 0], [4, 5, 6, 0], [7, 8, 9, 0]]);
    assert_eq!(pad_positions(&Vec::new()), Vec::<[u32; 4]>::new());
}

#[test]
fn face_buffer_size_is_sixteen_bytes_per_triangle() {
    assert_eq!(face_buffer_size(0), 0);
    assert_eq!(face_buffer_size(3), 16);
    assert_eq!(face_buffer_size(6), 32);
    assert_eq!(face_buffer_size(36), 192);
}

#[test]
fn face_buffer_size_rounds_down() {
    assert_eq!(face_buffer_size(1), 5);
    assert_eq!(face_buffer_size(2), 10);
    assert_eq!(face_buffer_size(4), 21);
    assert_eq!(face_buffer_size(5), 26);
}

#[test]
fn face_buffer_size_of_largest_mesh() {
    assert_eq!(face_buffer_size(u32::MAX), 22_906_492_240);
}

#[test]
fn workgroup_count_is_one_per_whole_triangle() {
    assert_eq!(workgroup_count(0), 0);
    assert_eq!(workgroup_count(2), 0);
    assert_eq!(workgroup_count(3), 1);
    assert_eq!(workgroup_count(7), 2);
    assert_eq!(workgroup_count(36), 12);
}

#[test]
fn workgroup_count_is_cut_to_32_bits() {
    let max = u32::MAX as usize;
    assert_eq!(workgroup_count(max), 1_431_655_765);
    if usize::BITS == 64 {
        let wrap = 3usize * 0x1_0000_0000;
        assert_eq!(workgroup_count(wrap), 0);
        assert_eq!(workgroup_count(wrap + 3), 1);
        assert_eq!(workgroup_count(wrap - 1), u32::MAX);
    }
}

#[test]
fn face_buffer_has_room_for_every_workgroup() {
    for vertex_count in [0u32, 1, 2, 3, 4, 5, 6, 100, 101, 102, 65_535, u32::MAX] {
        let slots = 16 * workgroup_count(vertex_count as usize) as u64;
        let size = face_buffer_size(vertex_count);
        assert!(slots <= size);
        if vertex_count % 3 == 0 {
            assert_eq!(slots, size);
        }
    }
}

#[test]
fn byte_len_is_sixteen_bytes_per_vertex() {
    assert_eq!(PosBuffer::byte_len(0), Some(0));
    assert_eq!(PosBuffer::byte_len(1), Some(16));
    assert_eq!(PosBuffer::byte_len(3), Some(48));
    assert_eq!(PosBuffer::byte_len(usize::MAX / 16), Some(usize::MAX / 16 * 16));
}

#[test]
fn prepare_asset_without_positions_retries() {
    let result = PosBuffer::prepare_asset(None, 3);
    assert!(matches!(result, Err(PrepareAssetError::RetryNextUpdate)));
}

#[test]
fn prepare_asset_lays_out_padded_positions() {
    let triangle = [[0.0f32, 0.0, 0.0], [1.0, 0.0, 0.0], [0.0, 1.0, -4.5]];
    let positions: Vec<[u32; 3]> = triangle.iter().map(|p| bits(*p)).collect();
    let buffer = PosBuffer::prepare_asset(Some(&positions), 3).unwrap();
    assert_eq!(buffer.vertex_count, 3);
    let mut expected: Vec<u8> = Vec::new();
    for p in triangle {
        for component in [p[0], p[1], p[2], 0.0] {
            expected.extend_from_slice(&component.to_ne_bytes());
        }
    }
    assert_eq!(buffer.contents.len(), 48);
    assert_eq!(buffer.contents, expected);
}

#[test]
fn prepare_asset_bytes_differ_from_the_words() {
    let positions = vec![[0x0403_0201u32, 0x0807_0605, 0x0c0b_0a09]];
    let buffer = PosBuffer::prepare_asset(Some(&positions), 1).unwrap();
    let least_first: Vec<u8> = vec![1, 2, 3, 4, 5, 6, 7, 8, 9, 10, 11, 12, 0, 0, 0, 0];
    let most_first: Vec<u8> = vec![4, 3, 2, 1, 8, 7, 6, 5, 12, 11, 10, 9, 0, 0, 0, 0];
    assert!(buffer.contents == least_first || buffer.contents == most_first);
}

#[test]
fn prepare_asset_keeps_the_vertex_count_it_is_given() {
    let positions = vec![[1u32, 2, 3], [4, 5, 6]];
    let buffer = PosBuffer::prepare_asset(Some(&positions), 1).unwrap();
    assert_eq!(buffer.vertex_count, 1);
    assert_eq!(buffer.contents.len(), 32);
    let empty = PosBuffer::prepare_asset(Some(&Vec::new()), 0).unwrap();
    assert_eq!(empty.vertex_count, 0);
    assert!(empty.contents.is_empty());
}

#[test]
fn face_label_is_one_value() {
    assert_eq!(FaceLabel, FaceLabel.clone());
    assert_eq!(format!("{:?}", FaceLabel), "FaceLabel");
}
