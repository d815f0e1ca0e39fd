use rustracer::chunk::{buffer_len, plan_chunks, store_pixels, Chunk};

#[test]
fn chunks_are_equal_and_consecutive() {
    let chunks = plan_chunks(4, 2, 4);
    assert_eq!(
        chunks,
        vec![
            Chunk { start: 0, len: 6 },
            Chunk { start: 6, len: 6 },
            Chunk { start: 12, len: 6 },
            Chunk { start: 18, len: 6 },
        ]
    );
}

#[test]
fn dividing_chunk_count_writes_each_pixel_once() {
    let (width, height, chunk_count) = (6usize, 4usize, 8usize);
    let chunks = plan_chunks(width, height, chunk_count);
    let mut pixel_writes = vec![0u32; width * height];
    let mut byte_owners = vec![0u32; width * height * 3];
    for chunk in chunks.iter() {
        assert_eq!(chunk.start % 3, 0);
        for i in 0..chunk.pixel_count() {
            pixel_writes[chunk.first_pixel() + i] += 1;
        }
        for b in chunk.start..chunk.start + chunk.len {
            byte_owners[b] += 1;
        }
    }
    assert!(pixel_writes.iter().all(|&n| n == 1));
    assert!(byte_owners.iter().all(|&n| n == 1));
}

#[test]
fn remainder_belongs_to_no_chunk() {
    // 12 bytes in 5 chunks: 2 bytes each, the last 2 bytes are left out,
    // and a chunk shorter than a pixel renders no texel.
    let chunks = plan_chunks(2, 2, 5);
    assert_eq!(chunks.len(), 5);
    assert_eq!(chunks[4], Chunk { start: 8, len: 2 });
    assert!(chunks.iter().all(|c| c.pixel_count() == 0));
}

#[test]
fn one_chunk_covers_the_whole_buffer() {
    let chunks = plan_chunks(400, 200, 1);
    assert_eq!(chunks, vec![Chunk { start: 0, len: 240000 }]);
    assert_eq!(chunks[0].pixel_count(), 80000);
}

#[test]
fn more_chunks_than_bytes_gives_empty_chunks() {
    let chunks = plan_chunks(1, 1, 4);
    assert_eq!(chunks.len(), 4);
    assert!(chunks.iter().all(|c| c.len == 0 && c.start == 0));
}

#[test]
fn texel_positions_follow_the_global_offset() {
    let chunk = Chunk { start: 30, len: 9 };
    assert_eq!(chunk.first_pixel(), 10);
    assert_eq!(chunk.pixel_count(), 3);
    assert_eq!(chunk.pixel_position(0, 4), (2, 2));
    assert_eq!(chunk.pixel_position(1, 4), (2, 3));
    assert_eq!(chunk.pixel_position(2, 4), (3, 0));
}

#[test]
fn buffer_len_counts_three_channels() {
    assert_eq!(buffer_len(400, 200), Some(240000));
    assert_eq!(buffer_len(0, 7), Some(0));
    assert_eq!(buffer_len(usize::MAX, 2), None);
    assert_eq!(buffer_len(usize::MAX / 3 + 1, 1), None);
}

#[test]
fn store_pixels_writes_channels_in_order() {
    let mut bytes = vec![9u8; 8];
    store_pixels(&mut bytes, &vec![(1, 2, 3), (4, 5, 6)]);
    assert_eq!(bytes, vec![1, 2, 3, 4, 5, 6, 9, 9]);
}

#[test]
fn store_pixels_into_a_slice_of_a_larger_buffer() {
    let mut buffer = vec![0u8; 12];
    let (_, tail) = buffer.split_at_mut(6);
    store_pixels(tail, &vec![(255, 128, 0), (7, 8, 9)]);
    assert_eq!(buffer, vec![0, 0, 0, 0, 0, 0, 255, 128, 0, 7, 8, 9]);
}
