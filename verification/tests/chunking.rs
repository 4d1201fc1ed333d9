use tcp_relay::chunk_bytes;
use tcp_relay::relay_direction;

#[test]
fn ping_is_cut_into_three_chunks_with_buffer_two() {
    let data: Vec<u8> = b"PING\n".to_vec();
    let chunks = chunk_bytes(&data, 2);
    assert_eq!(chunks.len(), 3);
    assert_eq!(chunks[0], b"PI".to_vec());
    assert_eq!(chunks[1], b"NG".to_vec());
    assert_eq!(chunks[2], b"\n".to_vec());
}

#[test]
fn empty_stream_has_no_chunks() {
    let data: Vec<u8> = Vec::new();
    let chunks = chunk_bytes(&data, 4096);
    assert!(chunks.is_empty());
}

#[test]
fn buffer_one_cuts_into_single_bytes() {
    let data: Vec<u8> = b"abc".to_vec();
    let chunks = chunk_bytes(&data, 1);
    assert_eq!(chunks.len(), 3);
    assert_eq!(chunks[0], vec![b'a']);
    assert_eq!(chunks[1], vec![b'b']);
    assert_eq!(chunks[2], vec![b'c']);
}

#[test]
fn buffer_larger_than_stream_gives_one_chunk() {
    let data: Vec<u8> = b"PING\n".to_vec();
    let chunks = chunk_bytes(&data, 4096);
    assert_eq!(chunks.len(), 1);
    assert_eq!(chunks[0], data);
}

#[test]
fn every_chunk_but_the_last_is_full() {
    let data: Vec<u8> = (0u8..=255u8).collect();
    let chunks = chunk_bytes(&data, 7);
    for (i, chunk) in chunks.iter().enumerate() {
        assert!(!chunk.is_empty());
        assert!(chunk.len() <= 7);
        if i + 1 < chunks.len() {
            assert_eq!(chunk.len(), 7);
        }
    }
}

#[test]
fn varying_buffer_sizes_deliver_identical_streams() {
    let data: Vec<u8> = (0u32..10_000).map(|i| (i % 251) as u8).collect();
    let expected = relay_direction(&data, 4096);
    assert_eq!(expected, data);
    for size in [1usize, 7, 4096, 65536] {
        let delivered = relay_direction(&data, size);
        assert_eq!(delivered, expected);
        let reassembled: Vec<u8> = chunk_bytes(&data, size).concat();
        assert_eq!(reassembled, data);
    }
}
