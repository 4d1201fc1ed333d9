use tcp_relay::relay_direction;

#[test]
fn fifty_sessions_each_deliver_their_own_stream() {
    let sources: Vec<Vec<u8>> = (0u8..50)
        .map(|i| (0u32..200).map(|j| (i as u32 * 131 + j * 17) as u8).collect())
        .collect();
    let delivered: Vec<Vec<u8>> = sources.iter().map(|s| relay_direction(s, 16)).collect();
    for (i, out) in delivered.iter().enumerate() {
        assert_eq!(*out, sources[i]);
        for (j, other) in sources.iter().enumerate() {
            if i != j {
                assert_ne!(*out, *other);
            }
        }
    }
}

#[test]
fn distinct_buffer_sizes_per_session_change_nothing() {
    let left: Vec<u8> = b"session one payload".to_vec();
    let right: Vec<u8> = b"session two payload".to_vec();
    let left_out = relay_direction(&left, 3);
    let right_out = relay_direction(&right, 64);
    assert_eq!(left_out, left);
    assert_eq!(right_out, right);
    assert_ne!(left_out, right_out);
}
