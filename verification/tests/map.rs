use flo_core::map::MapSha1;

#[test]
fn sha1_to_vec_has_the_digest_bytes() {
    let mut bytes = [0u8; 20];
    for (i, b) in bytes.iter_mut().enumerate() {
        *b = i as u8 + 1;
    }
    let sha1 = MapSha1(bytes);
    assert_eq!(sha1.to_vec(), bytes.to_vec());
}

#[test]
fn sha1_unpack_pads_short_input_with_zeros() {
    let sha1 = MapSha1::unpack(vec![1, 2, 3]);
    let mut expected = [0u8; 20];
    expected[0] = 1;
    expected[1] = 2;
    expected[2] = 3;
    assert_eq!(sha1.0, expected);
}

#[test]
fn sha1_unpack_cuts_long_input() {
    let input: Vec<u8> = (0u8..30).collect();
    let sha1 = MapSha1::unpack(input.clone());
    assert_eq!(sha1.0.to_vec(), input[0..20].to_vec());
}

#[test]
fn sha1_pack_round_trip() {
    let input: Vec<u8> = (100u8..120).collect();
    assert_eq!(MapSha1::unpack(input.clone()).pack(), input);
}
