use media::h264::{create_avcc_chunk, parse_avcc_chunk};
use media::videodecoder::{HeaderError, VideoHeaders};

fn headers(sps: Vec<Vec<u8>>, pps: Vec<Vec<u8>>) -> VideoHeaders {
    VideoHeaders { sps, pps }
}

#[test]
fn record_bytes_exact() {
    let h = headers(vec![vec![103, 66, 0, 30]], vec![vec![104]]);
    let record = create_avcc_chunk(&h).unwrap();
    assert_eq!(
        record,
        vec![1, 66, 0, 30, 255, 225, 0, 4, 103, 66, 0, 30, 1, 0, 1, 104]
    );
}

#[test]
fn round_trip_single() {
    let h = headers(vec![vec![103, 66, 0, 30]], vec![vec![104, 206, 60, 128]]);
    let record = create_avcc_chunk(&h).unwrap();
    let back = parse_avcc_chunk(&record).expect("a built record parses");
    assert_eq!(back.sps, vec![vec![103, 66, 0, 30]]);
    assert_eq!(back.pps, vec![vec![104, 206, 60, 128]]);
}

#[test]
fn round_trip_many_units_keeps_order() {
    let long_unit: Vec<u8> = (0..300).map(|i| (i % 251) as u8).collect();
    let sps = vec![vec![103, 100, 0, 40, 7], long_unit.clone(), vec![103, 1]];
    let pps = vec![vec![104, 1], vec![104, 2], vec![104, 3]];
    let h = headers(sps.clone(), pps.clone());
    let record = create_avcc_chunk(&h).unwrap();
    let back = parse_avcc_chunk(&record).expect("a built record parses");
    assert_eq!(back.sps, sps);
    assert_eq!(back.pps, pps);
}

#[test]
fn two_byte_length_prefix_is_big_endian() {
    let long_unit: Vec<u8> = vec![9; 300];
    let h = headers(vec![vec![103, 66, 0, 30]], vec![long_unit]);
    let record = create_avcc_chunk(&h).unwrap();
    // The picture-parameter section starts after the header, the one
    // 4-byte sequence unit with its prefix, and the count byte.
    let pps_section = 6 + 2 + 4 + 1;
    assert_eq!(record[pps_section], 1); // 300 = 1 * 256 + 44
    assert_eq!(record[pps_section + 1], 44);
    assert_eq!(record.len(), pps_section + 2 + 300);
}

#[test]
fn no_sps_fails() {
    let h = headers(vec![], vec![vec![104]]);
    assert_eq!(create_avcc_chunk(&h), Err(HeaderError::MalformedHeaders));
}

#[test]
fn no_pps_fails() {
    let h = headers(vec![vec![103, 66, 0, 30]], vec![]);
    assert_eq!(create_avcc_chunk(&h), Err(HeaderError::MalformedHeaders));
}

#[test]
fn oversize_unit_fails() {
    let h = headers(vec![vec![103, 66, 0, 30]], vec![vec![0; 65536]]);
    assert_eq!(create_avcc_chunk(&h), Err(HeaderError::MalformedHeaders));
}

#[test]
fn largest_unit_that_fits_round_trips() {
    let big: Vec<u8> = vec![7; 65535];
    let h = headers(vec![vec![103, 66, 0, 30]], vec![big.clone()]);
    let record = create_avcc_chunk(&h).unwrap();
    let back = parse_avcc_chunk(&record).expect("a built record parses");
    assert_eq!(back.pps, vec![big]);
}

#[test]
fn short_first_sps_fails() {
    let h = headers(vec![vec![103, 66]], vec![vec![104]]);
    assert_eq!(create_avcc_chunk(&h), Err(HeaderError::MalformedHeaders));
}

#[test]
fn too_many_sps_fails() {
    let sps: Vec<Vec<u8>> = (0..32).map(|_| vec![103, 66, 0, 30]).collect();
    let h = headers(sps, vec![vec![104]]);
    assert_eq!(create_avcc_chunk(&h), Err(HeaderError::MalformedHeaders));
}

#[test]
fn too_many_pps_fails() {
    let pps: Vec<Vec<u8>> = (0..256).map(|_| vec![104]).collect();
    let h = headers(vec![vec![103, 66, 0, 30]], pps);
    assert_eq!(create_avcc_chunk(&h), Err(HeaderError::MalformedHeaders));
}

#[test]
fn parse_rejects_truncated_record() {
    let h = headers(vec![vec![103, 66, 0, 30]], vec![vec![104]]);
    let mut record = create_avcc_chunk(&h).unwrap();
    record.pop();
    assert!(parse_avcc_chunk(&record).is_none());
}

#[test]
fn parse_rejects_trailing_bytes() {
    let h = headers(vec![vec![103, 66, 0, 30]], vec![vec![104]]);
    let mut record = create_avcc_chunk(&h).unwrap();
    record.push(0);
    assert!(parse_avcc_chunk(&record).is_none());
}

#[test]
fn parse_rejects_bad_version() {
    let h = headers(vec![vec![103, 66, 0, 30]], vec![vec![104]]);
    let mut record = create_avcc_chunk(&h).unwrap();
    record[0] = 2;
    assert!(parse_avcc_chunk(&record).is_none());
}
