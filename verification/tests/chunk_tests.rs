use sos_loadgen::chunk::{split_parts, split_payload, use_multipart, PartRange};

fn ranges(parts: &[PartRange]) -> Vec<(usize, usize)> {
    parts.iter().map(|part| (part.start, part.end)).collect()
}

#[test]
fn payload_at_threshold_is_simple() {
    assert!(!use_multipart(8_000_000, 8_000_000));
    assert!(!use_multipart(0, 0));
    assert!(!use_multipart(4_000_000, 8_000_000));
}

#[test]
fn payload_above_threshold_is_multipart() {
    assert!(use_multipart(8_000_001, 8_000_000));
    assert!(use_multipart(1, 0));
}

#[test]
fn payload_up_to_threshold_is_never_multipart() {
    for threshold in [0usize, 1, 5, 100, 8_000_000] {
        for len in [0usize, 1, 4, 5, 99, 100, 7_999_999, 8_000_000] {
            if len <= threshold {
                assert!(!use_multipart(len, threshold));
            }
        }
    }
}

#[test]
fn split_cuts_at_every_threshold() {
    let parts = split_parts(30, 10, 5);
    assert_eq!(ranges(&parts), vec![(0, 10), (10, 20), (20, 30)]);
}

#[test]
fn split_merges_an_undersized_tail() {
    // After the cut at 20 only 4 bytes would be left: the second part takes them.
    let parts = split_parts(24, 10, 5);
    assert_eq!(ranges(&parts), vec![(0, 10), (10, 24)]);
}

#[test]
fn split_keeps_a_tail_of_the_minimum() {
    let parts = split_parts(25, 10, 5);
    assert_eq!(ranges(&parts), vec![(0, 10), (10, 20), (20, 25)]);
}

#[test]
fn split_ends_where_the_cut_lies_beyond_the_payload() {
    // 14 MB at a threshold of 8 MB: the second cut would lie at 16 MB.
    let parts = split_parts(14_000_000, 8_000_000, 5_000_000);
    assert_eq!(ranges(&parts), vec![(0, 8_000_000), (8_000_000, 14_000_000)]);
}

#[test]
fn split_of_a_payload_just_above_threshold_is_one_part() {
    let parts = split_parts(8_000_001, 8_000_000, 5_000_000);
    assert_eq!(ranges(&parts), vec![(0, 8_000_001)]);
}

#[test]
fn split_of_nothing_has_no_part() {
    assert_eq!(split_parts(0, 10, 5).len(), 0);
}

#[test]
fn split_with_zero_threshold_and_small_payload_is_one_part() {
    let parts = split_parts(4, 0, 5);
    assert_eq!(ranges(&parts), vec![(0, 4)]);
}

#[test]
fn part_length_is_end_minus_start() {
    assert_eq!(PartRange { start: 10, end: 24 }.len(), 14);
    assert_eq!(PartRange { start: 0, end: 0 }.len(), 0);
}

#[test]
fn split_round_trips_and_keeps_the_minimum() {
    // A small deterministic generator gives the triples.
    let mut seed: u64 = 0x2545F4914F6CDD1D;
    let mut next = |bound: u64| -> usize {
        seed ^= seed << 13;
        seed ^= seed >> 7;
        seed ^= seed << 17;
        (seed % bound) as usize
    };
    for _ in 0..2000 {
        let len = next(400);
        let threshold = 1 + next(60);
        let minimum = next(60);
        let data: Vec<u8> = (0..len).map(|i| (i * 31 % 251) as u8).collect();
        let parts = split_parts(len, threshold, minimum);
        let chunks = split_payload(&data, threshold, minimum);
        assert_eq!(chunks.len(), parts.len());
        let mut joined: Vec<u8> = Vec::new();
        let mut pos = 0;
        for (k, part) in parts.iter().enumerate() {
            assert_eq!(part.start, pos);
            assert!(part.start < part.end);
            assert_eq!(chunks[k], &data[part.start..part.end]);
            joined.extend_from_slice(chunks[k]);
            pos = part.end;
            if k + 1 < parts.len() {
                assert_eq!(part.len(), threshold);
            } else if k > 0 {
                assert!(part.len() >= minimum);
            }
            if threshold >= minimum && len > threshold {
                assert!(part.len() >= minimum);
            }
        }
        assert_eq!(pos, len);
        assert_eq!(joined, data);
    }
}

#[test]
fn split_below_the_minimum_leaves_small_middle_parts() {
    // With a threshold below the minimum the parts before the last have the
    // threshold's size, whatever the minimum.
    let parts = split_parts(20, 1, 5);
    assert_eq!(parts.len(), 16);
    assert_eq!(ranges(&parts)[1], (1, 2));
    assert_eq!(ranges(&parts)[15], (15, 20));
}
