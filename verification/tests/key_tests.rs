use sos_loadgen::key::{get_s3_path, sample_delimiter, sample_prefix, INDEX_WIDTH};
use sos_loadgen::text::{decimal_len, decimal_string};

#[test]
fn path_of_index_zero() {
    assert_eq!(get_s3_path(0), "/sample/000000.bin");
}

#[test]
fn path_is_zero_padded_to_six_digits() {
    assert_eq!(get_s3_path(7), "/sample/000007.bin");
    assert_eq!(get_s3_path(42), "/sample/000042.bin");
    assert_eq!(get_s3_path(123456), "/sample/123456.bin");
    assert_eq!(get_s3_path(999999), "/sample/999999.bin");
    assert_eq!(INDEX_WIDTH, 6);
}

#[test]
fn path_grows_beyond_six_digits() {
    assert_eq!(get_s3_path(1000000), "/sample/1000000.bin");
    assert_eq!(get_s3_path(4294967295), "/sample/4294967295.bin");
}

#[test]
fn path_matches_std_formatting() {
    for index in [0usize, 1, 9, 10, 99, 100, 63, 64, 99999, 100000, 999999, 1000000, 12345678] {
        assert_eq!(get_s3_path(index), format!("/sample/{index:06}.bin"));
    }
}

#[test]
fn path_is_deterministic() {
    for index in 0..64usize {
        assert_eq!(get_s3_path(index), get_s3_path(index));
    }
}

#[test]
fn paths_are_distinct_within_the_working_set() {
    let step = 64usize;
    for i in 0..step {
        for j in 0..step {
            if i != j {
                assert_ne!(get_s3_path(i), get_s3_path(j));
            }
        }
    }
}

#[test]
fn paths_lie_directly_under_the_prefix() {
    assert_eq!(sample_prefix(), "/sample/");
    assert_eq!(sample_delimiter(), "/");
    for index in [0usize, 5, 63, 1000000] {
        let path = get_s3_path(index);
        assert!(path.starts_with(sample_prefix()));
        assert!(!path[sample_prefix().len()..].contains(sample_delimiter()));
    }
}

#[test]
fn decimal_of_numbers() {
    assert_eq!(decimal_string(0), "0");
    assert_eq!(decimal_string(9), "9");
    assert_eq!(decimal_string(10), "10");
    assert_eq!(decimal_string(8000000), "8000000");
    assert_eq!(decimal_string(u64::MAX), "18446744073709551615");
}

#[test]
fn decimal_length_of_numbers() {
    assert_eq!(decimal_len(0), 1);
    assert_eq!(decimal_len(9), 1);
    assert_eq!(decimal_len(10), 2);
    assert_eq!(decimal_len(999999), 6);
    assert_eq!(decimal_len(u64::MAX), 20);
}
