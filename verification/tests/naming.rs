use shardpack::shard_name::{parse_shard_name, shard_file_name};

#[test]
fn first_shard_name_is_zero_padded() {
    assert_eq!(shard_file_name(0), "00000000.tar.zstd");
}

#[test]
fn small_index_is_zero_padded() {
    assert_eq!(shard_file_name(7), "00000007.tar.zstd");
}

#[test]
fn wide_index_keeps_eight_digits() {
    assert_eq!(shard_file_name(12345678), "12345678.tar.zstd");
}

#[test]
fn largest_index_formats() {
    assert_eq!(shard_file_name(99999999), "99999999.tar.zstd");
}

#[test]
fn parse_inverts_format() {
    for idx in [0u64, 1, 9, 10, 255, 4096, 99999999] {
        let name = shard_file_name(idx);
        assert_eq!(parse_shard_name(&name), Some(idx));
    }
}

#[test]
fn parse_rejects_wrong_suffix() {
    assert_eq!(parse_shard_name("00000000.tar.gzzz"), None);
    assert_eq!(parse_shard_name("00000000.tar.zst"), None);
}

#[test]
fn parse_rejects_non_digit_prefix() {
    assert_eq!(parse_shard_name("0000000a.tar.zstd"), None);
    assert_eq!(parse_shard_name("shardfoo.tar.zstd"), None);
}

#[test]
fn parse_rejects_wrong_length() {
    assert_eq!(parse_shard_name(""), None);
    assert_eq!(parse_shard_name("0.tar.zstd"), None);
    assert_eq!(parse_shard_name("000000000.tar.zstd"), None);
}

#[test]
fn parse_rejects_non_ascii() {
    assert_eq!(parse_shard_name("0000000\u{30a2}.tar.zstd"), None);
}
