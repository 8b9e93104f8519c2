use mstsc_bridge::config::{password_hash, screen_size, ConfigError, ScreenSize};

#[test]
fn screen_size_reads_both_dimensions() {
    assert_eq!(screen_size("1600", "1200"), Ok(ScreenSize { width: 1600, height: 1200 }));
    assert_eq!(screen_size("+1", "65535"), Ok(ScreenSize { width: 1, height: 65535 }));
}

#[test]
fn screen_size_refuses_zero_and_garbage() {
    assert_eq!(screen_size("0", "10"), Err(ConfigError::BadWidth));
    assert_eq!(screen_size("", "10"), Err(ConfigError::BadWidth));
    assert_eq!(screen_size("-5", "10"), Err(ConfigError::BadWidth));
    assert_eq!(screen_size("65536", "10"), Err(ConfigError::BadWidth));
    assert_eq!(screen_size(" 80", "10"), Err(ConfigError::BadWidth));
    assert_eq!(screen_size("80", "0"), Err(ConfigError::BadHeight));
    assert_eq!(screen_size("80", "1e3"), Err(ConfigError::BadHeight));
}

#[test]
fn password_hash_decodes_hex_pairs() {
    assert_eq!(password_hash("0aFF10"), Ok(vec![0x0a, 0xff, 0x10]));
    assert_eq!(password_hash(""), Ok(vec![]));
}

#[test]
fn password_hash_refuses_odd_or_non_hex_text() {
    assert_eq!(password_hash("abc"), Err(ConfigError::BadHash));
    assert_eq!(password_hash("zz"), Err(ConfigError::BadHash));
    assert_eq!(password_hash("é1"), Err(ConfigError::BadHash));
}
