use blksweep::bytesize::parse_block_size;
use blksweep::strnum::{concat2, concat3, u32_to_string, u64_to_string};

#[test]
fn plain_byte_counts() {
    assert_eq!(parse_block_size("512"), Some(512));
    assert_eq!(parse_block_size("0"), Some(0));
    assert_eq!(parse_block_size("512B"), Some(512));
    assert_eq!(parse_block_size("512b"), Some(512));
}

#[test]
fn binary_multipliers() {
    assert_eq!(parse_block_size("4k"), Some(4096));
    assert_eq!(parse_block_size("4K"), Some(4096));
    assert_eq!(parse_block_size("4kb"), Some(4096));
    assert_eq!(parse_block_size("4KiB"), Some(4096));
    assert_eq!(parse_block_size("4kib"), Some(4096));
    assert_eq!(parse_block_size("16MiB"), Some(16 * 1048576));
    assert_eq!(parse_block_size("16m"), Some(16 * 1048576));
    assert_eq!(parse_block_size("1g"), Some(1073741824));
    assert_eq!(parse_block_size("2T"), Some(2 * 1099511627776));
}

#[test]
fn blanks_are_ignored() {
    assert_eq!(parse_block_size("16 MiB"), Some(16 * 1048576));
    assert_eq!(parse_block_size("32 KiB"), Some(32768));
    assert_eq!(parse_block_size("  8m  "), Some(8 * 1048576));
    assert_eq!(parse_block_size(" 512 "), Some(512));
}

#[test]
fn fractional_counts() {
    assert_eq!(parse_block_size("1.5KiB"), Some(1536));
    assert_eq!(parse_block_size("4.5k"), Some(4608));
    assert_eq!(parse_block_size("0.5m"), Some(524288));
    assert_eq!(parse_block_size("2.25MiB"), Some(2359296));
    assert_eq!(parse_block_size("1.5 MiB"), Some(1572864));
    // Fractions of a byte round down to whole bytes.
    assert_eq!(parse_block_size("1.5"), Some(1));
    assert_eq!(parse_block_size("0.5"), Some(0));
    assert_eq!(parse_block_size("1.000000000000000001k"), Some(1024));
}

#[test]
fn strings_outside_the_grammar() {
    assert_eq!(parse_block_size(""), None);
    assert_eq!(parse_block_size("   "), None);
    assert_eq!(parse_block_size("k"), None);
    assert_eq!(parse_block_size("4x"), None);
    assert_eq!(parse_block_size("4kk"), None);
    assert_eq!(parse_block_size("4kibs"), None);
    assert_eq!(parse_block_size("-4k"), None);
    assert_eq!(parse_block_size("4 4"), None);
    // A point needs digits on both sides, and only one point.
    assert_eq!(parse_block_size("4."), None);
    assert_eq!(parse_block_size("4.k"), None);
    assert_eq!(parse_block_size(".5"), None);
    assert_eq!(parse_block_size("1..5"), None);
    assert_eq!(parse_block_size("1.2.3"), None);
    // A fraction carries at most eighteen digits.
    assert_eq!(parse_block_size("1.0000000000000000001k"), None);
}

#[test]
fn values_over_the_machine_word() {
    assert_eq!(parse_block_size("18446744073709551615"), Some(u64::MAX));
    assert_eq!(parse_block_size("18446744073709551616"), None);
    assert_eq!(parse_block_size("99999999999999999999999"), None);
    assert_eq!(parse_block_size("18014398509481984k"), None);
}

#[test]
fn decimal_rendering() {
    assert_eq!(u64_to_string(0).as_str(), "0");
    assert_eq!(u64_to_string(7).as_str(), "7");
    assert_eq!(u64_to_string(1026).as_str(), "1026");
    assert_eq!(u64_to_string(u64::MAX).as_str(), "18446744073709551615");
    assert_eq!(u32_to_string(4294967295).as_str(), "4294967295");
}

#[test]
fn concatenation() {
    assert_eq!(concat2("ab", "cd").as_str(), "abcd");
    assert_eq!(concat3("/a", "/b", "/c").as_str(), "/a/b/c");
    assert_eq!(concat2("", "").as_str(), "");
}
