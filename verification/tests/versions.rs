use std::cmp::Ordering;

use rzup::text::{render_decimal, strip_prefix};
use rzup::version::SemverParts;
use rzup::Version;

fn parts(major: u64, minor: u64, patch: u64, pre: &str, build: &str) -> SemverParts {
    SemverParts { major, minor, patch, pre: pre.to_string(), build: build.to_string() }
}

#[test]
fn render_decimal_of_small_and_large_numbers() {
    assert_eq!(render_decimal(0), "0");
    assert_eq!(render_decimal(7), "7");
    assert_eq!(render_decimal(9), "9");
    assert_eq!(render_decimal(10), "10");
    assert_eq!(render_decimal(101), "101");
    assert_eq!(render_decimal(1234567890), "1234567890");
    assert_eq!(render_decimal(u64::MAX), "18446744073709551615");
}

#[test]
fn render_decimal_agrees_with_std() {
    for n in [0u64, 1, 9, 10, 11, 99, 100, 999, 1000, 65535, 4294967296, u64::MAX - 1] {
        assert_eq!(render_decimal(n), format!("{}", n));
    }
}

#[test]
fn strip_prefix_takes_the_prefix_off() {
    assert_eq!(strip_prefix("v1.2.3", "v"), Some("1.2.3"));
    assert_eq!(strip_prefix("r0.2.1.0", "r0."), Some("2.1.0"));
    assert_eq!(strip_prefix("v", "v"), Some(""));
    assert_eq!(strip_prefix("abc", ""), Some("abc"));
    assert_eq!(strip_prefix("", ""), Some(""));
}

#[test]
fn strip_prefix_refuses_other_texts() {
    assert_eq!(strip_prefix("1.2.3", "v"), None);
    assert_eq!(strip_prefix("r0", "r0."), None);
    assert_eq!(strip_prefix("", "v"), None);
    assert_eq!(strip_prefix("V1.2.3", "v"), None);
    assert_eq!(strip_prefix("r1.2.1.0", "r0."), None);
}

#[test]
fn strip_prefix_counts_characters_not_bytes() {
    assert_eq!(strip_prefix("\u{e9}t\u{e9}", "\u{e9}"), Some("t\u{e9}"));
    assert_eq!(strip_prefix("\u{e9}t\u{e9}", "e"), None);
    assert_eq!(strip_prefix("v\u{1f600}1", "v"), Some("\u{1f600}1"));
}

#[test]
fn version_to_string_is_major_minor_patch() {
    assert_eq!(Version::new(1, 2, 3).to_string(), "1.2.3");
    assert_eq!(Version::new(0, 0, 0).to_string(), "0.0.0");
    assert_eq!(Version::new(10, 0, 200).to_string(), "10.0.200");
    assert_eq!(
        Version::new(u64::MAX, 0, u64::MAX).to_string(),
        "18446744073709551615.0.18446744073709551615"
    );
}

#[test]
fn version_parse_reads_three_numbers() {
    assert_eq!(Version::parse("1.2.3"), Some(Version::new(1, 2, 3)));
    assert_eq!(Version::parse("0.0.0"), Some(Version::new(0, 0, 0)));
    assert_eq!(Version::parse("2.1.0"), Some(Version::new(2, 1, 0)));
    assert_eq!(
        Version::parse("18446744073709551615.18446744073709551615.18446744073709551615"),
        Some(Version::new(u64::MAX, u64::MAX, u64::MAX))
    );
}

#[test]
fn version_parse_refuses_what_is_not_three_numbers() {
    assert_eq!(Version::parse(""), None);
    assert_eq!(Version::parse("1"), None);
    assert_eq!(Version::parse("1.2"), None);
    assert_eq!(Version::parse("1.2."), None);
    assert_eq!(Version::parse("1.2.3.4"), None);
    assert_eq!(Version::parse("1.2.x"), None);
    assert_eq!(Version::parse("a.b.c"), None);
    assert_eq!(Version::parse(" 1.2.3"), None);
    assert_eq!(Version::parse("1.2.3 "), None);
    assert_eq!(Version::parse("-1.2.3"), None);
}

#[test]
fn version_parse_refuses_leading_zeros_and_overflow() {
    assert_eq!(Version::parse("01.2.3"), None);
    assert_eq!(Version::parse("1.02.3"), None);
    assert_eq!(Version::parse("1.2.03"), None);
    assert_eq!(Version::parse("18446744073709551616.0.0"), None);
    assert_eq!(Version::parse("0.0.99999999999999999999"), None);
}

#[test]
fn version_parse_refuses_pre_release_and_build_suffixes() {
    assert_eq!(Version::parse("1.2.3-rc.1"), None);
    assert_eq!(Version::parse("1.2.3-alpha"), None);
    assert_eq!(Version::parse("1.2.3+build.5"), None);
    assert_eq!(Version::parse("1.2.3-rc.1+build.5"), None);
    assert_eq!(Version::parse("1.2.3-"), None);
    assert_eq!(Version::parse("1.2.3+"), None);
}

#[test]
fn version_from_parsed_keeps_plain_versions_only() {
    assert_eq!(Version::from_parsed(None), None);
    assert_eq!(Version::from_parsed(Some(parts(1, 2, 3, "", ""))), Some(Version::new(1, 2, 3)));
    assert_eq!(Version::from_parsed(Some(parts(0, 0, 0, "", ""))), Some(Version::new(0, 0, 0)));
    assert_eq!(Version::from_parsed(Some(parts(1, 2, 3, "rc.1", ""))), None);
    assert_eq!(Version::from_parsed(Some(parts(1, 2, 3, "", "build"))), None);
    assert_eq!(Version::from_parsed(Some(parts(1, 2, 3, "rc.1", "build"))), None);
}

#[test]
fn version_text_reads_back_as_the_version() {
    let numbers = [0u64, 1, 9, 10, 99, 100, 4294967295, 4294967296, u64::MAX];
    for major in numbers {
        for minor in numbers {
            for patch in numbers {
                let v = Version::new(major, minor, patch);
                assert_eq!(Version::parse(&v.to_string()), Some(v));
            }
        }
    }
}

#[test]
fn versions_are_ordered_by_major_then_minor_then_patch() {
    assert!(Version::new(1, 5, 0) < Version::new(1, 19, 0));
    assert!(Version::new(1, 9, 9) < Version::new(2, 0, 0));
    assert!(Version::new(1, 2, 3) < Version::new(1, 2, 4));
    assert!(Version::new(0, 0, 0) <= Version::new(0, 0, 0));
    assert_eq!(Version::new(3, 2, 1), Version::new(3, 2, 1));
    assert_ne!(Version::new(3, 2, 1), Version::new(1, 2, 3));
    assert_eq!(Version::new(4, 5, 6).major, 4);
    assert_eq!(Version::new(4, 5, 6).minor, 5);
    assert_eq!(Version::new(4, 5, 6).patch, 6);
}

#[test]
fn comparison_operators_agree_with_the_order() {
    let versions = [
        Version::new(0, 0, 0),
        Version::new(0, 0, 1),
        Version::new(0, 1, 0),
        Version::new(0, 9, 9),
        Version::new(1, 0, 0),
        Version::new(1, 5, 0),
        Version::new(1, 19, 0),
        Version::new(u64::MAX, u64::MAX, u64::MAX),
    ];
    for (i, a) in versions.iter().enumerate() {
        for (j, b) in versions.iter().enumerate() {
            let expected = i.cmp(&j);
            assert_eq!(a.partial_cmp(b), Some(expected));
            assert_eq!(a.cmp(b), expected);
            assert_eq!(a < b, expected == Ordering::Less);
            assert_eq!(a > b, expected == Ordering::Greater);
            assert_eq!(a == b, expected == Ordering::Equal);
        }
    }
}
