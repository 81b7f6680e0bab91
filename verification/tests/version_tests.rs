use nvim_updater::error::ErrorKind;
use nvim_updater::precedence::VersionOrder;
use nvim_updater::version::{decimal_text, Version};

fn parsed(text: &str) -> Version {
    Version::parse(text).unwrap()
}

#[test]
fn parse_reads_the_three_numbers() {
    let v = parsed("1.3.0");
    assert_eq!(v.major(), 1);
    assert_eq!(v.minor(), 3);
    assert_eq!(v.patch(), 0);
    assert_eq!(v.pre(), "");
    assert_eq!(v.build(), "");
    assert_eq!(v, Version::new(1, 3, 0));
}

#[test]
fn parse_reads_pre_release_and_build_metadata() {
    let v = parsed("1.0.0-alpha.1+zstd.1.5.0");
    assert_eq!((v.major(), v.minor(), v.patch()), (1, 0, 0));
    assert_eq!(v.pre(), "alpha.1");
    assert_eq!(v.build(), "zstd.1.5.0");
    let w = parsed("0.8.1+001");
    assert_eq!(w.pre(), "");
    assert_eq!(w.build(), "001");
    let x = parsed("1.2.3-a-b.0");
    assert_eq!(x.pre(), "a-b.0");
    assert_eq!(x.build(), "");
}

#[test]
fn parse_takes_the_largest_numbers() {
    let v = parsed("18446744073709551615.0.18446744073709551615");
    assert_eq!(v.major(), u64::MAX);
    assert_eq!(v.minor(), 0);
    assert_eq!(v.patch(), u64::MAX);
}

#[test]
fn parse_refuses_what_is_not_the_text_of_a_version() {
    let refused = [
        "",
        "1",
        "1.0",
        "1.0.0.0",
        "v1.0.0",
        " 1.0.0",
        "1.0.0 ",
        "1.0.0\n",
        "1.0.01",
        "01.0.0",
        "1.0.unknown",
        "1.0.0-",
        "1.0.0+",
        "1.0.0-+b",
        "1.0.0-alpha_123",
        "1.0.0-a..b",
        "1.0.0-.a",
        "1.0.0-a.",
        "1.0.0-01",
        "1.0.0-a.00",
        "1.0.0+a+b",
        "1.0.0+\u{e9}",
        "18446744073709551616.0.0",
        "23456789999999999999.0.0",
    ];
    for text in refused {
        let e = Version::parse(text).unwrap_err();
        assert_eq!(e.kind(), ErrorKind::Parse, "{:?}", text);
        assert!(e.cause.is_none(), "{:?}", text);
        assert!(!e.message.is_empty(), "{:?}", text);
    }
}

#[test]
fn parse_says_what_is_wrong() {
    let e = Version::parse("1.q.r").unwrap_err();
    assert_eq!(e.message, "unexpected character 'q' while parsing minor version number");
}

#[test]
fn to_text_is_what_was_parsed() {
    let texts = [
        "0.0.0",
        "0.9.2",
        "1.2.3",
        "10.20.30",
        "1.0.0-alpha",
        "1.0.0-alpha.1",
        "1.0.0-0.3.7",
        "1.0.0-x-y-z.--",
        "1.0.0+20130313144700",
        "1.0.0-beta+exp.sha.5114f85",
        "1.0.0+21AF26D3----117B344092BD",
        "1.0.0+0.00.000",
        "18446744073709551615.18446744073709551615.18446744073709551615",
    ];
    for text in texts {
        assert_eq!(parsed(text).to_text(), text);
        assert_eq!(parsed(&parsed(text).to_text()), parsed(text));
    }
}

#[test]
fn to_text_of_a_release() {
    assert_eq!(Version::new(0, 9, 2).to_text(), "0.9.2");
    assert_eq!(Version::new(1, 3, 0).to_text(), "1.3.0");
    assert_eq!(Version::new(100, 0, 7).to_text(), "100.0.7");
    assert_eq!(Version::new(u64::MAX, 0, 0).to_text(), "18446744073709551615.0.0");
}

#[test]
fn decimal_text_has_no_leading_zeros() {
    assert_eq!(decimal_text(0), "0");
    assert_eq!(decimal_text(7), "7");
    assert_eq!(decimal_text(10), "10");
    assert_eq!(decimal_text(1009), "1009");
    assert_eq!(decimal_text(18446744073709551615), "18446744073709551615");
}

#[test]
fn none_installed_is_zero() {
    let v = Version::none_installed();
    assert_eq!(v, Version::new(0, 0, 0));
    assert_eq!(v.to_text(), "0.0.0");
    assert_eq!(v, parsed("0.0.0"));
}

#[test]
fn duplicate_is_equal() {
    let v = parsed("1.2.3-rc.1+build.5");
    assert_eq!(v.duplicate(), v);
}

#[test]
fn order_follows_the_numbers() {
    let a = Version::new(1, 5, 0);
    let b = Version::new(1, 19, 0);
    assert_eq!(a.order(&b), VersionOrder::Older);
    assert_eq!(b.order(&a), VersionOrder::Newer);
    assert_eq!(a.order(&a), VersionOrder::Same);
    assert_eq!(Version::new(2, 0, 0).order(&Version::new(1, 99, 99)), VersionOrder::Newer);
    assert_eq!(Version::new(1, 2, 3).order(&Version::new(1, 2, 4)), VersionOrder::Older);
}

fn assert_ascending(texts: &[&str]) {
    for i in 0..texts.len() {
        for j in 0..texts.len() {
            let expected = if i < j {
                VersionOrder::Older
            } else if i == j {
                VersionOrder::Same
            } else {
                VersionOrder::Newer
            };
            assert_eq!(parsed(texts[i]).order(&parsed(texts[j])), expected, "{} and {}", texts[i], texts[j]);
        }
    }
}

#[test]
fn order_of_pre_releases() {
    assert_ascending(&[
        "1.0.0-alpha",
        "1.0.0-alpha.1",
        "1.0.0-alpha.beta",
        "1.0.0-beta",
        "1.0.0-beta.2",
        "1.0.0-beta.11",
        "1.0.0-rc.1",
        "1.0.0",
    ]);
    assert_ascending(&[
        "1.0.0-alpha",
        "1.0.0-alpha.85",
        "1.0.0-alpha.90",
        "1.0.0-alpha.200",
        "1.0.0-alpha.0a",
        "1.0.0-alpha.1a0",
        "1.0.0-alpha.a",
        "1.0.0-beta",
    ]);
    assert_ascending(&["1.0.0-pre.8", "1.0.0-pre.12", "1.0.0-pre.x", "1.0.0-pre12", "1.0.0-pre8"]);
    assert_ascending(&["1.0.0-0", "1.0.0-1", "1.0.0-9", "1.0.0-10", "1.0.0-18446744073709551616", "1.0.0--"]);
}

#[test]
fn order_of_build_metadata() {
    assert_ascending(&[
        "1.0.0",
        "1.0.0+demo",
        "1.0.0+demo.85",
        "1.0.0+demo.90",
        "1.0.0+demo.090",
        "1.0.0+demo.200",
        "1.0.0+demo.1a0",
        "1.0.0+demo.a",
        "1.0.0+memo",
    ]);
    assert_ascending(&[
        "1.0.0+0",
        "1.0.0+00",
        "1.0.0+1",
        "1.0.0+01",
        "1.0.0+001",
        "1.0.0+2",
        "1.0.0+02",
        "1.0.0+002",
        "1.0.0+10",
    ]);
    assert_ascending(&["1.20.0", "1.20.0+bc17664", "1.20.0+c144a98"]);
}

#[test]
fn order_puts_the_pre_release_before_the_build_metadata() {
    assert_ascending(&["1.0.0-alpha+z", "1.0.0-beta+a", "1.0.0+a", "1.0.1-alpha"]);
}

#[test]
fn order_is_transitive_on_a_mixed_lot() {
    let texts = [
        "0.0.0",
        "0.9.2",
        "0.10.0-dev",
        "0.10.0-dev.1",
        "0.10.0-dev.1+g1",
        "0.10.0-dev.1+g2",
        "0.10.0",
        "0.10.0+1",
        "1.0.0-0",
        "1.0.0",
    ];
    assert_ascending(&texts);
    for a in texts {
        for b in texts {
            for c in texts {
                let ab = parsed(a).order(&parsed(b));
                let bc = parsed(b).order(&parsed(c));
                let ac = parsed(a).order(&parsed(c));
                if ab != VersionOrder::Newer && bc != VersionOrder::Newer {
                    assert_ne!(ac, VersionOrder::Newer);
                }
            }
        }
    }
}
