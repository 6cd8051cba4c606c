use backend::version::Version;
use std::cmp::Ordering;

#[test]
pub fn test_version_functions() {
    let v1 = Version::new(1, 0, 0);
    let v2 = Version::new(1, 3, 4);
    let v3 = Version::new(1, 3, 5);
    let v4 = Version::new(1, 0, 1);
    let v5 = Version::new(0, 1, 4);
    let v6 = Version::new(1, 1, 4);
    let v7 = Version::new(2, 0, 0);

    assert_eq!(v1.to_string(), "1.0.0");
    assert!(v1 < v2 && v2 < v3, "v1 !< v2 || v2 !<v3");
    assert!(v1 < v4, "v1 !< v4");
    assert!(v5 < v6, "v5 !< v6");

    assert!(v3 > v1, "v3 !> v1");
    assert!(v2 > v1, "v2 !> v1");
    assert!(v3 > v5, "v3 !> v5");
    assert!(v7 > v1, "v7 !> v1");

    assert_eq!(v1, v1, "eq failed!");

    let mut list = vec![v1, v2, v3, v4, v5, v6, v7];
    list.sort();
    assert_eq!(list, vec![v5, v1, v4, v6, v2, v3, v7]);

    let v1_str: String = v1.to_string();
    let v1_decoded: Result<Version, _> = v1_str.parse();
    assert_eq!(v1_decoded.unwrap(), v1);

    let dummy_decoded: Result<Version, _> = ".4.0".parse();
    assert!(dummy_decoded.is_err());
}

#[test]
fn version_order_agrees_with_compare() {
    let versions = [
        Version::new(0, 0, 0),
        Version::new(0, 0, 1),
        Version::new(0, 1, 0),
        Version::new(0, 65535, 65535),
        Version::new(1, 0, 0),
        Version::new(65535, 65535, 65535),
    ];
    for (i, a) in versions.iter().enumerate() {
        for (j, b) in versions.iter().enumerate() {
            assert_eq!(a.compare(b), i.cmp(&j));
            assert_eq!(a.partial_cmp(b), Some(i.cmp(&j)));
            assert_eq!(a.cmp(b), i.cmp(&j));
            assert_eq!(a == b, i == j);
        }
    }
    assert_eq!(Version::new(1, 2, 3).compare(&Version::new(1, 2, 3)), Ordering::Equal);
}

#[test]
fn version_text_round_trip() {
    for version in [
        Version::new(0, 0, 0),
        Version::new(1, 2, 3),
        Version::new(10, 200, 3000),
        Version::new(65535, 65535, 65535),
        Version::new(9, 10, 99),
    ] {
        assert_eq!(Version::parse(&version.to_string()).unwrap(), version);
    }
    assert_eq!(Version::new(10, 200, 3000).to_string(), "10.200.3000");
    assert_eq!(Version::new(65535, 0, 65535).to_string(), "65535.0.65535");
}

#[test]
fn version_parse_accepts_leading_zeros() {
    assert_eq!(Version::parse("001.02.0003").unwrap(), Version::new(1, 2, 3));
    assert_eq!(Version::parse("0.0.0000000000000000000000").unwrap(), Version::new(0, 0, 0));
    assert_eq!(Version::parse("65535.65535.065535").unwrap(), Version::new(65535, 65535, 65535));
}

#[test]
fn version_parse_too_many_periods() {
    let error = Version::parse("1.2.3.4").unwrap_err();
    assert_eq!(
        error.to_string(),
        "the expression '1.2.3.4' is invalid due to 'too many periods contained'"
    );
    let error = Version::parse("...").unwrap_err();
    assert_eq!(
        error.to_string(),
        "the expression '...' is invalid due to 'too many periods contained'"
    );
    // the third period comes before the letter
    let error = Version::parse("1.2.3.x").unwrap_err();
    assert_eq!(
        error.to_string(),
        "the expression '1.2.3.x' is invalid due to 'too many periods contained'"
    );
}

#[test]
fn version_parse_unrecognized_token() {
    let error = Version::parse("1.2a.3").unwrap_err();
    assert_eq!(
        error.to_string(),
        "the expression '1.2a.3' is invalid due to 'unrecognized token 'a''"
    );
    let error = Version::parse("v1.2.3.4").unwrap_err();
    assert_eq!(
        error.to_string(),
        "the expression 'v1.2.3.4' is invalid due to 'unrecognized token 'v''"
    );
    let error = Version::parse("1.2.-3").unwrap_err();
    assert_eq!(
        error.to_string(),
        "the expression '1.2.-3' is invalid due to 'unrecognized token '-''"
    );
    let error = Version::parse("1.2.3 ").unwrap_err();
    assert_eq!(
        error.to_string(),
        "the expression '1.2.3 ' is invalid due to 'unrecognized token ' ''"
    );
}

#[test]
fn version_parse_bad_parts() {
    let reason = "one or more sub-parts could not be expressed as a u16";
    for text in ["", "1", "1.2", "1..3", ".4.0", "1.2.", "65536.0.0", "0.0.65536", "1.99999999999999999999.3"] {
        let error = Version::parse(text).unwrap_err();
        assert_eq!(
            error.to_string(),
            format!("the expression '{}' is invalid due to '{}'", text, reason)
        );
        assert!(text.parse::<Version>().is_err());
    }
    // numeric to Unicode, and yet no decimal digits
    for text in ["1.2.\u{0663}", "\u{00b2}.0.0", "1.\u{2167}.0"] {
        let error = Version::parse(text).unwrap_err();
        assert_eq!(
            error.to_string(),
            format!("the expression '{}' is invalid due to '{}'", text, reason)
        );
    }
}
