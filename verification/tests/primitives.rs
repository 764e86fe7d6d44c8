use appc_manifest::types::{ACIdentifier, ACKind, ACName, ACVersion, HashAlgorithm, ImageID,
    Timestamps, UrlAddress};
use appc_manifest::util::{Errors, StringWrapper};

fn leaf_message(e: &Errors) -> String {
    match e {
        Errors::Node(msgs) => {
            assert_eq!(msgs.len(), 1);
            msgs[0].clone()
        }
        _ => panic!("expected a leaf error"),
    }
}

#[test]
fn identifier_accepts_separated_tokens() {
    assert!(ACIdentifier::from_string(&"example.com/reduce-worker".to_string()).is_ok());
    assert!(ACIdentifier::from_string(&"sub-domain.example.com/org/product/release-1_0".to_string()).is_ok());
}

#[test]
fn identifier_rejects_bad_shapes() {
    for bad in ["", "Example.com", "example..com", "-example", "example-", "exa mple"] {
        let r = ACIdentifier::from_string(&bad.to_string());
        let e = r.err().expect("must fail");
        assert_eq!(leaf_message(&e), "has invalid formatting");
    }
}

#[test]
fn name_rejects_identifier_separators() {
    assert!(ACName::from_string(&"reduce-worker".to_string()).is_ok());
    let r = ACName::from_string(&"example.com/reduce-worker".to_string());
    let e = r.err().expect("must fail");
    assert_eq!(leaf_message(&e), "must be a valid AC Name");
    assert!(ACName::from_string(&"under_score".to_string()).is_err());
    assert!(ACName::from_string(&"UPPER".to_string()).is_err());
}

#[test]
fn version_parses_three_components() {
    let v = ACVersion::from_string(&"1.2.3".to_string()).ok().expect("must parse");
    assert_eq!(v.major, 1);
    assert_eq!(v.minor, 2);
    assert_eq!(v.patch, 3);
    let v = ACVersion::from_string(&"0.8.11".to_string()).ok().expect("must parse");
    assert_eq!((v.major, v.minor, v.patch), (0, 8, 11));
}

#[test]
fn version_rejects_two_components() {
    let e = ACVersion::from_string(&"1.2".to_string()).err().expect("must fail");
    assert_eq!(leaf_message(&e), "must be a valid AC Version");
}

#[test]
fn version_rejects_leading_zero() {
    assert!(ACVersion::from_string(&"01.2.3".to_string()).is_err());
    assert!(ACVersion::from_string(&"1.02.3".to_string()).is_err());
}

#[test]
fn version_rejects_garbage_and_overflow() {
    assert!(ACVersion::from_string(&"1.2.3.4".to_string()).is_err());
    assert!(ACVersion::from_string(&"1..3".to_string()).is_err());
    assert!(ACVersion::from_string(&"a.b.c".to_string()).is_err());
    // one past u64::MAX in the major slot
    assert!(ACVersion::from_string(&"18446744073709551616.0.0".to_string()).is_err());
    // u64::MAX itself still fits
    let v = ACVersion::from_string(&"18446744073709551615.0.0".to_string()).ok().expect("must parse");
    assert_eq!(v.major, u64::MAX);
}

#[test]
fn image_id_accepts_sha512() {
    let id = ImageID::from_string(&"sha512-deadbeef".to_string()).ok().expect("must parse");
    assert!(matches!(id.hash, HashAlgorithm::SHA512));
    assert_eq!(id.value, "deadbeef");
}

#[test]
fn image_id_unsupported_algorithm_is_distinct() {
    let e = ImageID::from_string(&"sha256-deadbeef".to_string()).err().expect("must fail");
    assert_eq!(leaf_message(&e), "must be a valid Image ID (invalid hash algorithm)");
    let e = ImageID::from_string(&"sha512+deadbeef".to_string()).err().expect("must fail");
    assert_eq!(leaf_message(&e), "must be a valid Image ID");
    let e = ImageID::from_string(&"sha512-xyz".to_string()).err().expect("must fail");
    assert_eq!(leaf_message(&e), "must be a valid Image ID");
}

#[test]
fn kind_matches_exactly() {
    assert!(matches!(
        ACKind::from_string(&"ImageManifest".to_string()),
        Ok(ACKind::ImageManifest)
    ));
    assert!(matches!(
        ACKind::from_string(&"PodManifest".to_string()),
        Ok(ACKind::PodManifest)
    ));
    let e = ACKind::from_string(&"imagemanifest".to_string()).err().expect("must fail");
    assert_eq!(
        leaf_message(&e),
        "must be one of \"ImageManifest\" or \"PodManifest\""
    );
}

#[test]
fn timestamps_require_rfc3339() {
    let t = Timestamps::from_string(&"1996-12-19T16:39:57-08:00".to_string()).ok().expect("must parse");
    assert_eq!(t.as_str(), "1996-12-19T16:39:57-08:00");
    assert!(Timestamps::from_string(&"2023-01-02T03:04:05Z".to_string()).is_ok());
    let e = Timestamps::from_string(&"yesterday".to_string()).err().expect("must fail");
    assert_eq!(leaf_message(&e), "must be a valid RFC3339 timestamp");
    // a date alone has no time part, so it is not an RFC3339 date-time
    assert!(Timestamps::from_string(&"2023-01-02".to_string()).is_err());
}

#[test]
fn url_addresses_require_absolute_urls() {
    let u = UrlAddress::from_string(&"http://example.com/docs".to_string()).ok().expect("must parse");
    assert_eq!(u.as_str(), "http://example.com/docs");
    let e = UrlAddress::from_string(&"not a url".to_string()).err().expect("must fail");
    assert_eq!(leaf_message(&e), "must be a valid URL");
}
