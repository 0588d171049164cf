use estuary::version::{
    extract_version, extract_version_from_accept, extract_version_from_path, ApiVersion,
    VersionError,
};
use std::str::FromStr;

#[test]
fn test_version_from_str() {
    assert_eq!(ApiVersion::from_str("v1").unwrap(), ApiVersion::V1);
    assert_eq!(ApiVersion::from_str("1").unwrap(), ApiVersion::V1);
    assert!(ApiVersion::from_str("v2").is_err());
    assert!(ApiVersion::from_str("invalid").is_err());
}

#[test]
fn test_extract_version_from_path() {
    assert_eq!(extract_version_from_path("/api/v1/items"), Some("v1".to_string()));
    assert_eq!(extract_version_from_path("/api/v2/items"), Some("v2".to_string()));
    assert_eq!(extract_version_from_path("/api/items"), None);
    assert_eq!(extract_version_from_path("/health"), None);
}

#[test]
fn test_extract_version_from_accept() {
    assert_eq!(
        extract_version_from_accept("application/vnd.estuary.v1+json"),
        Some("v1".to_string())
    );
    assert_eq!(
        extract_version_from_accept("application/vnd.estuary.v2+json"),
        Some("v2".to_string())
    );
    assert_eq!(extract_version_from_accept("application/json"), None);
}

#[test]
fn test_extract_version_precedence() {
    assert_eq!(extract_version("/api/v1/items", None, None), ApiVersion::V1);
    assert_eq!(
        extract_version("/items", Some("application/vnd.estuary.v1+json"), None),
        ApiVersion::V1
    );
    assert_eq!(extract_version("/items", None, Some("v1")), ApiVersion::V1);
    assert_eq!(extract_version("/items", None, None), ApiVersion::V1);
}

#[test]
fn unsupported_version_names_the_text() {
    match ApiVersion::parse("v99") {
        Err(VersionError::Unsupported(v)) => assert_eq!(v, "v99"),
        _ => panic!("v99 must be unsupported"),
    }
    assert_eq!(
        ApiVersion::parse("v3").unwrap_err().message(),
        "Unsupported API version: v3"
    );
}

#[test]
fn version_names_and_deprecation() {
    assert_eq!(ApiVersion::V1.as_str(), "v1");
    assert!(!ApiVersion::V1.is_deprecated());
    assert_eq!(ApiVersion::default(), ApiVersion::V1);
}

#[test]
fn version_segment_needs_api_prefix_and_v() {
    assert_eq!(extract_version_from_path("/api/x1/items"), None);
    assert_eq!(extract_version_from_path("api/v1"), None);
    assert_eq!(extract_version_from_path("/api/v"), Some("v".to_string()));
    assert_eq!(extract_version_from_accept("application/vnd.estuary.v1+xml"), None);
    assert_eq!(extract_version_from_accept("application/vnd.estuary.v99+json"), Some("v99".to_string()));
}

#[test]
fn unsupported_sources_fall_through_to_default() {
    assert_eq!(
        extract_version("/api/v99/items", Some("application/vnd.estuary.v99+json"), Some("v1")),
        ApiVersion::V1
    );
    assert_eq!(extract_version("/api/v2/items", None, Some("junk")), ApiVersion::V1);
}

#[test]
fn test_version_extraction_from_various_sources() {
    assert_eq!(extract_version("/api/v1/items", None, None), ApiVersion::V1);
    assert_eq!(
        extract_version("/items", Some("application/vnd.estuary.v1+json"), None),
        ApiVersion::V1
    );
    assert_eq!(extract_version("/items", None, Some("v1")), ApiVersion::V1);
    assert_eq!(extract_version("/items", None, None), ApiVersion::V1);
}
