use estuary::error::AppError;
use estuary::models::{
    default_limit, sanitize_optional_string, sanitize_string, CreateItemRequest, DatabaseHealth,
    HealthStatus, ListQuery, UpdateItemRequest,
};
use estuary::text::{contains, ends_with, split, starts_with, trim};

#[test]
fn sanitize_trims_and_drops_blank_descriptions() {
    let r = CreateItemRequest { name: "  Test Item \n".to_string(), description: Some("   ".to_string()) }.sanitize();
    assert_eq!(r.name, "Test Item");
    assert_eq!(r.description, None);
    let r = UpdateItemRequest { name: Some(" New ".to_string()), description: Some(" d ".to_string()) }.sanitize();
    assert_eq!(r.name, Some("New".to_string()));
    assert_eq!(r.description, Some("d".to_string()));
    assert_eq!(sanitize_string("\t x \u{3000}".to_string()), "x");
    assert_eq!(sanitize_optional_string(None), None);
}

#[test]
fn item_lengths_are_checked() {
    let ok = CreateItemRequest { name: "n".to_string(), description: None };
    assert!(ok.check().is_ok());
    let empty = CreateItemRequest { name: String::new(), description: None };
    assert!(matches!(empty.check(), Err(AppError::ValidationError(_))));
    let long = CreateItemRequest { name: "x".repeat(256), description: None };
    assert!(long.check().is_err());
    let desc = CreateItemRequest { name: "n".to_string(), description: Some("d".repeat(1001)) };
    assert!(desc.check().is_err());
    let upd = UpdateItemRequest { name: None, description: Some("d".repeat(1000)) };
    assert!(upd.check().is_ok());
}

#[test]
fn list_paging_limits() {
    assert_eq!(default_limit(), 20);
    let q = ListQuery::new(None, None);
    assert_eq!((q.limit, q.offset), (20, 0));
    assert!(q.check().is_ok());
    assert!(matches!(ListQuery::new(Some(0), None).check(), Err(AppError::BadRequest(_))));
    assert!(ListQuery::new(Some(101), Some(2)).check().is_err());
    assert!(ListQuery::new(Some(100), Some(2)).check().is_ok());
}

#[test]
fn health_report() {
    assert_eq!(HealthStatus::Healthy.as_str(), "healthy");
    assert_eq!(DatabaseHealth { connected: true, response_time_ms: Some(1) }.status(), HealthStatus::Healthy);
    assert_eq!(DatabaseHealth { connected: false, response_time_ms: None }.status(), HealthStatus::Unhealthy);
}

#[test]
fn text_helpers() {
    assert_eq!(trim("  a b  "), "a b");
    assert!(starts_with("https://x", "https://"));
    assert!(!starts_with("http", "https://"));
    assert!(ends_with("v1+json", "+json"));
    assert!(contains("application/vnd.estuary.v1+json", "vnd.estuary."));
    assert!(!contains("abc", "abd"));
    assert_eq!(split("a,,b", ','), vec!["a".to_string(), String::new(), "b".to_string()]);
    assert_eq!(split("", ','), vec![String::new()]);
}
