use partal_gallery_api::auth::{bearer_authorized, unauthorized_problem};

#[test]
fn accepts_exact_bearer_token() {
    assert!(bearer_authorized(Some("Bearer s3cret"), "s3cret"));
}

#[test]
fn refuses_missing_header() {
    assert!(!bearer_authorized(None, "s3cret"));
}

#[test]
fn refuses_wrong_or_malformed_tokens() {
    assert!(!bearer_authorized(Some("Bearer s3cre"), "s3cret"));
    assert!(!bearer_authorized(Some("Bearer s3cret "), "s3cret"));
    assert!(!bearer_authorized(Some("bearer s3cret"), "s3cret"));
    assert!(!bearer_authorized(Some("s3cret"), "s3cret"));
    assert!(!bearer_authorized(Some("Bearer"), ""));
    assert!(!bearer_authorized(Some(""), "s3cret"));
}

#[test]
fn empty_token_needs_bare_prefix() {
    assert!(bearer_authorized(Some("Bearer "), ""));
}

#[test]
fn unauthorized_problem_names_the_request() {
    let p = unauthorized_problem("/v1/galleries/0xabc");
    assert_eq!(p.status, 401);
    assert_eq!(p.title, "Unauthorized");
    assert_eq!(p.problem_type, "about:blank");
    assert_eq!(p.detail.as_deref(), Some("Unauthorized"));
    assert_eq!(p.instance.as_deref(), Some("/v1/galleries/0xabc"));
}
