use axum::http::StatusCode;
use partal_gallery_api::problem::{default_problem_type, ApiProblem, ProblemJson};

#[test]
fn derives_title_from_status() {
    let p = ApiProblem::new(
        StatusCode::NOT_FOUND.as_u16(),
        Some("Gallery not found".to_string()),
        Some("/v1/galleries/0xabc".to_string()),
    );
    assert_eq!(p.title, "Not Found");
    assert_eq!(p.status, 404);
    assert_eq!(p.problem_type, "about:blank");
    assert_eq!(p.instance.as_deref(), Some("/v1/galleries/0xabc"));
    assert_eq!(p.detail.as_deref(), Some("Gallery not found"));
}

#[test]
fn default_problem_type_is_about_blank() {
    assert_eq!(default_problem_type(), "about:blank");
}

#[test]
fn title_falls_back_to_error_without_reason_phrase() {
    // 599 is a valid status code without a canonical reason phrase.
    let p = ApiProblem::new(599, None, None);
    assert_eq!(p.title, "Error");
    assert_eq!(p.status, 599);
    assert_eq!(p.detail, None);
    assert_eq!(p.instance, None);
}

#[test]
fn with_reason_uses_given_phrase_or_error() {
    let p = ApiProblem::with_reason(418, Some("I'm a teapot"), None, Some("/x".to_string()));
    assert_eq!(p.title, "I'm a teapot");
    assert_eq!(p.instance.as_deref(), Some("/x"));
    let q = ApiProblem::with_reason(418, None, None, None);
    assert_eq!(q.title, "Error");
}

#[test]
fn unauthorized_and_server_error_titles() {
    assert_eq!(ApiProblem::new(401, None, None).title, "Unauthorized");
    assert_eq!(ApiProblem::new(500, None, None).title, "Internal Server Error");
    assert_eq!(ApiProblem::new(400, None, None).title, "Bad Request");
}

#[test]
fn from_status_wraps_problem() {
    let pj = ProblemJson::from_status(400, Some("bad".to_string()), None);
    assert_eq!(pj.0.status, 400);
    assert_eq!(pj.0.title, "Bad Request");
    assert_eq!(pj.0.detail.as_deref(), Some("bad"));
    assert_eq!(pj.response_status(), 400);
}

#[test]
fn response_status_falls_back_to_500_for_invalid_codes() {
    for bad in [0u16, 42, 99, 1000, 65535] {
        let pj = ProblemJson(ApiProblem {
            problem_type: "about:blank".to_string(),
            title: "Error".to_string(),
            status: bad,
            detail: None,
            instance: None,
        });
        assert_eq!(pj.response_status(), 500);
    }
    for good in [100u16, 204, 404, 999] {
        let pj = ProblemJson(ApiProblem::new(good, None, None));
        assert_eq!(pj.response_status(), good);
    }
}
