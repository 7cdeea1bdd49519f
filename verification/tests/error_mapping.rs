use pos_rust_local_backend::errors::{
    bad_request, from_boundary, not_found, unauthorized, BoundaryKind, Error, ErrorDetail,
};
use pos_rust_local_backend::format::{Body, Response};

fn body_json(r: &Response) -> &str {
    match &r.body {
        Body::Json(s) => s.as_str(),
        _ => panic!("expected a JSON body"),
    }
}

#[test]
fn not_found_maps_to_404() {
    let r = Error::NotFound.into_response();
    assert_eq!(r.status, 404);
    assert_eq!(
        body_json(&r),
        "{\"error\":\"not_found\",\"description\":\"Resource was not found\"}"
    );
}

#[test]
fn internal_server_error_maps_to_500() {
    let r = Error::InternalServerError.into_response();
    assert_eq!(r.status, 500);
    assert_eq!(
        body_json(&r),
        "{\"error\":\"internal_server_error\",\"description\":\"Internal Server Error\"}"
    );
}

#[test]
fn unauthorized_maps_to_401_without_echoing_the_message() {
    let r = Error::Unauthorized(String::from("secret internal reason")).into_response();
    assert_eq!(r.status, 401);
    let b = body_json(&r).to_string();
    assert!(!b.contains("secret"));
    assert_eq!(
        b,
        "{\"error\":\"unauthorized\",\"description\":\"You do not have permission to access this resource\"}"
    );
}

#[test]
fn custom_error_passes_status_and_detail_through() {
    let r = Error::CustomError(418, ErrorDetail::new("teapot", "short and stout")).into_response();
    assert_eq!(r.status, 418);
    assert_eq!(body_json(&r), "{\"error\":\"teapot\",\"description\":\"short and stout\"}");
}

#[test]
fn custom_detail_is_escaped_like_serde_json() {
    let r = Error::CustomError(422, ErrorDetail::with_reason("a\"b\\c")).into_response();
    let expected = format!("{{\"error\":{}}}", serde_json::to_string("a\"b\\c").unwrap());
    assert_eq!(body_json(&r), expected);
}

#[test]
fn every_boundary_kind_downgrades_to_generic_400() {
    let kinds = vec![
        BoundaryKind::Axum,
        BoundaryKind::Json,
        BoundaryKind::JsonRejection,
        BoundaryKind::EnvVar,
        BoundaryKind::Io,
        BoundaryKind::Db,
        BoundaryKind::InvalidHeaderValue,
        BoundaryKind::InvalidHeaderName,
        BoundaryKind::InvalidMethod,
        BoundaryKind::TaskJoin,
        BoundaryKind::Sqlx,
        BoundaryKind::Cache,
        BoundaryKind::Other,
    ];
    for kind in kinds {
        let e = from_boundary(kind, String::from("connection refused on 10.0.0.7"));
        let r = e.into_response();
        assert_eq!(r.status, 400);
        let b = body_json(&r);
        assert!(!b.contains("connection refused"));
        assert!(!b.contains("10.0.0.7"));
        assert_eq!(b, "{\"error\":\"Bad Request\"}");
    }
}

#[test]
fn uncategorized_domain_variants_downgrade_to_400() {
    for e in vec![
        Error::Message(String::from("m")),
        Error::QueueProviderMissing,
        Error::TaskNotFound(String::from("t")),
        Error::Hash(String::from("h")),
        Error::BadRequest(String::from("why")),
    ] {
        let r = e.into_response();
        assert_eq!(r.status, 400);
        assert_eq!(body_json(&r), "{\"error\":\"Bad Request\"}");
    }
}

#[test]
fn diagnostic_wrapping_keeps_the_classification() {
    let wrapped = Error::NotFound.bt();
    let r = wrapped.into_response();
    assert_eq!(r.status, 404);
}

#[test]
fn bt_adds_at_most_one_layer_per_call() {
    let once = Error::NotFound.bt();
    let depth_once = wrap_depth(&once);
    assert!(depth_once <= 1);
    let twice = once.bt();
    let depth_twice = wrap_depth(&twice);
    assert!(depth_twice <= 2);
    assert!(depth_twice >= depth_once);
}

fn wrap_depth(e: &Error) -> usize {
    match e {
        Error::WithBacktrace { inner, .. } => 1 + wrap_depth(inner),
        _ => 0,
    }
}

#[test]
fn attaching_a_trace_adds_exactly_one_layer() {
    let wrapped = Error::NotFound.attach_trace(Some(String::from("TRACE")));
    match wrapped {
        Error::WithBacktrace { inner, backtrace } => {
            assert!(matches!(*inner, Error::NotFound));
            assert_eq!(backtrace, "TRACE");
        }
        other => panic!("expected one diagnostic layer, got {other:?}"),
    }
}

#[test]
fn attaching_no_trace_returns_the_error_unchanged() {
    let e = Error::DB(String::from("boom")).attach_trace(None);
    assert!(matches!(e, Error::DB(ref m) if m == "boom"));
    assert_eq!(wrap_depth(&e), 0);
}

#[test]
fn nesting_needs_a_second_explicit_wrap() {
    let once = Error::NotFound.attach_trace(Some(String::from("T1")));
    assert_eq!(wrap_depth(&once), 1);
    let twice = once.attach_trace(Some(String::from("T2")));
    assert_eq!(wrap_depth(&twice), 2);
    let r = twice.into_response();
    assert_eq!(r.status, 404);
}

#[test]
fn boundary_conversion_wraps_at_most_once() {
    let e = from_boundary(BoundaryKind::Db, String::from("duplicate key"));
    assert!(wrap_depth(&e) <= 1);
    let stripped = match e {
        Error::WithBacktrace { inner, .. } => *inner,
        other => other,
    };
    assert!(matches!(stripped, Error::DB(ref m) if m == "duplicate key"));
}

#[test]
fn helper_constructors_build_the_expected_variants() {
    let u: Result<(), Error> = unauthorized("nope");
    assert!(matches!(u, Err(Error::Unauthorized(ref m)) if m == "nope"));
    let b: Result<(), Error> = bad_request("bad field");
    assert!(matches!(b, Err(Error::BadRequest(ref m)) if m == "bad field"));
    let n: Result<(), Error> = not_found();
    assert!(matches!(n, Err(Error::NotFound)));
}

#[test]
fn wrap_msg_and_string_build_message_class_errors() {
    assert!(matches!(Error::wrap(String::from("w")), Error::Any(ref m) if m == "w"));
    assert!(matches!(Error::msg("m"), Error::Message(ref m) if m == "m"));
    assert!(matches!(Error::string("s"), Error::Message(ref m) if m == "s"));
}

#[test]
fn internal_message_renders_the_full_detail() {
    assert_eq!(Error::NotFound.message(), "not found");
    assert_eq!(Error::InternalServerError.message(), "internal server error");
    assert_eq!(
        Error::TaskNotFound(String::from("cleanup")).message(),
        "task not found: 'cleanup'"
    );
    assert_eq!(Error::DB(String::from("duplicate key")).message(), "duplicate key");
    let wrapped = Error::WithBacktrace {
        inner: Box::new(Error::NotFound),
        backtrace: String::from("TRACE"),
    };
    assert_eq!(wrapped.message(), "not found\nTRACE");
}

#[test]
fn error_detail_constructors() {
    let d = ErrorDetail::new("code", "words");
    assert_eq!(d.error.as_deref(), Some("code"));
    assert_eq!(d.description.as_deref(), Some("words"));
    let d = ErrorDetail::with_reason("code");
    assert_eq!(d.error.as_deref(), Some("code"));
    assert!(d.description.is_none());
}
