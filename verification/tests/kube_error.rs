use datum_connect::kube_error::{
    classify_list_error, is_not_found, is_quota_check_timeout, is_unauthorized, ApiError,
    ControlPlaneError, ErrorChain,
};

fn api_error(code: u16, reason: &str) -> ApiError {
    ApiError::Api {
        status: "Failure".to_string(),
        code,
        reason: reason.to_string(),
        message: reason.to_string(),
    }
}

fn in_context(context: &str, source: ErrorChain) -> ErrorChain {
    ErrorChain::Context {
        context: context.to_string(),
        source: Box::new(source),
    }
}

#[test]
fn classify_list_error_maps_project_level_status_codes() {
    let err = classify_list_error("p", "listing", api_error(404, "NotFound"));
    assert!(matches!(
        ControlPlaneError::find_in(&err),
        Some(ControlPlaneError::ProjectNotFound { project_id, .. }) if project_id == "p"
    ));

    let err = classify_list_error("p", "listing", api_error(403, "Forbidden"));
    assert!(matches!(
        ControlPlaneError::find_in(&err),
        Some(ControlPlaneError::PermissionDenied { project_id, .. }) if project_id == "p"
    ));

    let err = classify_list_error("p", "listing", api_error(401, "Unauthorized"));
    assert!(matches!(
        ControlPlaneError::find_in(&err),
        Some(ControlPlaneError::Unauthorized { project_id, .. }) if project_id == "p"
    ));
}

#[test]
fn classified_error_keeps_the_kube_error_as_source() {
    let err = classify_list_error("p", "listing", api_error(404, "NotFound"));
    let cp = ControlPlaneError::find_in(&err).expect("classified");
    assert_eq!(cp.project_id(), "p");
    let source = cp.source();
    assert!(
        matches!(source, ApiError::Api { code: 404, reason, .. } if reason == "NotFound"),
        "source was {source:?}"
    );
    let rendered = err.full_message();
    assert!(rendered.contains("listing"), "{rendered}");
    assert!(rendered.contains("NotFound"), "{rendered}");
}

#[test]
fn classify_list_error_leaves_other_errors_unclassified() {
    for code in [400, 409, 429, 500, 503] {
        let err = classify_list_error("p", "listing", api_error(code, "x"));
        assert!(ControlPlaneError::find_in(&err).is_none(), "code {code}");
        assert!(err.message().contains("listing"));
    }
}

#[test]
fn find_in_sees_through_added_context() {
    let inner = classify_list_error("p", "listing", api_error(404, "x"));
    let wrapped = in_context("outermost", in_context("outer", inner));
    assert!(matches!(
        ControlPlaneError::find_in(&wrapped),
        Some(ControlPlaneError::ProjectNotFound { project_id, .. }) if project_id == "p"
    ));
}

#[test]
fn find_in_returns_none_for_plain_errors() {
    let err = ErrorChain::Message("nothing to see".to_string());
    assert!(ControlPlaneError::find_in(&err).is_none());
}

#[test]
fn messages_name_the_project() {
    let about = |code: u16| -> String {
        let err = classify_list_error("p", "listing", api_error(code, "x"));
        ControlPlaneError::find_in(&err).unwrap().message()
    };
    assert_eq!(about(404), "control plane for project 'p' not found");
    assert_eq!(about(403), "permission denied in project 'p'");
    assert_eq!(about(401), "authentication failed for project 'p'");
}

#[test]
fn statuses_are_told_apart() {
    assert!(is_unauthorized(&api_error(401, "x")));
    assert!(!is_unauthorized(&api_error(403, "x")));
    assert!(is_not_found(&api_error(404, "x")));
    let other = ApiError::Other {
        message: "ServiceError: connect".to_string(),
        sources: vec!["connect".to_string(), "connection refused".to_string()],
    };
    assert!(!is_not_found(&other));
    assert!(!is_unauthorized(&other));
    assert_eq!(other.message(), "ServiceError: connect");
    let chain = classify_list_error("p", "listing", other);
    assert_eq!(
        chain.full_message(),
        "listing: ServiceError: connect: connect: connection refused"
    );
}

#[test]
fn quota_timeouts_are_not_exhausted_quotas() {
    let slow = "request took too long to be checked against your quota, try again";
    assert!(is_quota_check_timeout(&api_error(403, slow)));
    assert!(!is_quota_check_timeout(&api_error(500, slow)));
    assert!(!is_quota_check_timeout(&api_error(403, "quota exceeded")));
}

#[test]
fn an_answer_is_shown_with_its_kind_and_all_its_fields() {
    let answer = ApiError::Api {
        status: "Failure".to_string(),
        code: 404,
        reason: "NotFound".to_string(),
        message: "no \"p\" here".to_string(),
    };
    let shown = "ApiError: no \"p\" here: NotFound (ErrorResponse { status: \"Failure\", \
                 message: \"no \\\"p\\\" here\", reason: \"NotFound\", code: 404 })";
    assert_eq!(answer.message(), shown);
    let chain = classify_list_error("p", "listing", answer);
    assert_eq!(
        chain.full_message(),
        format!(
            "listing: control plane for project 'p' not found: {shown}: no \"p\" here: NotFound"
        )
    );
    assert_eq!(chain.message(), "listing");
}

#[test]
fn an_answer_without_meaning_for_the_project_stays_as_it_is() {
    let chain = classify_list_error("p", "listing", api_error(500, "x"));
    assert_eq!(
        chain.full_message(),
        "listing: ApiError: x: x (ErrorResponse { status: \"Failure\", message: \"x\", \
         reason: \"x\", code: 500 }): x: x"
    );
}
