use seneca_solver::client::{ClientError, SenecaClient};
use seneca_solver::report::{ContentItem, ContentModule};
use seneca_solver::times::MAX_FORMAT_EPOCH;

fn client() -> SenecaClient {
    SenecaClient { access_key: "key-123".to_string(), user_id: "user-123".to_string() }
}

#[test]
fn construction_fails_fast_on_unauthorized() {
    let r = SenecaClient::new("key-123".to_string(), 401, None);
    let err = r.err().unwrap();
    assert!(matches!(err, ClientError::Auth { status: 401 }));
    let hint = err.auth_hint().unwrap();
    assert_eq!(
        hint,
        "Invalid access key. Double-check that you copied it correctly and that it hasn't expired. For more information, see https://github.com/ArcaEge/seneca-solver#expired-access-key"
    );
}

#[test]
fn construction_caches_the_resolved_identity() {
    let c = SenecaClient::new("key-123".to_string(), 200, Some("user-9".to_string())).unwrap();
    assert_eq!(c.access_key, "key-123");
    assert_eq!(c.user_id, "user-9");
}

#[test]
fn identity_reply_resolves_the_user_id() {
    let ok = SenecaClient::user_id_from_response(200, Some("user-1".to_string()));
    assert_eq!(ok.unwrap(), "user-1");
    let err = SenecaClient::user_id_from_response(401, None).err().unwrap();
    assert!(matches!(err, ClientError::Auth { status: 401 }));
}

#[test]
fn only_unauthorized_carries_the_credential_hint() {
    let forbidden = SenecaClient::new("k".to_string(), 403, None).err().unwrap();
    assert!(forbidden.auth_hint().is_none());
    let status = ClientError::Status { status: 401 };
    assert!(status.auth_hint().is_none());
}

#[test]
fn error_messages_carry_the_status_in_decimal() {
    assert_eq!(
        ClientError::Status { status: 404 }.message(),
        "request failed with HTTP status 404"
    );
    assert_eq!(
        ClientError::Auth { status: 401 }.message(),
        "authentication failed with HTTP status 401"
    );
    assert_eq!(ClientError::Status { status: 7 }.message(), "request failed with HTTP status 7");
}

#[test]
fn contents_reply_falls_back_to_empty_number_and_title() {
    let c = client();
    let items = vec![ContentItem {
        id: "i".to_string(),
        content_type: None,
        tags: vec![],
        modules: vec![],
    }];
    let (number, title, contents) = c.get_contents(200, None, None, items).unwrap();
    assert_eq!(number, "");
    assert_eq!(title, "");
    assert_eq!(contents.len(), 1);

    let (number, title, _) = c
        .get_contents(204, Some("1.2".to_string()), Some("Cells".to_string()), vec![])
        .unwrap();
    assert_eq!(number, "1.2");
    assert_eq!(title, "Cells");
}

#[test]
fn failed_contents_fetch_is_a_status_error() {
    let c = client();
    let err = c.get_contents(404, None, None, vec![]).err().unwrap();
    assert!(matches!(err, ClientError::Status { status: 404 }));
}

#[test]
fn signed_url_reply_hands_back_the_url() {
    let ok = SenecaClient::signed_url_from_response(200, Some("https://sig".to_string()));
    assert_eq!(ok.unwrap(), "https://sig");
    let err = SenecaClient::signed_url_from_response(500, None).err().unwrap();
    assert!(matches!(err, ClientError::Status { status: 500 }));
}

#[test]
fn submission_reply_never_hides_a_failure() {
    assert!(SenecaClient::submit_outcome(200).is_ok());
    let err = SenecaClient::submit_outcome(502).err().unwrap();
    assert!(matches!(err, ClientError::Status { status: 502 }));
}

#[test]
fn request_urls_are_the_fixed_endpoints() {
    let c = client();
    let (url, headers) = c.user_info_request();
    assert_eq!(url, "https://user-info.app.senecalearning.com/api/user-info/me");
    assert_eq!(headers.len(), 18);
    assert_eq!(headers[0], ("Host".to_string(), "user-info.app.senecalearning.com".to_string()));
    assert_eq!(headers[6], ("access-key".to_string(), "key-123".to_string()));

    let (url, headers) = c.signed_url_request("course-1", "section-1");
    assert_eq!(
        url,
        "https://course.app.senecalearning.com/api/courses/course-1/signed-url?sectionId=section-1&contentTypes=standard,hardestQuestions"
    );
    assert_eq!(headers[0], ("Host".to_string(), "course.app.senecalearning.com".to_string()));
}

#[test]
fn assignments_url_encodes_the_filter_date() {
    assert_eq!(
        SenecaClient::assignments_url(0),
        "https://assignments.app.senecalearning.com/api/students/me/assignments?limit=500&date=1970-01-01T00%3A00%3A00%2B00%3A00&archived=false"
    );
}

#[test]
fn assignments_request_carries_the_date_header() {
    let c = client();
    let (url, headers) = c.assignments_request().unwrap();
    assert!(url.starts_with(
        "https://assignments.app.senecalearning.com/api/students/me/assignments?limit=500&date="
    ));
    assert!(url.ends_with("&archived=false"));
    assert_eq!(headers.len(), 19);
    assert_eq!(
        headers[18],
        ("X-Amz-Date".to_string(), "20250122T190413Z".to_string())
    );
}

#[test]
fn assignments_reply_without_items_is_malformed() {
    let c = client();
    let err = c.get_assignments(200, None).err().unwrap();
    assert!(matches!(err, ClientError::MalformedReply));
    assert_eq!(err.message(), "Failed to fetch assignments");
    assert!(err.auth_hint().is_none());
}

#[test]
fn assignments_request_looks_back_thirty_days() {
    let c = client();
    let (url, headers) = c.assignments_request_at(0).unwrap();
    assert_eq!(
        url,
        "https://assignments.app.senecalearning.com/api/students/me/assignments?limit=500&date=1969-12-02T00%3A00%3A00%2B00%3A00&archived=false"
    );
    assert_eq!(headers.len(), 19);
    assert!(c.assignments_request_at(MAX_FORMAT_EPOCH + 1).is_none());
}

#[test]
fn packaged_session_ends_at_the_given_instant() {
    let c = client();
    let content = ContentItem {
        id: "content-9".to_string(),
        content_type: None,
        tags: vec![],
        modules: vec![ContentModule { id: "m0".to_string(), module_type: "wordfill".to_string() }],
    };
    let prepared = c.run_solver_at("course-1", "section-1", &content, 1_700_000_000).unwrap();
    assert_eq!(prepared.report.session.time_finished, "2023-11-14T22:13:20+00:00");
    assert_eq!(prepared.report.modules[0].time_finished, "2023-11-14T22:13:20+00:00");
}

#[test]
fn packaged_session_refuses_an_unrenderable_instant() {
    let c = client();
    let content = ContentItem {
        id: "c".to_string(),
        content_type: None,
        tags: vec![],
        modules: vec![],
    };
    assert!(c.run_solver_at("course-1", "section-1", &content, MAX_FORMAT_EPOCH + 1).is_none());
    assert!(c.run_solver_at("course-1", "section-1", &content, MAX_FORMAT_EPOCH).is_some());
}

#[test]
fn packaged_session_targets_the_stats_endpoint() {
    let c = client();
    let content = ContentItem {
        id: "content-1".to_string(),
        content_type: None,
        tags: vec![],
        modules: vec![
            ContentModule { id: "m0".to_string(), module_type: "concept".to_string() },
            ContentModule { id: "m1".to_string(), module_type: "toggles".to_string() },
            ContentModule { id: "m2".to_string(), module_type: "wordfill".to_string() },
        ],
    };
    let prepared = c.run_solver("course-1", "section-1", &content).unwrap();
    assert_eq!(prepared.url, "https://stats.app.senecalearning.com/api/stats/sessions");
    assert_eq!(prepared.headers[0].1, "stats.app.senecalearning.com");
    let report = &prepared.report;
    assert_eq!(report.user_id, "user-123");
    assert_eq!(report.session.course_id, "course-1");
    assert_eq!(report.session.session_id.len(), 36);
    assert_eq!(report.modules.len(), 3);
    assert_eq!(report.session.modules_correct, 2);
    assert_eq!(report.session.modules_tested, 2);
    assert_eq!(report.session.modules_studied, 3);
    assert_eq!(report.session.time_finished, report.modules[2].time_finished);
    for m in &report.modules {
        assert_eq!(m.session_id, report.session.session_id);
    }
}
