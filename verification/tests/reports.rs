use seneca_solver::report::{
    build_session_report, non_question_type, AnswerStub, ContentItem, ContentModule,
};

fn module(id: &str, module_type: &str) -> ContentModule {
    ContentModule { id: id.to_string(), module_type: module_type.to_string() }
}

fn times(n: usize) -> Vec<String> {
    (0..n).map(|i| format!("2024-01-01T10:0{}:00+00:00", i)).collect()
}

#[test]
fn non_question_types_are_the_four_passive_kinds() {
    for t in ["concept", "video", "image", "delve"] {
        assert!(non_question_type(t));
    }
    for t in ["toggles", "multiple-choice", "wordfill", "", "Concept"] {
        assert!(!non_question_type(t));
    }
}

#[test]
fn counters_drop_by_the_number_of_passive_modules() {
    let content = ContentItem {
        id: "content-1".to_string(),
        content_type: None,
        tags: vec![],
        modules: vec![
            module("m0", "concept"),
            module("m1", "multiple-choice"),
            module("m2", "video"),
            module("m3", "toggles"),
            module("m4", "wordfill"),
        ],
    };
    let report = build_session_report("user-1", "course-1", "section-1", &content, "sid", &times(6));
    assert_eq!(report.session.modules_correct, 3);
    assert_eq!(report.session.modules_tested, 3);
    assert_eq!(report.session.modules_studied, 5);
    assert_eq!(report.session.modules_incorrect, 0);
    assert_eq!(report.session.modules_gave_up, 0);
    assert_eq!(report.modules.len(), 5);
    for i in [0usize, 2] {
        let m = &report.modules[i];
        assert_eq!(m.module_score, None);
        assert!(matches!(m.user_answer, AnswerStub::Omitted));
        assert_eq!(m.score, 0);
        assert!(!m.submitted);
        assert!(!m.testing_active);
    }
    for i in [1usize, 3, 4] {
        let m = &report.modules[i];
        assert_eq!(m.module_score, Some(1));
        assert_eq!(m.score, 1);
        assert!(m.submitted);
        assert!(m.testing_active);
    }
}

#[test]
fn toggles_module_reports_an_empty_answer_list() {
    let content = ContentItem {
        id: "content-2".to_string(),
        content_type: None,
        tags: vec![],
        modules: vec![module("m0", "toggles"), module("m1", "wordfill")],
    };
    let report = build_session_report("u", "c", "s", &content, "sid", &times(3));
    assert!(matches!(report.modules[0].user_answer, AnswerStub::EmptyList));
    assert!(matches!(report.modules[1].user_answer, AnswerStub::EmptyObject));
}

#[test]
fn module_reports_span_consecutive_boundaries() {
    let content = ContentItem {
        id: "content-3".to_string(),
        content_type: None,
        tags: vec![],
        modules: vec![module("m0", "concept"), module("m1", "toggles")],
    };
    let ts = times(3);
    let report = build_session_report("u", "c", "s", &content, "sid-9", &ts);
    assert_eq!(report.session.time_started, ts[0]);
    assert_eq!(report.session.time_finished, ts[2]);
    for (i, m) in report.modules.iter().enumerate() {
        assert_eq!(m.module_order, i);
        assert_eq!(m.module_id, format!("m{}", i));
        assert_eq!(m.time_started, ts[i]);
        assert_eq!(m.time_finished, ts[i + 1]);
        assert_eq!(m.session_id, "sid-9");
        assert_eq!(m.course_id, "c");
        assert_eq!(m.section_id, "s");
        assert_eq!(m.content_id, "content-3");
        assert!(m.completed);
        assert!(!m.gave_up);
    }
}

#[test]
fn session_metadata_carries_the_fixed_platform_fields() {
    let content = ContentItem {
        id: "content-4".to_string(),
        content_type: None,
        tags: vec![],
        modules: vec![],
    };
    let report = build_session_report("user-9", "course-9", "section-9", &content, "sid", &times(1));
    assert_eq!(report.platform, "seneca");
    assert_eq!(report.client_version, "2.13.81");
    assert_eq!(report.user_id, "user-9");
    assert_eq!(report.user_level_feature_flag_value, "control");
    assert_eq!(report.session.session_type, "adaptive");
    assert_eq!(report.session.session_score, 1);
    assert_eq!(report.session.average_score, 1);
    assert_eq!(report.session.starting_proficiency, 0);
    assert!(report.session.completed);
    assert_eq!(report.session.section_ids, vec!["section-9".to_string()]);
    assert_eq!(report.session.content_ids, vec!["content-4".to_string()]);
}

#[test]
fn hardest_question_flag_follows_the_content_type() {
    let mut content = ContentItem {
        id: "content-5".to_string(),
        content_type: Some("hardestQuestions".to_string()),
        tags: vec![],
        modules: vec![],
    };
    let report = build_session_report("u", "c", "s", &content, "sid", &times(1));
    assert!(report.session.has_hardest_question_content);

    content.content_type = Some("standard".to_string());
    let report = build_session_report("u", "c", "s", &content, "sid", &times(1));
    assert!(!report.session.has_hardest_question_content);

    content.content_type = None;
    let report = build_session_report("u", "c", "s", &content, "sid", &times(1));
    assert!(!report.session.has_hardest_question_content);
}
