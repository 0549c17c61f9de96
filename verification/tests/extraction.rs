use seneca_solver::extract::extract_course_section;

#[test]
fn course_and_section_read_from_pasted_url() {
    let url = "https://app.senecalearning.com/classroom/course/fe56ca00-05aa-11e8-9a61-01927559cfd5/section/2acb491d-50fa-49bc-9c79-e1b758a060ce/session";
    let (course_id, section_id) = extract_course_section(url).unwrap();
    assert_eq!(course_id, "fe56ca00-05aa-11e8-9a61-01927559cfd5");
    assert_eq!(section_id, "2acb491d-50fa-49bc-9c79-e1b758a060ce");
}

#[test]
fn text_without_fingerprint_gives_no_match() {
    assert!(extract_course_section("not a url").is_none());
    assert!(extract_course_section("").is_none());
}

#[test]
fn identifier_case_is_kept_as_typed() {
    let text = "ABCDEF00-1111-2222-3333-444455556666/section/abcdef00-AAAA-bbbb-CCCC-dddd5555eeee";
    let (course_id, section_id) = extract_course_section(text).unwrap();
    assert_eq!(course_id, "ABCDEF00-1111-2222-3333-444455556666");
    assert_eq!(section_id, "abcdef00-AAAA-bbbb-CCCC-dddd5555eeee");
}

#[test]
fn non_hexadecimal_identifier_gives_no_match() {
    let text = "gggggggg-1111-2222-3333-444455556666/section/abcdef00-1111-2222-3333-444455556666";
    assert!(extract_course_section(text).is_none());
}

#[test]
fn short_group_gives_no_match() {
    let text = "abcdef0-1111-2222-3333-444455556666/section/abcdef00-1111-2222-3333-444455556666";
    assert!(extract_course_section(text).is_none());
}

#[test]
fn leftmost_fingerprint_wins() {
    let first = "11111111-1111-1111-1111-111111111111/section/22222222-2222-2222-2222-222222222222";
    let second = "33333333-3333-3333-3333-333333333333/section/44444444-4444-4444-4444-444444444444";
    let text = format!("{} and then {}", first, second);
    let (course_id, section_id) = extract_course_section(&text).unwrap();
    assert_eq!(course_id, "11111111-1111-1111-1111-111111111111");
    assert_eq!(section_id, "22222222-2222-2222-2222-222222222222");
}
