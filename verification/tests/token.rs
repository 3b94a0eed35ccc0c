use iclass_tui::models::LoginResponse;
use iclass_tui::token::{extract_role, read_role_claim, role_or_default, second_part_of, session_from_login};

#[test]
fn second_part_is_between_the_first_two_dots() {
    assert_eq!(second_part_of("aa.bb.cc").as_deref(), Some("bb"));
    assert_eq!(second_part_of("aa.bb").as_deref(), Some("bb"));
    assert_eq!(second_part_of("aa.").as_deref(), Some(""));
    assert_eq!(second_part_of(".x.").as_deref(), Some("x"));
    assert_eq!(second_part_of("no-dots"), None);
    assert_eq!(second_part_of(""), None);
}

#[test]
fn role_is_read_from_the_payload() {
    assert_eq!(extract_role("h.eyJyb2xlIjoiYWRtaW4ifQ.sig"), "admin");
    assert_eq!(
        extract_role("h.eyJyb2xlIjoidGVhY2hlciIsImVtYWlsIjoidEB4LmlvIn0.sig"),
        "teacher"
    );
}

#[test]
fn role_defaults_to_student() {
    assert_eq!(extract_role("not-a-token"), "student");
    assert_eq!(extract_role("h.eyJzdWIiOiIxIn0.s"), "student");
    assert_eq!(extract_role("h.eyJyb2xlIjo3fQ.s"), "student");
    assert_eq!(extract_role("h.WzEsMl0.s"), "student");
    assert_eq!(extract_role("h.!!!.s"), "student");
    assert_eq!(extract_role("h.eyJyb2xlIjoiYWRtaW4ifQ==.s"), "student");
}

#[test]
fn claim_is_absent_where_undecodable() {
    assert_eq!(read_role_claim("h.eyJyb2xlIjoiYWRtaW4ifQ").as_deref(), Some("admin"));
    assert_eq!(read_role_claim("h"), None);
    assert_eq!(role_or_default(None), "student");
    assert_eq!(role_or_default(Some("teacher".to_string())), "teacher");
}

#[test]
fn session_keeps_tokens_and_email() {
    let response = LoginResponse {
        access_token: "h.eyJyb2xlIjoiYWRtaW4ifQ.s".to_string(),
        refresh_token: "refresh".to_string(),
    };
    let session = session_from_login(response, "ana@x".to_string());
    assert_eq!(session.access_token, "h.eyJyb2xlIjoiYWRtaW4ifQ.s");
    assert_eq!(session.refresh_token, "refresh");
    assert_eq!(session.role, "admin");
    assert_eq!(session.email, "ana@x");
}
