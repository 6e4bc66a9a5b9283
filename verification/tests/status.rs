use azdls_writer::error::Phase;
use azdls_writer::protocol::accepted;
use azdls_writer::status::{create_accepted, update_accepted};
use http::StatusCode;

#[test]
fn create_accepts_exactly_created_and_ok() {
    for status in 0..=u16::MAX {
        assert_eq!(create_accepted(status), status == 201 || status == 200, "status {status}");
    }
}

#[test]
fn update_accepts_exactly_ok_and_accepted() {
    for status in 0..=u16::MAX {
        assert_eq!(update_accepted(status), status == 200 || status == 202, "status {status}");
    }
}

#[test]
fn accepted_sets_are_those_of_the_named_status_codes() {
    assert!(create_accepted(StatusCode::CREATED.as_u16()));
    assert!(create_accepted(StatusCode::OK.as_u16()));
    assert!(!create_accepted(StatusCode::ACCEPTED.as_u16()));
    assert!(update_accepted(StatusCode::OK.as_u16()));
    assert!(update_accepted(StatusCode::ACCEPTED.as_u16()));
    assert!(!update_accepted(StatusCode::CREATED.as_u16()));
    assert!(!create_accepted(StatusCode::FORBIDDEN.as_u16()));
    assert!(!update_accepted(StatusCode::INTERNAL_SERVER_ERROR.as_u16()));
    assert!(!create_accepted(StatusCode::NO_CONTENT.as_u16()));
    assert!(!update_accepted(StatusCode::NO_CONTENT.as_u16()));
}

#[test]
fn each_phase_has_its_own_accepted_set() {
    assert!(accepted(Phase::Create, 201));
    assert!(!accepted(Phase::Update, 201));
    assert!(accepted(Phase::Update, 202));
    assert!(!accepted(Phase::Create, 202));
    assert!(accepted(Phase::Create, 200));
    assert!(accepted(Phase::Update, 200));
    assert!(!accepted(Phase::Create, 0));
    assert!(!accepted(Phase::Update, 65535));
}
