use obsidian_rust::error::{challenge_header, Entity, ErrorText, ObsidianError, ReqError};
use obsidian_rust::includes::Includable;
use obsidian_rust::resources::ResourceKind;

#[test]
fn internal_failures_are_500() {
    for e in [
        ObsidianError::PostgresError,
        ObsidianError::ConnectionError,
        ObsidianError::GetConnError,
        ObsidianError::PoolError,
        ObsidianError::SerializeError,
    ] {
        let r = e.to_response();
        assert_eq!(r.status, 500);
        assert!(!r.challenge);
        assert_eq!(r.text, None);
    }
}

#[test]
fn missing_school_looks_like_a_wrong_password() {
    let a = ObsidianError::RecordNotFound(Entity::School).to_response();
    let b = ObsidianError::WrongPassword.to_response();
    assert_eq!(a, b);
    assert_eq!(a.status, 401);
    assert!(a.challenge);
}

#[test]
fn auth_failures_are_401_with_challenge() {
    for e in [ObsidianError::RequestError(ReqError::NoAuth), ObsidianError::BCryptError] {
        let r = e.to_response();
        assert_eq!(r.status, 401);
        assert!(r.challenge);
    }
    assert_eq!(challenge_header(), "Basic: realm=\"Token and secret\"");
}

#[test]
fn other_missing_records_are_404() {
    for e in [Entity::Student, Entity::Teacher, Entity::Book, Entity::Alias, Entity::BaseSet, Entity::Lending] {
        let r = ObsidianError::RecordNotFound(e).to_response();
        assert_eq!(r.status, 404);
        assert!(!r.challenge);
    }
}

#[test]
fn bad_requests_carry_their_text() {
    let r = ObsidianError::IncludeNotSupported(Includable::LentBooks).to_response();
    assert_eq!(r.status, 400);
    assert_eq!(r.text.unwrap().message(), "The relation to be included is not supported by this route");
    let r = ObsidianError::RequestError(ReqError::NoID).to_response();
    assert_eq!(r.status, 400);
    assert_eq!(r.text.unwrap().message(), "The id needs to be an integer");
    let r = ObsidianError::RequestError(ReqError::WrongContentType).to_response();
    assert_eq!(r.status, 400);
    assert_eq!(r.text, Some(ErrorText::WrongContentType));
    assert_eq!(r.text.unwrap().message(), "Content-Type need to be application/json");
    assert_eq!(ObsidianError::ParseError.to_response().status, 400);
    assert_eq!(ObsidianError::IoError.to_response().status, 400);
}

#[test]
fn book_with_lendings_include_is_refused() {
    let mut inc = obsidian_rust::includes::get_includes(Some("include=lendings"));
    assert!(inc.contains(Includable::LentBooks));
    let err = ResourceKind::Book.check_includes(&inc).unwrap_err();
    assert_eq!(err, ObsidianError::IncludeNotSupported(Includable::LentBooks));
    let r = err.to_response();
    assert_eq!(r.status, 400);
    assert_eq!(r.text.unwrap().message(), "The relation to be included is not supported by this route");
    inc.insert(Includable::BaseSetBooks);
    assert_eq!(
        ResourceKind::Book.check_includes(&inc),
        Err(ObsidianError::IncludeNotSupported(Includable::BaseSetBooks))
    );
}
