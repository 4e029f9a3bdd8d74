use libsnatch::authorization::AuthorizationHeaderFactory;
use libsnatch::authorization::AuthorizationType;
use libsnatch::authorization::GetAuthorizationType;
use libsnatch::headers::Headers;

fn headers_with_challenge(challenge: Option<&[u8]>) -> Headers {
    Headers {
        www_authenticate: challenge.map(|c| c.to_vec()),
        content_length: None,
        accept_ranges: false,
    }
}

#[test]
fn no_challenge_header_means_no_authorization() {
    let headers = headers_with_challenge(None);
    assert_eq!(None, headers.get_authorization_type());
}

#[test]
fn basic_challenge_is_recognized() {
    let headers = headers_with_challenge(Some(b"Basic realm=\"files\""));
    assert_eq!(
        Some(AuthorizationType::Basic),
        headers.get_authorization_type()
    );
    let bare = headers_with_challenge(Some(b"Basic"));
    assert_eq!(Some(AuthorizationType::Basic), bare.get_authorization_type());
}

#[test]
fn digest_challenge_is_recognized() {
    let headers = headers_with_challenge(Some(b"Digest realm=\"files\", qop=\"auth\""));
    assert_eq!(
        Some(AuthorizationType::Digest),
        headers.get_authorization_type()
    );
}

#[test]
fn unknown_schemes_are_not_mistaken_for_known_ones() {
    for challenge in [
        &b"Bearer token"[..],
        b"BasicX realm=\"files\"",
        b"Digestive realm=\"files\"",
        b"",
        b" Basic",
    ] {
        let headers = headers_with_challenge(Some(challenge));
        assert_eq!(
            Some(AuthorizationType::Unknown),
            headers.get_authorization_type(),
            "challenge {:?}",
            challenge
        );
    }
}

#[test]
fn scheme_names_match_the_challenge_tokens() {
    assert_eq!("Basic", AuthorizationType::Basic.scheme_name());
    assert_eq!("Digest", AuthorizationType::Digest.scheme_name());
    assert_eq!("Unknown", AuthorizationType::Unknown.scheme_name());
}

#[test]
fn factory_keeps_the_negotiated_credentials() {
    let factory = AuthorizationHeaderFactory::new(
        AuthorizationType::Basic,
        "Aladdin".to_string(),
        Some("open sesame".to_string()),
    );
    assert_eq!(factory.username, "Aladdin");
    assert_eq!(factory.password, Some("open sesame".to_string()));
    assert!(matches!(factory.authorization_type, AuthorizationType::Basic));
}

#[test]
fn basic_header_encodes_the_credentials() {
    let factory = AuthorizationHeaderFactory::new(
        AuthorizationType::Basic,
        "Aladdin".to_string(),
        Some("open sesame".to_string()),
    );
    assert_eq!("Basic QWxhZGRpbjpvcGVuIHNlc2FtZQ==", factory.build_header());
}

#[test]
fn basic_header_without_password_encodes_a_bare_colon() {
    let factory = AuthorizationHeaderFactory::new(
        AuthorizationType::Basic,
        "Aladdin".to_string(),
        None,
    );
    assert_eq!("Basic QWxhZGRpbjo=", factory.build_header());
}
