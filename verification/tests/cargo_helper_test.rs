use libsnatch::authorization::AuthorizationType;
use libsnatch::cargo_helper::assemble_plan;
use libsnatch::cargo_helper::inspect_challenge;
use libsnatch::cargo_helper::resolve_forced_length;
use libsnatch::cargo_helper::resolve_length;
use libsnatch::cargo_helper::ChallengeOutcome;
use libsnatch::cargo_helper::LengthOutcome;
use libsnatch::cargo_helper::NegotiationError;
use libsnatch::headers::Headers;
use libsnatch::http_version::HttpVersion;
use libsnatch::response::Response;

fn response(
    status: u16,
    challenge: Option<&[u8]>,
    content_length: Option<u64>,
) -> Response {
    Response {
        version: HttpVersion::Http11,
        status: status,
        headers: Headers {
            www_authenticate: challenge.map(|c| c.to_vec()),
            content_length: content_length,
            accept_ranges: false,
        },
    }
}

#[test]
fn unprotected_content_with_a_length_yields_a_plain_plan() {
    let head = response(200, None, Some(1000));
    assert_eq!(
        Ok(ChallengeOutcome::NoAuthorization),
        inspect_challenge(&head)
    );
    assert_eq!(LengthOutcome::Known(1000), resolve_length(&head));

    let probe = response(206, None, Some(2));
    let plan = assemble_plan(1000, None, &probe);
    assert!(plan.auth_header.is_none());
    assert_eq!(1000, plan.content_length);
    assert!(plan.accept_partialcontent);
}

#[test]
fn digest_challenge_fails_before_any_further_request() {
    let head = response(401, Some(b"Digest realm=\"files\""), Some(1000));
    assert_eq!(
        Err(NegotiationError::UnsupportedAuthorization(
            AuthorizationType::Digest
        )),
        inspect_challenge(&head)
    );
}

#[test]
fn unknown_challenge_fails_as_unsupported() {
    let head = response(401, Some(b"Bearer abc"), None);
    assert_eq!(
        Err(NegotiationError::UnsupportedAuthorization(
            AuthorizationType::Unknown
        )),
        inspect_challenge(&head)
    );
}

#[test]
fn basic_challenge_asks_for_credentials() {
    let head = response(401, Some(b"Basic realm=\"files\""), None);
    assert_eq!(
        Ok(ChallengeOutcome::BasicCredentialsNeeded),
        inspect_challenge(&head)
    );
}

#[test]
fn missing_length_demands_the_forced_full_range_retry() {
    let head = response(200, None, None);
    assert_eq!(LengthOutcome::RetryWithFullRange, resolve_length(&head));

    let forced_good = response(200, None, Some(42));
    assert_eq!(Ok(42), resolve_forced_length(&forced_good));

    let forced_bad = response(200, None, None);
    assert_eq!(
        Err(NegotiationError::ContentLengthUnavailable),
        resolve_forced_length(&forced_bad)
    );
}

#[test]
fn probe_status_decides_partial_content_support() {
    let partial = response(206, None, None);
    assert!(assemble_plan(10, None, &partial).accept_partialcontent);
    let full = response(200, None, None);
    assert!(!assemble_plan(10, None, &full).accept_partialcontent);
}
