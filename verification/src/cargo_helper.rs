//! Capability negotiation: the decisions that turn a server's responses
//! into a transfer plan.
//!
//! The negotiation is a short dialogue.  A first header-only request
//! reveals whether the content is protected and, usually, how long it is;
//! a protected content triggers a credential prompt and an authorized
//! retry; a missing length triggers a forced full-range request; a final
//! two-byte probe reveals whether the server honors byte ranges.  The
//! functions here make each of those decisions from plain response values;
//! the surrounding process performs the requests and prompts between them.

use vstd::prelude::*;
use crate::Bytes;
use crate::authorization::AuthorizationHeaderFactory;
use crate::authorization::AuthorizationType;
use crate::authorization::GetAuthorizationType;
use crate::authorization::spec_authorization_type;
use crate::authorization::spec_is_digest_challenge;
use crate::contentlength::GetContentLength;
use crate::response::CheckResponseStatus;
use crate::response::Response;
use crate::response::spec_is_partial_content;

verus! {

/// The transfer plan that negotiation produces: how many bytes the remote
/// content has, whether the server honors byte-range requests, and the
/// credential (if any) that each chunk request must carry.  Immutable once
/// produced; shared read-only by all fetch workers.
#[derive(Clone, Debug)]
pub struct CargoInfo {
    pub accept_partialcontent: bool,
    pub auth_header: Option<AuthorizationHeaderFactory>,
    pub content_length: Bytes,
}

/// A fatal negotiation failure: the whole download aborts before any chunk
/// work starts.
#[derive(Clone, Copy, PartialEq, Eq, Structural, Debug)]
pub enum NegotiationError {
    /// The remote content demands an authorization scheme this engine does
    /// not implement (anything but `Basic`).
    UnsupportedAuthorization(AuthorizationType),
    /// The server reported no content length, even after the forced
    /// full-range request.
    ContentLengthUnavailable,
}

/// What the first header-only response demands before the length checks
/// can start.
#[derive(Clone, Copy, PartialEq, Eq, Structural, Debug)]
pub enum ChallengeOutcome {
    /// No challenge header: the content is unprotected.
    NoAuthorization,
    /// A `Basic` challenge: credentials must be prompted for, and the
    /// header-only request re-issued with the authorization header.
    BasicCredentialsNeeded,
}

/// The decision taken on the first header-only response's challenge.
pub open spec fn spec_inspect_challenge(r: Response) -> Result<
    ChallengeOutcome,
    NegotiationError,
> {
    match spec_authorization_type(r.headers) {
        None => Ok(ChallengeOutcome::NoAuthorization),
        Some(AuthorizationType::Basic) => Ok(ChallengeOutcome::BasicCredentialsNeeded),
        Some(t) => Err(NegotiationError::UnsupportedAuthorization(t)),
    }
}

/// Classify the first header-only response: no challenge means no
/// authorization is required; a `Basic` challenge calls for credentials; a
/// `Digest` or unknown challenge aborts the negotiation at once.
pub fn inspect_challenge(response: &Response) -> (r: Result<ChallengeOutcome, NegotiationError>)
    ensures
        r == spec_inspect_challenge(*response),
{
    match response.headers.get_authorization_type() {
        None => Ok(ChallengeOutcome::NoAuthorization),
        Some(AuthorizationType::Basic) => Ok(ChallengeOutcome::BasicCredentialsNeeded),
        Some(t) => Err(NegotiationError::UnsupportedAuthorization(t)),
    }
}

/// What to do about the content length after the (possibly authorized)
/// header-only response.
#[derive(Clone, Copy, PartialEq, Eq, Structural, Debug)]
pub enum LengthOutcome {
    /// The response states the content length.
    Known(Bytes),
    /// No length was reported: a forced full-range request must be issued
    /// to coax the server into stating one.
    RetryWithFullRange,
}

/// The decision taken on the header-only response's content length.
pub open spec fn spec_resolve_length(r: Response) -> LengthOutcome {
    match r.headers.content_length {
        Some(length) => LengthOutcome::Known(length),
        None => LengthOutcome::RetryWithFullRange,
    }
}

/// Read the content length off the header-only response, or demand the
/// forced full-range retry when it is missing.
pub fn resolve_length(response: &Response) -> (r: LengthOutcome)
    ensures
        r == spec_resolve_length(*response),
{
    match GetContentLength::get_content_length(&response.headers) {
        Some(length) => LengthOutcome::Known(length),
        None => LengthOutcome::RetryWithFullRange,
    }
}

/// The decision taken on the forced full-range response: the second and
/// last chance to learn the content length.
pub open spec fn spec_resolve_forced_length(r: Response) -> Result<Bytes, NegotiationError> {
    match r.headers.content_length {
        Some(length) => Ok(length),
        None => Err(NegotiationError::ContentLengthUnavailable),
    }
}

/// Read the content length off the forced full-range response; when it is
/// still missing, the negotiation fails for good.
pub fn resolve_forced_length(response: &Response) -> (r: Result<Bytes, NegotiationError>)
    ensures
        r == spec_resolve_forced_length(*response),
{
    match GetContentLength::get_content_length(&response.headers) {
        Some(length) => Ok(length),
        None => Err(NegotiationError::ContentLengthUnavailable),
    }
}

/// The plan assembled from the negotiated pieces and the two-byte probe
/// response.
pub open spec fn spec_assemble_plan(
    content_length: Bytes,
    auth_header: Option<AuthorizationHeaderFactory>,
    probe: Response,
) -> CargoInfo {
    CargoInfo {
        accept_partialcontent: spec_is_partial_content(probe),
        auth_header: auth_header,
        content_length: content_length,
    }
}

/// Assemble the transfer plan: the server supports partial content exactly
/// when the two-byte probe came back with the partial-content status.
pub fn assemble_plan(
    content_length: Bytes,
    auth_header: Option<AuthorizationHeaderFactory>,
    probe: &Response,
) -> (r: CargoInfo)
    ensures
        r == spec_assemble_plan(content_length, auth_header, *probe),
{
    CargoInfo {
        accept_partialcontent: probe.check_partialcontent_status(),
        auth_header: auth_header,
        content_length: content_length,
    }
}

/// Law: a first response carrying no authentication challenge and a
/// definite content length negotiates a plan with no authorization and
/// exactly that content length, whatever the probe answers.
pub proof fn lemma_no_challenge_negotiation(head: Response, probe: Response, length: Bytes)
    requires
        head.headers.www_authenticate is None,
        head.headers.content_length == Some(length),
    ensures
        spec_inspect_challenge(head) == Ok::<ChallengeOutcome, NegotiationError>(
            ChallengeOutcome::NoAuthorization,
        ),
        spec_resolve_length(head) == LengthOutcome::Known(length),
        spec_assemble_plan(length, None, probe).auth_header is None,
        spec_assemble_plan(length, None, probe).content_length == length,
{
}

/// Law: a `Digest` challenge aborts the negotiation at once with
/// `UnsupportedAuthorization`.  The failure is decided on the first
/// response alone: no authorized retry, length check, or range probe
/// follows it.
pub proof fn lemma_digest_challenge_aborts(head: Response)
    requires
        head.headers.www_authenticate matches Some(raw) && spec_is_digest_challenge(raw@),
    ensures
        spec_inspect_challenge(head) == Err::<ChallengeOutcome, NegotiationError>(
            NegotiationError::UnsupportedAuthorization(AuthorizationType::Digest),
        ),
{
}

} // verus!
