//! The serialized form of a credential: the JSON text in which a credential
//! is supplied to a run and handed out by it.

use vstd::prelude::*;
use vstd::string::StringExecFns;

use crate::credential::{optional_credential, Credential, CredentialSlot, CredentialView, Timestamp};

verus! {

/// The credential that a JSON text holds, or `None` for a text that holds
/// none. The grammar is that of the Spotify token object and is not restated
/// here.
pub uninterp spec fn token_in(json: Seq<char>) -> Option<CredentialView>;

/// Trusted: `serde_json::from_str` at the type `rspotify::Token`.
///
/// The token's fields are taken over one for one: the lifetime in whole
/// seconds, the expiry as seconds and nanoseconds since the Unix epoch, the
/// set of scopes as a list in whatever order the set gives them. That the
/// outcome is [`token_in`] of the text is the claim that nothing here proves:
/// it says no more than that the same text always holds the same credential.
#[verifier::external_body]
fn parse_token(json: &str) -> (credential: Option<Credential>)
    ensures
        optional_credential(credential) == token_in(json@),
{
    let token: rspotify::Token = serde_json::from_str(json).ok()?;
    let expires_at = match token.expires_at {
        Some(at) => Some(Timestamp { secs: at.timestamp(), nanos: at.timestamp_subsec_nanos() }),
        None => None,
    };
    Some(Credential {
        access_token: token.access_token,
        expires_in: token.expires_in.num_seconds(),
        expires_at,
        refresh_token: token.refresh_token,
        scopes: token.scopes.into_iter().collect(),
    })
}

/// Trusted: `serde_json::to_string` at the type `rspotify::Token`.
///
/// The credential is made a token field by field; `None` when chrono cannot
/// represent its lifetime (`TimeDelta::try_seconds`) or its expiry
/// (`DateTime::from_timestamp`). Claimed: a lifetime beyond the bounds that
/// `try_seconds` documents gives `None`, and within them an expiry in the
/// years 1 to 9999 with less than a second of nanoseconds gives a text, as
/// the serializer of a token so made does not fail. Claimed of that text:
/// `serde_json::from_str` reads the credential back from it. The strings go
/// out escaped and come in unescaped, the lifetime as whole seconds, the
/// expiry as an RFC 3339 time with as many fraction digits as it needs; the
/// scopes go out joined by spaces and come in split at white space, so they
/// are claimed back only where they are plain. The text itself is not
/// claimed: the order of the scopes in it differs from process to process.
#[verifier::external_body]
fn serialize_token(credential: &Credential) -> (json: Option<String>)
    ensures
        within_the_calendar(credential@) ==> json.is_some() && reads_back(json.unwrap()@, credential@),
        !lifetime_in_bounds(credential@) ==> json.is_none(),
{
    let expires_at = match credential.expires_at {
        Some(at) => Some(chrono::DateTime::from_timestamp(at.secs, at.nanos)?),
        None => None,
    };
    let token = rspotify::Token {
        access_token: credential.access_token.clone(),
        expires_in: chrono::TimeDelta::try_seconds(credential.expires_in)?,
        expires_at,
        refresh_token: credential.refresh_token.clone(),
        scopes: credential.scopes.iter().cloned().collect(),
    };
    serde_json::to_string(&token).ok()
}

/// The slot that a run starts with, given the token text that was supplied
/// to it, if any.
pub open spec fn supplied(token_json: Option<Seq<char>>) -> Option<Option<CredentialView>> {
    match token_json {
        None => Some(None),
        Some(json) => match token_in(json) {
            Some(credential) => Some(Some(credential)),
            None => None,
        },
    }
}

/// Builds the slot that a run starts with. Without a text the slot is empty;
/// with a text it holds the credential of the text; `None` when the text
/// holds no credential.
pub fn supplied_slot(token_json: Option<&str>) -> (slot: Option<CredentialSlot>)
    ensures
        match slot {
            Some(built) => supplied(text_of(token_json)) == Some(built@),
            None => supplied(text_of(token_json)).is_none(),
        },
{
    match token_json {
        None => Some(CredentialSlot::new()),
        Some(json) => match parse_token(json) {
            Some(credential) => Some(CredentialSlot::with(Some(credential))),
            None => None,
        },
    }
}

/// A line that hands a credential out: `TOKEN=` and the serialized credential
/// in single quotes.
pub open spec fn emission_of(serialized: Seq<char>) -> Seq<char> {
    "TOKEN='"@ + serialized + "'"@
}

/// The line that hands a serialized credential out, in the form in which the
/// next run takes it in.
pub fn emission_line(serialized: &str) -> (line: String)
    ensures
        line@ == emission_of(serialized@),
{
    let mut line = String::from_str("TOKEN='");
    line.append(serialized);
    line.append("'");
    line
}

/// Serializes a credential and frames it as the line that hands it out. A
/// credential [`within_the_calendar`] always gives a line, and what stands
/// between the quotes of that line is a text from which the next run reads
/// the credential back. A credential whose lifetime is out of bounds never
/// gives a line. Beyond that the calendar of chrono decides.
pub fn emission(credential: &Credential) -> (line: Option<String>)
    ensures
        line matches Some(l) ==> exists|serialized: Seq<char>| l@ == emission_of(serialized),
        within_the_calendar(credential@) ==> (line matches Some(l) && exists|serialized: Seq<char>|
            l@ == emission_of(serialized) && reads_back(serialized, credential@)),
        !lifetime_in_bounds(credential@) ==> line.is_none(),
{
    match serialize_token(credential) {
        Some(json) => {
            let line = emission_line(json.as_str());
            assert(line@ == emission_of(json@));
            Some(line)
        },
        None => None,
    }
}

/// Whether a scope is plain: not empty, and made of printable ASCII
/// characters other than the space. Such a scope holds no white space.
pub open spec fn is_plain_scope(scope: Seq<char>) -> bool {
    &&& scope.len() > 0
    &&& forall|i: int| 0 <= i < scope.len() ==> '!' <= #[trigger] scope[i] <= '~'
}

/// Whether every scope of a credential is plain.
pub open spec fn plain_scopes(credential: CredentialView) -> bool {
    forall|scope: Seq<char>| #[trigger] credential.scopes.contains(scope) ==> is_plain_scope(scope)
}

/// Whether a serialized text holds this credential: the access token, the
/// lifetime, the expiry and the refresh token as they are, and the same set
/// of scopes where the scopes are plain.
pub open spec fn reads_back(serialized: Seq<char>, credential: CredentialView) -> bool {
    token_in(serialized) matches Some(back) && back.access_token == credential.access_token
        && back.expires_in == credential.expires_in && back.expires_at == credential.expires_at
        && back.refresh_token == credential.refresh_token && (plain_scopes(credential)
        ==> back.scopes == credential.scopes)
}

/// What one run hands out, the next run takes in: a text that reads back as
/// a credential with plain scopes, supplied to a run, fills its slot with
/// that very credential.
pub proof fn lemma_emitted_credential_is_supplied(
    serialized: Seq<char>,
    credential: CredentialView,
)
    requires
        reads_back(serialized, credential),
        plain_scopes(credential),
    ensures
        supplied(Some(serialized)) == Some(Some(credential)),
{
}

/// The longest lifetime, in seconds either way, that a token can be given.
pub const MAX_LIFETIME_SECS: i64 = 9_223_372_036_854_775;

/// Whether the lifetime of a credential is one that a token can be given.
pub open spec fn lifetime_in_bounds(credential: CredentialView) -> bool {
    -MAX_LIFETIME_SECS <= credential.expires_in <= MAX_LIFETIME_SECS
}

/// Whether a credential can be serialized for certain: its lifetime is in
/// bounds, and its expiry, if it has one, is an instant of the years 1 to
/// 9999 with less than a second's worth of nanoseconds.
pub open spec fn within_the_calendar(credential: CredentialView) -> bool {
    &&& lifetime_in_bounds(credential)
    &&& match credential.expires_at {
        None => true,
        Some(at) => crate::civil::FIRST_COMMON_SECOND <= at.secs
            <= crate::civil::LAST_COMMON_SECOND && at.nanos < 1_000_000_000,
    }
}

/// The characters of a text that may be missing.
pub open spec fn text_of(text: Option<&str>) -> Option<Seq<char>> {
    match text {
        Some(t) => Some(t@),
        None => None,
    }
}

} // verus!
