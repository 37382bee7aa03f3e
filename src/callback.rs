use vstd::prelude::*;

use crate::text::{opt_view, same_text};

verus! {

/// An error reported by the identity provider in its callback form, or a
/// failure found while handling the callback.
#[derive(Debug, Clone)]
pub struct CallbackError {
    pub error: String,
    pub error_description: String,
}

/// Outcome of one callback: the decoded claims or the reason there are none.
#[derive(Debug)]
pub enum CallbackData<T> {
    Success(T),
    Failure(CallbackError),
}

/// Claims shape that keeps nothing of the token's payload.
#[derive(Debug, Clone, Copy, PartialEq, Eq, Structural)]
pub struct UserInfo {}

/// Failures found by the middleware itself while handling a callback.
#[derive(Debug, Clone, Copy, PartialEq, Eq, Structural)]
pub enum FailureKind {
    /// The posted body is neither a token form nor an error form.
    MalformedCallbackBody,
    /// The token's header cannot be read or names no key.
    MalformedToken,
    /// The provider's discovery document could not be fetched.
    MetadataFetchError,
    /// The provider's key set could not be fetched.
    KeySetFetchError,
    /// No key of the fetched set carries the token's key ID.
    UnknownSigningKey,
    /// Signature, audience, issuer, expiry or not-before check failed.
    ClaimValidationError,
    /// The claims do not have the expected shape.
    ClaimsDecodeError,
}

impl FailureKind {
    pub open spec fn spec_code(self) -> Seq<char> {
        match self {
            FailureKind::MalformedCallbackBody => "malformed_callback_body"@,
            FailureKind::MalformedToken => "malformed_token"@,
            FailureKind::MetadataFetchError => "metadata_fetch_error"@,
            FailureKind::KeySetFetchError => "key_set_fetch_error"@,
            FailureKind::UnknownSigningKey => "unknown_signing_key"@,
            FailureKind::ClaimValidationError => "claim_validation_error"@,
            FailureKind::ClaimsDecodeError => "claims_decode_error"@,
        }
    }

    /// The error code under which this failure is reported.
    pub fn code(&self) -> (r: String)
        ensures
            r@ == self.spec_code(),
    {
        match self {
            FailureKind::MalformedCallbackBody => String::from_str("malformed_callback_body"),
            FailureKind::MalformedToken => String::from_str("malformed_token"),
            FailureKind::MetadataFetchError => String::from_str("metadata_fetch_error"),
            FailureKind::KeySetFetchError => String::from_str("key_set_fetch_error"),
            FailureKind::UnknownSigningKey => String::from_str("unknown_signing_key"),
            FailureKind::ClaimValidationError => String::from_str("claim_validation_error"),
            FailureKind::ClaimsDecodeError => String::from_str("claims_decode_error"),
        }
    }
}

impl CallbackError {
    /// Whether this error reports the given failure with the given description.
    pub open spec fn is_failure(self, kind: FailureKind, description: Seq<char>) -> bool {
        self.error@ == kind.spec_code() && self.error_description@ == description
    }

    /// The error that reports a failure of the middleware's own checks.
    pub fn failure(kind: FailureKind, description: String) -> (r: CallbackError)
        ensures
            r.is_failure(kind, description@),
    {
        CallbackError { error: kind.code(), error_description: description }
    }

    /// The error for a token that failed verification: `ClaimsDecodeError`
    /// when the signed payload does not have the expected shape, else
    /// `ClaimValidationError`.
    pub fn verification_failure(payload_shape: bool, description: String) -> (r: CallbackError)
        ensures
            payload_shape ==> r.is_failure(FailureKind::ClaimsDecodeError, description@),
            !payload_shape ==> r.is_failure(FailureKind::ClaimValidationError, description@),
    {
        if payload_shape {
            CallbackError::failure(FailureKind::ClaimsDecodeError, description)
        } else {
            CallbackError::failure(FailureKind::ClaimValidationError, description)
        }
    }
}

/// The posted callback form, by the fields it carries.
#[derive(Debug)]
pub enum Form {
    /// The form carries an identity token.
    IdToken(String),
    /// The provider reported an error.
    ProviderError(CallbackError),
    /// Neither shape.
    Malformed,
}

/// The decoded pairs of a form, as character sequences.
pub open spec fn pairs_view(pairs: Seq<(String, String)>) -> Seq<(Seq<char>, Seq<char>)> {
    pairs.map_values(|p: (String, String)| (p.0@, p.1@))
}

/// The value of the first pair named `key`.
pub open spec fn first_value(pairs: Seq<(Seq<char>, Seq<char>)>, key: Seq<char>) -> Option<Seq<char>>
    decreases pairs.len(),
{
    if pairs.len() == 0 {
        None
    } else if pairs[0].0 == key {
        Some(pairs[0].1)
    } else {
        first_value(pairs.drop_first(), key)
    }
}

/// How many pairs are named `key`.
pub open spec fn key_count(pairs: Seq<(Seq<char>, Seq<char>)>, key: Seq<char>) -> nat
    decreases pairs.len(),
{
    if pairs.len() == 0 {
        0
    } else {
        key_count(pairs.drop_last(), key) + if pairs.last().0 == key {
            1nat
        } else {
            0nat
        }
    }
}

/// The value of the field `key`, when exactly one pair carries it.
pub open spec fn field(pairs: Seq<(Seq<char>, Seq<char>)>, key: Seq<char>) -> Option<Seq<char>> {
    if key_count(pairs, key) == 1 {
        first_value(pairs, key)
    } else {
        None
    }
}

/// `form` is the shape of a callback form with these pairs: a token form when
/// the `id_token` field is present, else an error form when both the `error`
/// and `error_description` fields are, else malformed. A field given twice
/// counts as absent; other pairs are ignored.
pub open spec fn form_of(form: Form, pairs: Seq<(Seq<char>, Seq<char>)>) -> bool {
    match field(pairs, "id_token"@) {
        Some(token) => form matches Form::IdToken(t) && t@ == token,
        None => match (field(pairs, "error"@), field(pairs, "error_description"@)) {
            (Some(code), Some(description)) => form matches Form::ProviderError(e) && e.error@ == code
                && e.error_description@ == description,
            _ => form is Malformed,
        },
    }
}

/// The pairs that a form-urlencoded body decodes to; `None` when it cannot be
/// decoded.
pub uninterp spec fn form_pairs(body: Seq<u8>) -> Option<Seq<(Seq<char>, Seq<char>)>>;

#[verifier::external_type_specification]
#[verifier::external_body]
pub struct ExFormError(serde_urlencoded::de::Error);

/// Relies on serde_urlencoded::from_bytes: decodes a form-urlencoded body into
/// its name/value pairs, in the order they occur.
#[verifier::external_body]
fn decode_form(body: &[u8]) -> (r: Result<Vec<(String, String)>, serde_urlencoded::de::Error>)
    ensures
        r matches Ok(pairs) ==> form_pairs(body@) == Some(pairs_view(pairs@)),
        r is Err ==> form_pairs(body@) is None,
{
    serde_urlencoded::from_bytes::<Vec<(String, String)>>(body)
}

/// The value of the first pair named `key`.
fn find_value(pairs: &Vec<(String, String)>, key: &str) -> (r: Option<String>)
    ensures
        opt_view(r) == first_value(pairs_view(pairs@), key@),
{
    let ghost all = pairs_view(pairs@);
    let mut i: usize = 0;
    assert(all.subrange(0, all.len() as int) =~= all);
    while i < pairs.len()
        invariant
            i <= pairs@.len(),
            all == pairs_view(pairs@),
            first_value(all, key@) == first_value(all.subrange(i as int, all.len() as int), key@),
        decreases pairs@.len() - i,
    {
        let ghost rest = all.subrange(i as int, all.len() as int);
        assert(rest.drop_first() =~= all.subrange(i + 1, all.len() as int));
        if same_text(pairs[i].0.as_str(), key) {
            return Some(pairs[i].1.clone());
        }
        i = i + 1;
    }
    assert(all.subrange(i as int, all.len() as int).len() == 0);
    None
}

/// How many pairs are named `key`.
fn count_key(pairs: &Vec<(String, String)>, key: &str) -> (r: usize)
    ensures
        r == key_count(pairs_view(pairs@), key@),
{
    let ghost all = pairs_view(pairs@);
    let mut count: usize = 0;
    let mut i: usize = 0;
    assert(all.take(0) =~= Seq::<(Seq<char>, Seq<char>)>::empty());
    while i < pairs.len()
        invariant
            i <= pairs@.len(),
            all == pairs_view(pairs@),
            count <= i,
            count == key_count(all.take(i as int), key@),
        decreases pairs@.len() - i,
    {
        assert(all.take(i + 1).drop_last() =~= all.take(i as int));
        if same_text(pairs[i].0.as_str(), key) {
            count = count + 1;
        }
        i = i + 1;
    }
    assert(all.take(i as int) =~= all);
    count
}

/// The value of the field `key`, when exactly one pair carries it.
fn find_field(pairs: &Vec<(String, String)>, key: &str) -> (r: Option<String>)
    ensures
        opt_view(r) == field(pairs_view(pairs@), key@),
{
    if count_key(pairs, key) == 1 {
        find_value(pairs, key)
    } else {
        None
    }
}

/// Classifies the decoded pairs of a callback form.
pub fn form_from_pairs(pairs: &Vec<(String, String)>) -> (r: Form)
    ensures
        form_of(r, pairs_view(pairs@)),
{
    match find_field(pairs, "id_token") {
        Some(token) => Form::IdToken(token),
        None => match (find_field(pairs, "error"), find_field(pairs, "error_description")) {
            (Some(error), Some(error_description)) => Form::ProviderError(
                CallbackError { error, error_description },
            ),
            _ => Form::Malformed,
        },
    }
}

/// The shape of a posted callback body: that of its pairs, or malformed when
/// it cannot be decoded as a form.
pub open spec fn body_form_of(form: Form, body: Seq<u8>) -> bool {
    match form_pairs(body) {
        Some(pairs) => form_of(form, pairs),
        None => form is Malformed,
    }
}

/// Decodes and classifies a posted callback body.
pub fn read_callback_form(body: &[u8]) -> (r: Form)
    ensures
        body_form_of(r, body@),
{
    match decode_form(body) {
        Ok(pairs) => form_from_pairs(&pairs),
        Err(_) => Form::Malformed,
    }
}

} // verus!
