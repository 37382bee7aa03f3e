use vstd::prelude::*;

use crate::callback::{
    body_form_of, field, form_of, read_callback_form, CallbackError, FailureKind, Form,
};
use crate::text::{opt_view, same_text};

verus! {

#[verifier::external_type_specification]
#[verifier::external_body]
pub struct ExAlgorithm(jsonwebtoken::Algorithm);

#[verifier::external_type_specification]
#[verifier::external_body]
pub struct ExJwtError(jsonwebtoken::errors::Error);

/// The key ID named in the (unverified) header of a token; `None` when the
/// header cannot be read or names no key.
pub uninterp spec fn header_key_id(token: Seq<char>) -> Option<Seq<char>>;

/// Relies on jsonwebtoken::decode_header: reads the algorithm and the key ID
/// from a token's header, without checking its signature.
#[verifier::external_body]
fn decode_header(token: &str) -> (r: Result<(jsonwebtoken::Algorithm, Option<String>), jsonwebtoken::errors::Error>)
    ensures
        r matches Ok(h) ==> opt_view(h.1) == header_key_id(token@),
        r is Err ==> header_key_id(token@) is None,
{
    jsonwebtoken::decode_header(token).map(|h| (h.alg, h.kid))
}

/// One signing key of the provider's key set: its ID and its RSA modulus and
/// exponent.
#[derive(Debug, Clone)]
pub struct Jwk {
    pub kid: String,
    pub n: String,
    pub e: String,
}

/// What the middleware reads of the provider's discovery document.
#[derive(Debug, Clone)]
pub struct ProviderMetadata {
    pub issuer: String,
    pub jwks_uri: String,
}

/// An identity token whose header has been read, waiting for the provider's
/// metadata and keys.
#[derive(Debug)]
pub struct PendingToken {
    pub id_token: String,
    pub algorithm: jsonwebtoken::Algorithm,
    pub key_id: String,
    /// Where the provider's discovery document is fetched from.
    pub metadata_url: String,
}

/// The checks a token must pass: signed with `algorithm` by the selected key,
/// for `audience`, by `issuer`, within its validity window.
#[derive(Debug)]
pub struct ValidationPolicy {
    pub algorithm: jsonwebtoken::Algorithm,
    pub audience: String,
    pub issuer: String,
    pub validate_exp: bool,
    pub validate_nbf: bool,
}

/// Address of a tenant's discovery document.
pub open spec fn spec_metadata_url(tenant_id: Seq<char>) -> Seq<char> {
    "https://login.microsoftonline.com/"@ + tenant_id + "/v2.0/.well-known/openid-configuration"@
}

/// Builds the address of the tenant's discovery document.
pub fn metadata_url(tenant_id: &str) -> (r: String)
    ensures
        r@ == spec_metadata_url(tenant_id@),
{
    let mut url = String::from_str("https://login.microsoftonline.com/");
    url.append(tenant_id);
    url.append("/v2.0/.well-known/openid-configuration");
    url
}

/// Whether the keys hold one with this ID.
pub open spec fn has_key(keys: Seq<Jwk>, kid: Seq<char>) -> bool {
    exists|i: int| 0 <= i < keys.len() && keys[i].kid@ == kid
}

/// Index of the first key with this ID.
pub fn select_key(keys: &Vec<Jwk>, kid: &str) -> (r: Option<usize>)
    ensures
        r is None <==> !has_key(keys@, kid@),
        r matches Some(i) ==> i < keys@.len() && keys@[i as int].kid@ == kid@ && forall|j: int|
            0 <= j < i ==> keys@[j].kid@ != kid@,
{
    let mut i: usize = 0;
    while i < keys.len()
        invariant
            i <= keys@.len(),
            forall|j: int| 0 <= j < i ==> keys@[j].kid@ != kid@,
        decreases keys@.len() - i,
    {
        if same_text(keys[i].kid.as_str(), kid) {
            return Some(i);
        }
        i = i + 1;
    }
    None
}

/// Reads the header of an identity token.
pub fn read_token(id_token: String, tenant_id: &str) -> (r: Result<PendingToken, CallbackError>)
    ensures
        token_read(id_token@, tenant_id@, r),
{
    match decode_header(id_token.as_str()) {
        Ok((algorithm, Some(key_id))) => Ok(
            PendingToken { id_token, algorithm, key_id, metadata_url: metadata_url(tenant_id) },
        ),
        Ok((_, None)) => Err(
            CallbackError::failure(
                FailureKind::MalformedToken,
                String::from_str("the token header names no key"),
            ),
        ),
        Err(_) => Err(
            CallbackError::failure(
                FailureKind::MalformedToken,
                String::from_str("the token header cannot be read"),
            ),
        ),
    }
}

/// What handling a classified callback form leads to: the provider's own
/// error, a malformed-body failure, or what reading the token gives.
pub open spec fn started(form: Form, tenant_id: Seq<char>, r: Result<PendingToken, CallbackError>) -> bool {
    match form {
        Form::ProviderError(e) => r == Err::<PendingToken, CallbackError>(e),
        Form::Malformed => r matches Err(e) && e.error@ == FailureKind::MalformedCallbackBody.spec_code(),
        Form::IdToken(t) => token_read(t@, tenant_id, r),
    }
}

/// What reading the header of `token` leads to.
pub open spec fn token_read(token: Seq<char>, tenant_id: Seq<char>, r: Result<PendingToken, CallbackError>) -> bool {
    &&& r matches Ok(p) ==> p.id_token@ == token && header_key_id(token) == Some(p.key_id@)
        && p.metadata_url@ == spec_metadata_url(tenant_id)
    &&& r matches Err(e) ==> e.error@ == FailureKind::MalformedToken.spec_code()
    &&& r is Err <==> header_key_id(token) is None
}

/// Starts validating a classified callback form: the provider's error is
/// reported as it is, a malformed form is a failure, and a token has its
/// header read.
pub fn start_validation(form: Form, tenant_id: &str) -> (r: Result<PendingToken, CallbackError>)
    ensures
        started(form, tenant_id@, r),
{
    match form {
        Form::IdToken(token) => read_token(token, tenant_id),
        Form::ProviderError(e) => Err(e),
        Form::Malformed => Err(
            CallbackError::failure(
                FailureKind::MalformedCallbackBody,
                String::from_str("the callback form carries neither a token nor an error"),
            ),
        ),
    }
}

/// Reads a posted callback body and starts validating it.
pub fn begin_callback(body: &[u8], tenant_id: &str) -> (r: Result<PendingToken, CallbackError>)
    ensures
        exists|form: Form| body_form_of(form, body@) && #[trigger] started(form, tenant_id@, r),
{
    let form = read_callback_form(body);
    let ghost f = form;
    let r = start_validation(form, tenant_id);
    assert(started(f, tenant_id@, r));
    r
}

/// A callback form in which the provider reports an error, and carries no
/// token, ends in that error, code and description unchanged, and never in a
/// pending token.
pub proof fn lemma_provider_error_reported(
    pairs: Seq<(Seq<char>, Seq<char>)>,
    form: Form,
    tenant_id: Seq<char>,
    r: Result<PendingToken, CallbackError>,
)
    requires
        field(pairs, "id_token"@) is None,
        field(pairs, "error"@) is Some,
        field(pairs, "error_description"@) is Some,
        form_of(form, pairs),
        started(form, tenant_id, r),
    ensures
        r matches Err(e) && Some(e.error@) == field(pairs, "error"@) && Some(
            e.error_description@,
        ) == field(pairs, "error_description"@),
{
}

/// The checks for a pending token once the provider's metadata and keys are
/// known: the first key with the token's key ID, and a policy that asks for
/// the token's algorithm, the client as audience, the provider's issuer, and
/// both ends of the validity window. Fails with `UnknownSigningKey` exactly
/// when no key carries the token's key ID.
pub fn prepare_verification(
    pending: &PendingToken,
    client_id: &str,
    metadata: ProviderMetadata,
    keys: &Vec<Jwk>,
) -> (r: Result<(usize, ValidationPolicy), CallbackError>)
    ensures
        r is Err <==> !has_key(keys@, pending.key_id@),
        r matches Err(e) ==> e.error@ == FailureKind::UnknownSigningKey.spec_code(),
        r matches Ok((i, policy)) ==> {
            &&& i < keys@.len()
            &&& keys@[i as int].kid@ == pending.key_id@
            &&& forall|j: int| 0 <= j < i ==> keys@[j].kid@ != pending.key_id@
            &&& policy.algorithm == pending.algorithm
            &&& policy.audience@ == client_id@
            &&& policy.issuer@ == metadata.issuer@
            &&& policy.validate_exp
            &&& policy.validate_nbf
        },
{
    match select_key(keys, pending.key_id.as_str()) {
        None => Err(
            CallbackError::failure(
                FailureKind::UnknownSigningKey,
                String::from_str("no key of the provider's key set has the token's key ID"),
            ),
        ),
        Some(i) => Ok(
            (
                i,
                ValidationPolicy {
                    algorithm: pending.algorithm,
                    audience: client_id.to_owned(),
                    issuer: metadata.issuer,
                    validate_exp: true,
                    validate_nbf: true,
                },
            ),
        ),
    }
}

} // verus!
