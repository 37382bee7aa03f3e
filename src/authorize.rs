use vstd::prelude::*;

use crate::text::opt_view;

verus! {

/// Serialization of a URL after one more path segment is pushed onto it;
/// `None` when the URL does not parse or cannot be a base.
pub uninterp spec fn with_path_segment(url: Seq<char>, segment: Seq<char>) -> Option<Seq<char>>;

/// Serialization of a URL after one more name/value pair is appended to its
/// query; `None` when the URL does not parse.
pub uninterp spec fn with_query_pair(url: Seq<char>, name: Seq<char>, value: Seq<char>) -> Option<
    Seq<char>,
>;

/// Relies on url::PathSegmentsMut::push: percent-encodes the segment and adds
/// it to the path. `None` when the URL does not parse or cannot be a base.
#[verifier::external_body]
fn push_path_segment(url: &str, segment: &str) -> (r: Option<String>)
    ensures
        opt_view(r) == with_path_segment(url@, segment@),
{
    let mut parsed = url::Url::parse(url).ok()?;
    parsed.path_segments_mut().ok()?.push(segment);
    Some(parsed.into())
}

/// Relies on url::form_urlencoded::Serializer::append_pair, through
/// url::Url::query_pairs_mut: form-encodes the pair and adds it to the query.
/// `None` when the URL does not parse.
#[verifier::external_body]
fn append_query_pair(url: &str, name: &str, value: &str) -> (r: Option<String>)
    ensures
        opt_view(r) == with_query_pair(url@, name@, value@),
{
    let mut parsed = url::Url::parse(url).ok()?;
    parsed.query_pairs_mut().append_pair(name, value);
    Some(parsed.into())
}

/// Relies on uuid::Uuid::new_v4 for a random version 4 UUID, written in the
/// hyphenated form of 36 characters (uuid::adapter::Hyphenated::LENGTH).
#[verifier::external_body]
fn new_nonce() -> (r: String)
    ensures
        r@.len() == 36,
{
    uuid::Uuid::new_v4().to_hyphenated().to_string()
}

/// Origin of the identity provider.
pub open spec fn provider_origin() -> Seq<char> {
    "https://login.microsoftonline.com"@
}

/// Pushes a segment onto a URL that was built so far.
pub open spec fn then_segment(url: Option<Seq<char>>, segment: Seq<char>) -> Option<Seq<char>> {
    match url {
        Some(u) => with_path_segment(u, segment),
        None => None,
    }
}

/// Appends a query pair to a URL that was built so far.
pub open spec fn then_pair(url: Option<Seq<char>>, name: Seq<char>, value: Seq<char>) -> Option<
    Seq<char>,
> {
    match url {
        Some(u) => with_query_pair(u, name, value),
        None => None,
    }
}

/// The authorization endpoint of a tenant.
pub open spec fn spec_authorize_endpoint(tenant_id: Seq<char>) -> Option<Seq<char>> {
    let u = with_path_segment(provider_origin(), tenant_id);
    then_segment(then_segment(then_segment(u, "oauth2"@), "v2.0"@), "authorize"@)
}

/// The authorization URL: the tenant's endpoint with, in this order, the
/// client ID, an ID-token-only response type, the callback URL, the form-post
/// response mode, the `openid profile` scope and the nonce.
pub open spec fn spec_authorize_location(
    tenant_id: Seq<char>,
    client_id: Seq<char>,
    callback_url: Seq<char>,
    nonce: Seq<char>,
) -> Option<Seq<char>> {
    let u1 = then_pair(spec_authorize_endpoint(tenant_id), "client_id"@, client_id);
    let u2 = then_pair(u1, "response_type"@, "id_token"@);
    let u3 = then_pair(u2, "redirect_url"@, callback_url);
    let u4 = then_pair(u3, "response_mode"@, "form_post"@);
    let u5 = then_pair(u4, "scope"@, "openid profile"@);
    then_pair(u5, "nonce"@, nonce)
}

/// Builds the authorization URL for a tenant, a client, a callback URL and a
/// nonce.
pub fn authorize_location(tenant_id: &str, client_id: &str, callback_url: &str, nonce: &str) -> (r:
    Option<String>)
    ensures
        opt_view(r) == spec_authorize_location(tenant_id@, client_id@, callback_url@, nonce@),
{
    let u = push_path_segment("https://login.microsoftonline.com", tenant_id)?;
    let u = push_path_segment(u.as_str(), "oauth2")?;
    let u = push_path_segment(u.as_str(), "v2.0")?;
    let u = push_path_segment(u.as_str(), "authorize")?;
    let u = append_query_pair(u.as_str(), "client_id", client_id)?;
    let u = append_query_pair(u.as_str(), "response_type", "id_token")?;
    let u = append_query_pair(u.as_str(), "redirect_url", callback_url)?;
    let u = append_query_pair(u.as_str(), "response_mode", "form_post")?;
    let u = append_query_pair(u.as_str(), "scope", "openid profile")?;
    append_query_pair(u.as_str(), "nonce", nonce)
}

/// Status code of the redirect: 302 Found.
pub const FOUND: u16 = 302;

/// The answer to a request that starts the sign-in: a redirect to the
/// provider's authorization endpoint, with an empty body.
#[derive(Debug, Clone)]
pub struct Redirect {
    pub status: u16,
    pub location: String,
    /// The nonce embedded in `location`.
    pub nonce: String,
}

/// Starts the sign-in: a 302 redirect to the tenant's authorization endpoint,
/// carrying a fresh random nonce. The nonce is not kept: nothing checks it
/// when the provider answers.
pub fn authorize(tenant_id: &str, client_id: &str, callback_url: &str) -> (r: Option<Redirect>)
    ensures
        r matches Some(redirect) ==> {
            &&& redirect.status == 302
            &&& redirect.nonce@.len() == 36
            &&& spec_authorize_location(tenant_id@, client_id@, callback_url@, redirect.nonce@)
                == Some(redirect.location@)
        },
        r is None ==> exists|nonce: Seq<char>|
            nonce.len() == 36 && #[trigger] spec_authorize_location(
                tenant_id@,
                client_id@,
                callback_url@,
                nonce,
            ) is None,
{
    let nonce = new_nonce();
    match authorize_location(tenant_id, client_id, callback_url, nonce.as_str()) {
        Some(location) => Some(Redirect { status: FOUND, location, nonce }),
        None => {
            assert(spec_authorize_location(tenant_id@, client_id@, callback_url@, nonce@) is None);
            None
        },
    }
}

} // verus!
