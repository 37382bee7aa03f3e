use vstd::prelude::*;

use crate::text::same_text;

verus! {

/// Path that starts the sign-in flow.
pub open spec fn login_path() -> Seq<char> {
    "/auth/azure"@
}

/// Path on which the identity provider posts its answer.
pub open spec fn callback_path() -> Seq<char> {
    "/auth/azure/callback"@
}

/// What the middleware does with one request.
#[derive(Debug, Clone, Copy, PartialEq, Eq, Structural)]
pub enum Route {
    /// Answer with a redirect to the identity provider; the wrapped service is not called.
    Authorize,
    /// Read the posted form, validate it and forward the request with an empty body.
    Callback,
    /// Forward the request unchanged.
    PassThrough,
}

/// The route taken by a request with this method and path.
pub open spec fn spec_route(method: Seq<char>, path: Seq<char>) -> Route {
    if method == "GET"@ && path == login_path() {
        Route::Authorize
    } else if method == "POST"@ && path == callback_path() {
        Route::Callback
    } else {
        Route::PassThrough
    }
}

/// Decides the route of a request from its method name and the path of its URI.
pub fn route(method: &str, path: &str) -> (r: Route)
    ensures
        r == spec_route(method@, path@),
{
    if same_text(method, "GET") && same_text(path, "/auth/azure") {
        Route::Authorize
    } else if same_text(method, "POST") && same_text(path, "/auth/azure/callback") {
        Route::Callback
    } else {
        Route::PassThrough
    }
}

} // verus!
