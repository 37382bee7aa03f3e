//! Relying-party side of an OpenID Connect implicit (ID token) sign-in against
//! one Azure AD tenant: the request-routing decision, the authorization
//! redirect, the callback form and the checks made before an identity token is
//! trusted.

pub mod authorize;
pub mod callback;
pub mod layer;
pub mod routing;
pub mod text;
pub mod token;

pub use authorize::{authorize, authorize_location, Redirect};
pub use callback::{CallbackData, CallbackError, FailureKind, Form, UserInfo};
pub use layer::{AzureADOIDC, AzureADOIDCLayer};
pub use routing::{route, Route};
pub use token::{
    begin_callback, metadata_url, prepare_verification, select_key, start_validation, Jwk,
    PendingToken, ProviderMetadata, ValidationPolicy,
};
