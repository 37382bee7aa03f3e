use vstd::prelude::*;

verus! {

/// Configuration of the middleware: the tenant, the registered client and the
/// URL the identity provider posts back to. `T` is the shape of the claims that
/// a validated identity token is decoded into.
#[derive(Debug)]
#[verifier::reject_recursive_types(T)]
pub struct AzureADOIDCLayer<T> {
    tenant_id: String,
    client_id: String,
    callback_url: String,
    phantom: core::marker::PhantomData<T>,
}

impl<T> AzureADOIDCLayer<T> {
    pub closed spec fn spec_tenant_id(&self) -> Seq<char> {
        self.tenant_id@
    }

    pub closed spec fn spec_client_id(&self) -> Seq<char> {
        self.client_id@
    }

    pub closed spec fn spec_callback_url(&self) -> Seq<char> {
        self.callback_url@
    }

    /// Builds the configuration; it is never changed afterwards.
    pub fn new(tenant_id: String, client_id: String, callback_url: String) -> (r: Self)
        ensures
            r.spec_tenant_id() == tenant_id@,
            r.spec_client_id() == client_id@,
            r.spec_callback_url() == callback_url@,
    {
        AzureADOIDCLayer { tenant_id, client_id, callback_url, phantom: core::marker::PhantomData }
    }

    /// Wraps a service with this configuration.
    pub fn layer<S>(&self, service: S) -> (r: AzureADOIDC<S, T>)
        ensures
            r.spec_inner() == service,
            r.spec_tenant_id() == self.spec_tenant_id(),
            r.spec_client_id() == self.spec_client_id(),
            r.spec_callback_url() == self.spec_callback_url(),
    {
        AzureADOIDC {
            inner: service,
            tenant_id: self.tenant_id.clone(),
            client_id: self.client_id.clone(),
            callback_url: self.callback_url.clone(),
            phantom: core::marker::PhantomData,
        }
    }
}

/// A service wrapped by the middleware, with the configuration it was made with.
#[derive(Debug)]
#[verifier::reject_recursive_types(T)]
pub struct AzureADOIDC<S, T> {
    inner: S,
    tenant_id: String,
    client_id: String,
    callback_url: String,
    phantom: core::marker::PhantomData<T>,
}

impl<S: Clone, T> Clone for AzureADOIDC<S, T> {
    fn clone(&self) -> Self {
        AzureADOIDC {
            inner: self.inner.clone(),
            tenant_id: self.tenant_id.clone(),
            client_id: self.client_id.clone(),
            callback_url: self.callback_url.clone(),
            phantom: core::marker::PhantomData,
        }
    }
}

impl<S, T> AzureADOIDC<S, T> {
    pub closed spec fn spec_inner(&self) -> S {
        self.inner
    }

    /// The wrapped service.
    pub fn inner(&self) -> (r: &S)
        ensures
            *r == self.spec_inner(),
    {
        &self.inner
    }

    pub closed spec fn spec_tenant_id(&self) -> Seq<char> {
        self.tenant_id@
    }

    pub closed spec fn spec_client_id(&self) -> Seq<char> {
        self.client_id@
    }

    pub closed spec fn spec_callback_url(&self) -> Seq<char> {
        self.callback_url@
    }

    pub fn tenant_id(&self) -> (r: &str)
        ensures
            r@ == self.spec_tenant_id(),
    {
        self.tenant_id.as_str()
    }

    pub fn client_id(&self) -> (r: &str)
        ensures
            r@ == self.spec_client_id(),
    {
        self.client_id.as_str()
    }

    pub fn callback_url(&self) -> (r: &str)
        ensures
            r@ == self.spec_callback_url(),
    {
        self.callback_url.as_str()
    }
}

} // verus!
