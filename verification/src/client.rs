//! A shared, pre-configured HTTP client handle.
//!
//! One HTTP client is built once, with a fixed total request timeout, and
//! then shared process-wide behind a reference-counted handle. Cloning the
//! handle duplicates the reference, not the client, so every holder uses
//! the same connection pool and the same configuration.

use std::sync::Arc;
use vstd::prelude::*;

verus! {

/// reqwest's HTTP client type; opaque here. Declared so that it can be
/// held behind the shared handle.
#[verifier::external_type_specification]
#[verifier::external_body]
pub struct ExClient(reqwest::Client);

/// The total request timeout, in seconds, configured on the shared client.
pub const CLIENT_TIMEOUT_SECS: u64 = 10;

/// Relies on reqwest::Client::builder, reqwest::ClientBuilder::timeout and
/// reqwest::ClientBuilder::build: builds an HTTP client whose total request
/// timeout (connection, send and receipt of the response) is the given
/// number of seconds. The ghost second component records the timeout the
/// builder was handed, so that handles can carry it in their model.
/// Construction fails only when the runtime environment is unusable
/// (reqwest documents: a TLS backend cannot be initialized, or the
/// resolver cannot load the system configuration); that failure aborts the
/// process rather than being surfaced to callers.
#[verifier::external_body]
fn build_client_with_timeout_secs(timeout_secs: u64) -> (r: (reqwest::Client, Ghost<u64>))
    ensures
        r.1@ == timeout_secs,
{
    let client = reqwest::Client::builder()
        .timeout(core::time::Duration::from_secs(timeout_secs))
        .build()
        .expect("Failed to create HTTP client");
    (client, Ghost(timeout_secs))
}

/// Relies on std::sync::Arc::clone: the new handle refers to the same
/// allocation as the old one, so both stand for the same value.
#[verifier::external_body]
fn clone_arc_client(handle: &Arc<reqwest::Client>) -> (r: Arc<reqwest::Client>)
    ensures
        r == *handle,
{
    Arc::clone(handle)
}

/// A shared HTTP client: one underlying client instance, pre-configured
/// with a fixed request timeout, behind a reference-counted handle. Any
/// number of holders may clone the handle cheaply; the client itself is
/// never duplicated and is dropped only when the last holder is. The ghost
/// second field carries the timeout the client was built with; it is set
/// at construction and never changed.
pub struct ApiClient(pub(crate) Arc<reqwest::Client>, pub(crate) Ghost<u64>);

impl Default for ApiClient {
    /// Builds the one underlying client, configured with the fixed total
    /// request timeout, and wraps it in a fresh handle. Aborts the process
    /// if the client cannot be built: an unusable runtime environment is
    /// not a recoverable condition.
    fn default() -> (r: Self)
        ensures
            r.timeout_secs() == CLIENT_TIMEOUT_SECS,
    {
        let (client, timeout) = build_client_with_timeout_secs(CLIENT_TIMEOUT_SECS);
        ApiClient(Arc::new(client), timeout)
    }
}

impl Clone for ApiClient {
    /// Duplicates the handle, not the client: the clone refers to the very
    /// same underlying client instance, so all holders share one connection
    /// pool and one configuration.
    fn clone(&self) -> (r: Self)
        ensures
            r == *self,
    {
        ApiClient(clone_arc_client(&self.0), self.1)
    }
}

impl ApiClient {
    /// The underlying client instance that this handle refers to.
    pub closed spec fn inner(&self) -> Arc<reqwest::Client> {
        self.0
    }

    /// The total request timeout, in seconds, that the underlying client
    /// was built with.
    pub closed spec fn timeout_secs(&self) -> u64 {
        self.1@
    }

    /// The underlying shared client, for issuing requests through.
    pub fn client(&self) -> (r: &Arc<reqwest::Client>)
        ensures
            *r == self.inner(),
    {
        &self.0
    }
}

/// A sequence of handles in which each one after the first was obtained by
/// cloning its predecessor: each satisfies the postcondition of
/// `ApiClient::clone` called on the handle before it.
pub open spec fn clone_chain(handles: Seq<ApiClient>) -> bool {
    forall|i: int|
        0 < i < handles.len() ==> call_ensures(
            <ApiClient as Clone>::clone,
            (&handles[i - 1],),
            #[trigger] handles[i],
        )
}

/// All clones of a handle are indistinguishable from it: along any chain
/// of clones, however long, every handle refers to the same underlying
/// client instance as the first and carries the same configured timeout.
/// Cloning never builds a new client.
pub proof fn lemma_clone_chain_shares_client(handles: Seq<ApiClient>, i: int)
    requires
        clone_chain(handles),
        0 <= i < handles.len(),
    ensures
        handles[i].inner() == handles[0].inner(),
        handles[i].timeout_secs() == handles[0].timeout_secs(),
    decreases i,
{
    if i > 0 {
        lemma_clone_chain_shares_client(handles, i - 1);
    }
}

} // verus!
