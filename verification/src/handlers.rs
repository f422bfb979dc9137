//! The request handlers. Each endpoint's decision logic is a function from
//! plain values to a reply: the `*_outcome_reply` functions take the store's
//! outcome as an argument and are exact for every value of it, so the same
//! logic serves whatever store the host wires in. `Service` composes them
//! with the in-memory store into full, end-to-end verified endpoints.

use vstd::prelude::*;
use vstd::string::StringExecFns;
use crate::codegen::generate_short_code;
use crate::codegen::is_valid_code;
use crate::errors::AppError;
use crate::errors::StoreError;
use crate::errors::app_error_of_store;
use crate::errors::error_model;
use crate::reply::Body;
use crate::reply::HttpReply;
use crate::reply::ReplyModel;
use crate::reply::ShortenedUrl;
use crate::reply::healthy_model;
use crate::reply::not_found_model;
use crate::reply::redirect_model;
use crate::reply::shorten_ok_model;
use crate::reply::unhealthy_model;
use crate::store::MemStore;
use crate::validate::url_accepts;
use crate::validate::validate_url;

verus! {

/// The reply of a shorten request once the mapping was handed to the store:
/// 200 with the original and `base_url + "/" + code` on success, otherwise
/// the error mapping of the store failure.
pub fn shorten_outcome_reply(
    original: &str,
    base_url: &str,
    code: &str,
    stored: Result<(), StoreError>,
) -> (r: HttpReply)
    ensures
        stored is Ok ==> r@ == shorten_ok_model(original@, base_url@, code@),
        stored matches Err(e) ==> r@ == error_model(app_error_of_store(e)),
{
    match stored {
        Ok(()) => {
            let mut shortened = String::from_str(base_url);
            shortened.append("/");
            shortened.append(code);
            HttpReply {
                status: 200,
                body: Body::Shortened(
                    ShortenedUrl { original: String::from_str(original), shortened },
                ),
                location: Option::None,
            }
        },
        Err(e) => AppError::from_store(e).error_response(),
    }
}

/// The reply of a resolve request once the store answered: a permanent
/// redirect to the stored URL, 404 where the code is unknown, otherwise the
/// error mapping of the store failure.
pub fn resolve_outcome_reply(fetched: Result<Option<String>, StoreError>) -> (r: HttpReply)
    ensures
        fetched matches Ok(Some(u)) ==> r@ == redirect_model(u@),
        fetched matches Ok(None) ==> r@ == not_found_model(),
        fetched matches Err(e) ==> r@ == error_model(app_error_of_store(e)),
{
    match fetched {
        Ok(Some(u)) => HttpReply { status: 308, body: Body::Empty, location: Option::Some(u) },
        Ok(None) => HttpReply {
            status: 404,
            body: Body::Message(String::from_str("URL not found")),
            location: Option::None,
        },
        Err(e) => AppError::from_store(e).error_response(),
    }
}

/// The reply of a health check: 200 "Healthy" exactly when a connection was
/// obtained, 503 "Unhealthy" otherwise, whatever the failure was.
pub fn health_outcome_reply(ping: Result<(), StoreError>) -> (r: HttpReply)
    ensures
        ping is Ok ==> r@ == healthy_model(),
        ping is Err ==> r@ == unhealthy_model(),
{
    match ping {
        Ok(()) => HttpReply {
            status: 200,
            body: Body::Message(String::from_str("Healthy")),
            location: Option::None,
        },
        Err(_) => HttpReply {
            status: 503,
            body: Body::Message(String::from_str("Unhealthy")),
            location: Option::None,
        },
    }
}

/// What resolving `code` against stored mappings `m` replies when the store's
/// reachability is `reachable`.
pub open spec fn resolve_model(m: Map<Seq<char>, Seq<char>>, reachable: bool, code: Seq<char>) -> ReplyModel {
    if !reachable {
        error_model(AppError::StoreUnavailable)
    } else if m.contains_key(code) {
        redirect_model(m[code])
    } else {
        not_found_model()
    }
}

/// What the health endpoint replies for a store with reachability `reachable`.
pub open spec fn health_model(reachable: bool) -> ReplyModel {
    if reachable {
        healthy_model()
    } else {
        unhealthy_model()
    }
}

/// The whole service: its stored mappings and the base URL that prefixes
/// every shortened URL handed back to clients.
pub struct Service {
    pub store: MemStore,
    pub base_url: String,
}

impl Service {
    /// A fresh service around an empty, reachable store.
    pub fn new(base_url: String) -> (r: Service)
        ensures
            r.store.map() == Map::<Seq<char>, Seq<char>>::empty(),
            r.store.is_reachable(),
            r.base_url@ == base_url@,
    {
        Service { store: MemStore::new(), base_url }
    }

    /// The shorten endpoint. An ill-formed URL is rejected with 400 and
    /// nothing is stored; a store failure is mapped to 503 and nothing is
    /// stored; otherwise some well-formed short code was stored for
    /// `original` and the reply carries the full shortened URL.
    pub fn shorten_url(&mut self, original: &str) -> (r: HttpReply)
        ensures
            final(self).store.is_reachable() == old(self).store.is_reachable(),
            final(self).base_url@ == old(self).base_url@,
            !url_accepts(original@) ==> r@ == crate::reply::message_model(
                400,
                "Invalid URL format"@,
            ) && final(self).store.map() == old(self).store.map(),
            url_accepts(original@) && !old(self).store.is_reachable() ==> r@ == error_model(
                AppError::StoreUnavailable,
            ) && final(self).store.map() == old(self).store.map(),
            url_accepts(original@) && old(self).store.is_reachable() ==> exists|code: Seq<char>|
                #[trigger] is_valid_code(code)
                && final(self).store.map() == old(self).store.map().insert(code, original@)
                && r@ == shorten_ok_model(original@, old(self).base_url@, code),
    {
        match validate_url(original) {
            Err(e) => e.error_response(),
            Ok(()) => {
                let code = generate_short_code();
                let stored = self.store.put(code.as_str(), original);
                shorten_outcome_reply(original, self.base_url.as_str(), code.as_str(), stored)
            },
        }
    }

    /// The resolve endpoint: a permanent redirect to the URL stored under
    /// `code`, 404 where no mapping exists, 503 where the store is
    /// unreachable. Nothing is mutated.
    pub fn get_original_url(&self, code: &str) -> (r: HttpReply)
        ensures
            r@ == resolve_model(self.store.map(), self.store.is_reachable(), code@),
    {
        resolve_outcome_reply(self.store.get(code))
    }

    /// The health endpoint: 200 "Healthy" exactly when the store can hand out
    /// a connection, 503 "Unhealthy" otherwise. No mapping data is touched.
    pub fn health_check(&self) -> (r: HttpReply)
        ensures
            r@ == health_model(self.store.is_reachable()),
    {
        health_outcome_reply(self.store.ping())
    }
}

} // verus!
