//! The watchlists of a workspace.

use crate::apis::{
    delete_resource, deleted, fetched, fetched_with, get_resource, list_resources, listing_of,
    put_resource, request_of, ApiError, BareReply, ListRun, Reply, Request,
};
use crate::apis::sentinel::SentinelWorkspace;
use crate::http::Method;
use crate::text::join2;
use crate::types::azure::common::ListResponse;
use crate::types::azure::sentinel::{CreateWatchlist, Watchlist};
use crate::types::azure::sentinel::raw::WatchlistResponse;
use vstd::prelude::*;
use vstd::string::*;

verus! {

pub open spec fn watchlists_path() -> Seq<char> {
    "watchlists"@
}

pub open spec fn watchlist_path(watchlist_alias: Seq<char>) -> Seq<char> {
    "watchlists/"@ + watchlist_alias
}

pub open spec fn watchlist_shape() -> Seq<char> {
    "WatchlistResponse"@
}

/// The path of one watchlist.
pub fn watchlist_path_for(watchlist_alias: &str) -> (path: String)
    ensures
        path@ == watchlist_path(watchlist_alias@),
{
    join2("watchlists/", watchlist_alias)
}

pub struct Watchlists<'a> {
    pub scope: &'a SentinelWorkspace<'a>,
}

impl Watchlists<'_> {
    /// All watchlists, from the replies to the requests of the list.
    pub fn list(&self, replies: Vec<Reply<ListResponse<WatchlistResponse>>>) -> (run: ListRun<
        Watchlist,
    >)
        ensures
            listing_of(*self.scope, watchlists_path(), watchlist_shape(), replies@, run),
    {
        list_resources(self.scope, "watchlists", "WatchlistResponse", replies)
    }

    /// One watchlist by its alias.
    pub fn get<F: FnOnce(Request) -> Reply<WatchlistResponse>>(
        &self,
        watchlist_alias: &str,
        send: F,
    ) -> (r: Result<Watchlist, ApiError>)
        requires
            forall|request: Request| call_requires(send, (request,)),
        ensures
            fetched(
                request_of(*self.scope, Method::Get, watchlist_path(watchlist_alias@)),
                watchlist_shape(),
                r,
                send,
            ),
    {
        let path = watchlist_path_for(watchlist_alias);
        get_resource(self.scope, path.as_str(), "WatchlistResponse", send)
    }

    /// Creates a watchlist or changes it.
    pub fn create_or_update<F: FnOnce(Request, &CreateWatchlist) -> Reply<WatchlistResponse>>(
        &self,
        watchlist_alias: &str,
        body: &CreateWatchlist,
        send: F,
    ) -> (r: Result<Watchlist, ApiError>)
        requires
            forall|request: Request| call_requires(send, (request, body)),
        ensures
            fetched_with(
                request_of(*self.scope, Method::Put, watchlist_path(watchlist_alias@)),
                body,
                watchlist_shape(),
                r,
                send,
            ),
    {
        let path = watchlist_path_for(watchlist_alias);
        put_resource(self.scope, path.as_str(), body, "WatchlistResponse", send)
    }

    /// Deletes a watchlist.
    pub fn delete<F: FnOnce(Request) -> BareReply>(&self, watchlist_alias: &str, send: F) -> (r:
        Result<(), ApiError>)
        requires
            forall|request: Request| call_requires(send, (request,)),
        ensures
            deleted(
                request_of(*self.scope, Method::Delete, watchlist_path(watchlist_alias@)),
                r,
                send,
            ),
    {
        let path = watchlist_path_for(watchlist_alias);
        delete_resource(self.scope, path.as_str(), send)
    }
}

} // verus!
