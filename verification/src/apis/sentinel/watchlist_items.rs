//! The items of a watchlist.

use crate::apis::{
    delete_resource, deleted, fetched, fetched_with, get_resource, list_resources, listing_of,
    put_resource, request_of, ApiError, BareReply, ListRun, Reply, Request,
};
use crate::apis::sentinel::SentinelWorkspace;
use crate::http::Method;
use crate::text::join3;
use crate::types::azure::common::ListResponse;
use crate::types::azure::sentinel::{CreateWatchlistItem, WatchlistItem};
use crate::types::azure::sentinel::raw::WatchlistItemResponse;
use vstd::prelude::*;
use vstd::string::*;

verus! {

pub open spec fn watchlist_items_path(watchlist_alias: Seq<char>) -> Seq<char> {
    "watchlists/"@ + watchlist_alias + "/watchlistItems"@
}

pub open spec fn watchlist_item_path(watchlist_alias: Seq<char>, watchlist_item_id: Seq<char>) -> Seq<
    char,
> {
    "watchlists/"@ + watchlist_alias + "/watchlistItems/"@ + watchlist_item_id
}

pub open spec fn watchlist_item_shape() -> Seq<char> {
    "WatchlistItemResponse"@
}

/// The path of the items of a watchlist.
pub fn watchlist_items_path_for(watchlist_alias: &str) -> (path: String)
    ensures
        path@ == watchlist_items_path(watchlist_alias@),
{
    join3("watchlists/", watchlist_alias, "/watchlistItems")
}

/// The path of one item of a watchlist.
pub fn watchlist_item_path_for(watchlist_alias: &str, watchlist_item_id: &str) -> (path: String)
    ensures
        path@ == watchlist_item_path(watchlist_alias@, watchlist_item_id@),
{
    join3("watchlists/", watchlist_alias, "/watchlistItems/").concat(watchlist_item_id)
}

pub struct WatchlistItems<'a> {
    pub scope: &'a SentinelWorkspace<'a>,
}

impl WatchlistItems<'_> {
    /// All items of a watchlist, from the replies to the requests of the
    /// list.
    pub fn list(
        &self,
        watchlist_alias: &str,
        replies: Vec<Reply<ListResponse<WatchlistItemResponse>>>,
    ) -> (run: ListRun<WatchlistItem>)
        ensures
            listing_of(
                *self.scope,
                watchlist_items_path(watchlist_alias@),
                watchlist_item_shape(),
                replies@,
                run,
            ),
    {
        let path = watchlist_items_path_for(watchlist_alias);
        list_resources(self.scope, path.as_str(), "WatchlistItemResponse", replies)
    }

    /// One item of a watchlist.
    pub fn get<F: FnOnce(Request) -> Reply<WatchlistItemResponse>>(
        &self,
        watchlist_alias: &str,
        watchlist_item_id: &str,
        send: F,
    ) -> (r: Result<WatchlistItem, ApiError>)
        requires
            forall|request: Request| call_requires(send, (request,)),
        ensures
            fetched(
                request_of(
                    *self.scope,
                    Method::Get,
                    watchlist_item_path(watchlist_alias@, watchlist_item_id@),
                ),
                watchlist_item_shape(),
                r,
                send,
            ),
    {
        let path = watchlist_item_path_for(watchlist_alias, watchlist_item_id);
        get_resource(self.scope, path.as_str(), "WatchlistItemResponse", send)
    }

    /// Creates an item of a watchlist or changes it.
    pub fn create_or_update<
        F: FnOnce(Request, &CreateWatchlistItem) -> Reply<WatchlistItemResponse>,
    >(&self, watchlist_alias: &str, watchlist_item_id: &str, body: &CreateWatchlistItem, send: F) -> (r:
        Result<WatchlistItem, ApiError>)
        requires
            forall|request: Request| call_requires(send, (request, body)),
        ensures
            fetched_with(
                request_of(
                    *self.scope,
                    Method::Put,
                    watchlist_item_path(watchlist_alias@, watchlist_item_id@),
                ),
                body,
                watchlist_item_shape(),
                r,
                send,
            ),
    {
        let path = watchlist_item_path_for(watchlist_alias, watchlist_item_id);
        put_resource(self.scope, path.as_str(), body, "WatchlistItemResponse", send)
    }

    /// Deletes an item of a watchlist.
    pub fn delete<F: FnOnce(Request) -> BareReply>(
        &self,
        watchlist_alias: &str,
        watchlist_item_id: &str,
        send: F,
    ) -> (r: Result<(), ApiError>)
        requires
            forall|request: Request| call_requires(send, (request,)),
        ensures
            deleted(
                request_of(
                    *self.scope,
                    Method::Delete,
                    watchlist_item_path(watchlist_alias@, watchlist_item_id@),
                ),
                r,
                send,
            ),
    {
        let path = watchlist_item_path_for(watchlist_alias, watchlist_item_id);
        delete_resource(self.scope, path.as_str(), send)
    }
}

} // verus!
