//! The client side of the API: where requests go, what they carry, and how a
//! reply is judged.

use vstd::prelude::*;

mod client;
pub mod endpoints;

pub use client::{
    auth_headers, digit_char, failure_message, failure_text, judged, starts_with_code,
    status_text, ApiError, Header, HttpMethod, HttpStatus, NotionClient, Payload, Request,
    RequestView, TransportOutcome, USER_AGENT,
};
pub use endpoints::paths;
pub use endpoints::{
    Cursor, GetBlockRequest, GetBlocksRequest, LoadPageChunkRequest, Operation, SearchRequest,
    SubmitTransactionRequest, Transaction,
};

verus! {

/// Address under which every endpoint lives.
pub const NOTION_API_BASE: &'static str = "https://www.notion.so/api";

/// Address of the site itself, under which pages live.
pub const NOTION_WWW_BASE: &'static str = "https://www.notion.so";

/// What identifies the caller to the service.
#[derive(Debug, Clone)]
pub struct NotionHeaders {
    /// The value of the `token_v2` cookie.
    pub token: String,
    /// The user on whose behalf requests are made, where one is chosen.
    pub user_id: Option<String>,
}

/// The text of a `NotionHeaders`.
pub struct HeadersView {
    pub token: Seq<char>,
    pub user_id: Option<Seq<char>>,
}

impl View for NotionHeaders {
    type V = HeadersView;

    open spec fn view(&self) -> HeadersView {
        HeadersView {
            token: self.token@,
            user_id: match self.user_id {
                Some(u) => Some(u@),
                None => None,
            },
        }
    }
}

impl NotionHeaders {
    /// Headers that carry `token` and name no user.
    pub fn new(token: String) -> (r: Self)
        ensures
            r.token == token,
            r.user_id is None,
            r@ == (HeadersView { token: token@, user_id: None }),
    {
        Self { token, user_id: None }
    }

    /// The same headers, on behalf of `user_id`.
    pub fn with_user_id(self, user_id: String) -> (r: Self)
        ensures
            r.token == self.token,
            r.user_id == Some(user_id),
            r@ == (HeadersView { token: self@.token, user_id: Some(user_id@) }),
    {
        let mut this = self;
        this.user_id = Some(user_id);
        this
    }
}

} // verus!
