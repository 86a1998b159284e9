//! Building blocks for talking to Notion's private web API: the endpoint
//! table, the request and response records, the rules by which a request is
//! put together and a reply is judged, and helpers that pull a page
//! identifier out of a page link.

pub mod api;
pub mod models;
pub mod utils;

pub use api::paths;
pub use api::{NotionClient, NotionHeaders};
pub use utils::{extract_page_id_from_url, is_valid_notion_id};
