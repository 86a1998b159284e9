//! The bodies that the endpoints take. Their fields are the service's own;
//! nothing here reads or checks them.

use vstd::prelude::*;

pub mod paths;

verus! {

/// Asks for one chunk of a page's content.
#[derive(Debug)]
pub struct LoadPageChunkRequest {
    pub page_id: String,
    pub chunk_number: u32,
    pub cur_cursor: Option<Cursor>,
    pub vertical_columns: Option<bool>,
}

/// Where the previous chunk ended.
#[derive(Debug)]
pub struct Cursor {
    pub stack: Vec<serde_json::Value>,
}

/// Asks for the pages that match a query.
#[derive(Debug)]
pub struct SearchRequest {
    pub query: String,
    pub ancestor_id: Option<String>,
    pub space_id: Option<String>,
    pub limit: Option<u32>,
}

/// Asks for one block.
#[derive(Debug)]
pub struct GetBlockRequest {
    pub block_id: String,
}

/// Asks for several blocks.
#[derive(Debug)]
pub struct GetBlocksRequest {
    pub block_ids: Vec<String>,
}

/// Submits changes.
#[derive(Debug)]
pub struct SubmitTransactionRequest {
    pub request_id: String,
    pub transactions: Vec<Transaction>,
}

/// Changes that are applied together.
#[derive(Debug)]
pub struct Transaction {
    pub id: String,
    pub operations: Vec<Operation>,
}

/// One change: a command on the field at `path` of record `id` in `table`.
#[derive(Debug)]
pub struct Operation {
    pub id: String,
    pub table: String,
    pub path: Vec<String>,
    pub command: String,
    pub args: serde_json::Value,
}

} // verus!
