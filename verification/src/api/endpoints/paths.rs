//! The endpoints known so far, each as the path that follows the API's
//! address. The service publishes no list; these were seen on the wire and
//! may change without notice.

use vstd::prelude::*;

verus! {

// Authentication and users
pub const GET_USER: &'static str = "/v3/getUser";

pub const GET_USERS: &'static str = "/v3/getUsers";

pub const GET_USER_EMAIL: &'static str = "/v3/getUserEmail";

// Workspaces
pub const GET_SPACES: &'static str = "/v3/getSpaces";

pub const CREATE_SPACE: &'static str = "/v3/createSpace";

// Pages and blocks
pub const LOAD_PAGE_CHUNK: &'static str = "/v3/loadPageChunk";

pub const GET_BLOCK: &'static str = "/v3/getBlock";

pub const GET_BLOCKS: &'static str = "/v3/getBlocks";

pub const GET_RECORD_VALUES: &'static str = "/v3/getRecordValues";

pub const QUERY_COLLECTION: &'static str = "/v3/queryCollection";

pub const QUERY_COLLECTION_VIEW: &'static str = "/v3/queryCollectionView";

// Editing
pub const SUBMIT_TRANSACTION: &'static str = "/v3/submitTransaction";

pub const UPDATE_BLOCK: &'static str = "/v3/updateBlock";

// Search
pub const SEARCH: &'static str = "/v3/search";

pub const SEARCH_BLOCKS: &'static str = "/v3/searchBlocks";

// Databases
pub const GET_COLLECTION: &'static str = "/v3/getCollection";

pub const GET_COLLECTION_VIEW: &'static str = "/v3/getCollectionView";

// Export
pub const EXPORT_PAGE: &'static str = "/v3/exportPage";

pub const EXPORT_MATH: &'static str = "/v3/exportMath";

// Upload
pub const UPLOAD_FILE: &'static str = "/v3/uploadFile";

pub const GET_SIGNED_URLS: &'static str = "/v3/getSignedUrls";

// Telemetry
pub const SEND_EVENT: &'static str = "/v3/sendEvent";

} // verus!
