//! The records that the service answers with. The service publishes no
//! schema and changes its answers at will, so whatever it may leave out is
//! optional here.

use vstd::prelude::*;

verus! {

/// The kind of a block.
#[derive(Debug, Clone)]
pub enum BlockType {
    Page,
    Text,
    Header,
    SubHeader,
    SubSubHeader,
    BulletList,
    NumberedList,
    Toggle,
    Quote,
    Divider,
    Callout,
    Todo,
    Code,
    Bookmark,
    Image,
    Video,
    File,
    PDF,
    Embed,
    Figure,
    Table,
    TableRow,
    TableOfContents,
    Breadcrumb,
    Column,
    ColumnList,
    Mention,
    Equation,
    ToggleBlock,
    Synapse,
    Collection,
    CollectionView,
    CollectionViewPage,
}

/// A block: the unit that pages are made of.
#[derive(Debug, Clone)]
pub struct Block {
    pub id: String,
    pub version: u32,
    pub block_type: BlockType,
    pub properties: BlockProperties,
    pub content: Option<Vec<String>>,
    pub parent_id: Option<String>,
    pub permission_ids: Option<Vec<String>>,
    pub created_time: u64,
    pub last_edited_time: u64,
    pub alive: bool,
}

#[derive(Debug, Clone)]
pub struct BlockProperties {
    pub title: Option<Vec<RichText>>,
    pub description: Option<Vec<RichText>>,
    pub language: Option<String>,
    pub code: Option<String>,
    pub source: Option<Vec<String>>,
    pub caption: Option<Vec<RichText>>,
}

/// A run of text with its formatting.
#[derive(Debug, Clone)]
pub struct RichText {
    pub text_type: Option<String>,
    pub text: TextContent,
    pub annotations: Option<Annotations>,
    pub plain_text: Option<String>,
    pub href: Option<String>,
}

#[derive(Debug, Clone)]
pub struct TextContent {
    pub content: String,
    pub link: Option<Link>,
}

#[derive(Debug, Clone)]
pub struct Link {
    pub url: String,
}

#[derive(Debug, Clone)]
pub struct Annotations {
    pub bold: bool,
    pub italic: bool,
    pub strikethrough: bool,
    pub underline: bool,
    pub code: bool,
    pub color: String,
}

/// A user.
#[derive(Debug, Clone)]
pub struct User {
    pub id: String,
    pub given_name: Option<String>,
    pub family_name: Option<String>,
    pub email: Option<String>,
    pub profile_photo: Option<String>,
    pub role: Option<String>,
}

/// A workspace.
#[derive(Debug, Clone)]
pub struct Space {
    pub id: String,
    pub name: Option<String>,
    pub icon: Option<String>,
    pub domain: Option<String>,
}

/// The answer to a request for one chunk of a page.
#[derive(Debug, Clone)]
pub struct LoadPageChunkResponse {
    pub record_map: RecordMap,
    pub cursor: Option<Cursor>,
}

/// The records that an answer brings along, by kind.
#[derive(Debug, Clone)]
pub struct RecordMap {
    pub block: Option<Vec<Block>>,
    pub space: Option<Vec<Space>>,
    pub user: Option<Vec<User>>,
    pub notion_user: Option<Vec<User>>,
}

/// Where a chunk ended.
#[derive(Debug, Clone)]
pub struct Cursor {
    pub stack: Vec<serde_json::Value>,
}

/// The answer to a search.
#[derive(Debug, Clone)]
pub struct SearchResults {
    pub results: Vec<SearchResult>,
    pub total: Option<u32>,
}

#[derive(Debug, Clone)]
pub struct SearchResult {
    pub id: String,
    pub title: String,
    pub highlight: Option<String>,
    pub snapshot: Option<String>,
    pub block_id: Option<String>,
    pub parent_id: Option<String>,
}

} // verus!
