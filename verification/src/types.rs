//! The protocol-facing data model: capability metadata, normalized search
//! parameters and the flattened result record.
use vstd::prelude::*;

verus! {

/// Bounds on how many results a search may return.
#[derive(Debug, Clone, Copy, PartialEq, Eq, Structural)]
pub struct Limits {
    /// The maximum number of entries that can be listed in a search query.
    pub max: u32,
    /// The default number of entries to be listed in a search query.
    pub default: u32,
}

/// One search type offered in the capability document.
#[derive(Debug, Clone, PartialEq, Eq)]
pub struct SearchInfo {
    /// The name of the search type: `search`, `tv-search` or `movie-search`.
    pub search_type: String,
    /// Whether this search type is available.
    pub available: bool,
    /// The query parameters this search type supports.
    pub supported_params: Vec<String>,
}

/// One subcategory of the category taxonomy.
#[derive(Debug, Clone, PartialEq, Eq)]
pub struct Subcategory {
    /// The numeric id of the subcategory.
    pub id: u32,
    /// The name of the subcategory, e.g. `Movies/HD`.
    pub name: String,
}

/// One top-level category of the taxonomy.
#[derive(Debug, Clone, PartialEq, Eq)]
pub struct Category {
    /// The numeric id of the category.
    pub id: u32,
    /// The name of the category, e.g. `Movies`.
    pub name: String,
    /// The subcategories of this category.
    pub subcategories: Vec<Subcategory>,
}

/// One genre descriptor of the capability document.
#[derive(Debug, Clone, PartialEq, Eq)]
pub struct Genre {
    /// The numeric id of the genre.
    pub id: u32,
    /// The id of the category this genre belongs to.
    pub category_id: u32,
    /// The name of the genre.
    pub name: String,
}

/// One tag descriptor of the capability document.
#[derive(Debug, Clone, PartialEq, Eq)]
pub struct Tag {
    /// The name of the tag.
    pub name: String,
    /// The description of the tag.
    pub description: String,
}

/// The static description of what this indexer supports, served for
/// introspection requests and used to clamp result counts.
#[derive(Debug, Clone, PartialEq, Eq)]
pub struct Caps {
    /// Server metadata as key/value pairs, rendered in order.
    pub server_info: Option<Vec<(String, String)>>,
    /// The max and default number of items returned by queries.
    pub limits: Limits,
    /// The search types on offer.
    pub searching: Vec<SearchInfo>,
    /// The category taxonomy.
    pub categories: Vec<Category>,
    /// Genre descriptors, if any.
    pub genres: Option<Vec<Genre>>,
    /// Tag descriptors, if any.
    pub tags: Option<Vec<Tag>>,
}

/// The state shared by all request handling: the capability document.
#[derive(Debug, Clone, PartialEq, Eq)]
pub struct Config {
    /// The capabilities of the indexer.
    pub caps: Caps,
}

/// The search intent of a normalized request.
#[derive(Debug, Clone, Copy, PartialEq, Eq, Structural)]
pub enum SearchKind {
    /// A free-text search.
    Generic,
    /// A movie search.
    Movie,
    /// A tv search.
    Tv,
}

/// The normalized parameters of one search request.
#[derive(Debug, Clone, PartialEq, Eq)]
pub struct SearchParameters {
    /// What kind of search this is.
    pub search_type: SearchKind,
    /// The free-text query, if any.
    pub q: Option<String>,
    /// The upstream api key, required at execution time.
    pub apikey: Option<String>,
    /// The numeric category ids parsed from the request.
    pub categories: Option<Vec<u32>>,
    /// The IMDB id to search for; takes precedence over the free-text query.
    pub imdbid: Option<String>,
    /// The season number, tv searches only.
    pub season: Option<u32>,
    /// The episode number, tv searches only.
    pub ep: Option<u32>,
    /// Extended attribute names requested by the caller.
    pub attributes: Option<Vec<String>>,
    /// Whether all extended attributes were requested.
    pub extended_attrs: Option<bool>,
    /// How many items to skip in the results.
    pub offset: Option<u32>,
    /// The maximum number of items to return, clamped to the configured
    /// bounds.
    pub limit: u32,
}

/// One flattened result record, ready for rendering.
#[derive(Debug, Clone, PartialEq, Eq)]
pub struct Torrent {
    /// The title of the torrent.
    pub title: String,
    /// The description of the torrent, if any.
    pub description: Option<String>,
    /// Whether the record describes a movie or a series.
    pub result_type: String,
    /// The size of the torrent in bytes.
    pub size: u64,
    /// The category ids of the record.
    pub category_ids: Vec<u32>,
    /// The URL of the `.torrent` file, if one of the links is one.
    pub torrent_file_url: Option<String>,
    /// The magnet URI, if one of the links is one.
    pub magnet_uri: Option<String>,
    /// The auxiliary key/value attributes, rendered in order.
    pub other_attributes: Option<Vec<(String, String)>>,
}

} // verus!
