//! A Torznab indexer front end for the Orionoid content-discovery API: it
//! normalizes protocol query parameters, builds upstream request paths,
//! flattens the upstream response tree into uniform result records, and
//! renders capability and search-result documents as entity-escaped XML.
pub mod api;
pub mod categories;
pub mod client;
pub mod errors;
pub mod limits;
pub mod numbers;
pub mod orion;
pub mod params;
pub mod rate_limit;
pub mod responses;
pub mod search_config;
pub mod search_handler;
pub mod search_paths;
pub mod text;
pub mod types;
pub mod xml;
