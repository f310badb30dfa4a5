//! The fixed search-type descriptors served in the capability document.
use vstd::prelude::*;
use vstd::string::StringExecFns;
use crate::types::SearchInfo;

verus! {

/// Whether `si` is a descriptor with the given name, availability, and
/// supported parameter names.
pub open spec fn search_info_is(si: SearchInfo, name: Seq<char>, params: Seq<Seq<char>>) -> bool {
    &&& si.search_type@ == name
    &&& si.available == true
    &&& si.supported_params.deep_view() == params
}

/// Whether `sis` is exactly the fixed descriptor table: free-text search,
/// movie search, tv search.
pub open spec fn is_search_table(sis: Seq<SearchInfo>) -> bool {
    &&& sis.len() == 3
    &&& search_info_is(sis[0], "search"@, seq!["q"@])
    &&& search_info_is(sis[1], "movie-search"@, seq!["q"@, "imdbid"@])
    &&& search_info_is(sis[2], "tv-search"@, seq!["q"@, "imdbid"@, "season"@, "ep"@])
}

/// The fixed search-type descriptors.
pub fn search_config() -> (r: Vec<SearchInfo>)
    ensures
        is_search_table(r@),
{
    let mut free_params: Vec<String> = Vec::new();
    free_params.push(String::from_str("q"));

    let mut movie_params: Vec<String> = Vec::new();
    movie_params.push(String::from_str("q"));
    movie_params.push(String::from_str("imdbid"));

    let mut tv_params: Vec<String> = Vec::new();
    tv_params.push(String::from_str("q"));
    tv_params.push(String::from_str("imdbid"));
    tv_params.push(String::from_str("season"));
    tv_params.push(String::from_str("ep"));

    let mut r: Vec<SearchInfo> = Vec::new();
    r.push(SearchInfo {
        search_type: String::from_str("search"),
        available: true,
        supported_params: free_params,
    });
    r.push(SearchInfo {
        search_type: String::from_str("movie-search"),
        available: true,
        supported_params: movie_params,
    });
    r.push(SearchInfo {
        search_type: String::from_str("tv-search"),
        available: true,
        supported_params: tv_params,
    });
    proof {
        assert(r@[0].supported_params.deep_view() =~= seq!["q"@]);
        assert(r@[1].supported_params.deep_view() =~= seq!["q"@, "imdbid"@]);
        assert(r@[2].supported_params.deep_view() =~= seq!["q"@, "imdbid"@, "season"@, "ep"@]);
    }
    r
}

} // verus!
