//! The upstream search endpoints' verifiable half: builders for the request
//! paths of the two search intents, and the interpretation of a response
//! body once the edge has decoded it. Both builders reject an empty api key
//! before anything else, so no outbound request can be attempted without a
//! credential.
use vstd::prelude::*;
use vstd::string::StringExecFns;
use crate::errors::Error;
use crate::numbers::dec_str;
use crate::text::{lower_of, lowercase};

verus! {

/// The view of an optional string slice.
pub open spec fn opt_str_view(o: Option<&str>) -> Option<Seq<char>> {
    match o {
        Some(s) => Some(s@),
        None => None,
    }
}

/// One `&key=value` query parameter, or nothing when the value is absent.
pub open spec fn param_str(key: Seq<char>, value: Option<Seq<char>>) -> Seq<char> {
    match value {
        Some(v) => "&"@ + key + "="@ + v,
        None => Seq::<char>::empty(),
    }
}

/// One `&key=value` query parameter with a numeric value, or nothing when
/// the value is absent.
pub open spec fn param_u32(key: Seq<char>, value: Option<u32>) -> Seq<char> {
    match value {
        Some(v) => "&"@ + key + "="@ + dec_str(v as nat),
        None => Seq::<char>::empty(),
    }
}

/// The identifying filter of a search: the IMDB id when present (the
/// free-text query is then ignored), else the lower-cased query, defaulting
/// to `default_q` when absent.
pub open spec fn id_or_query_filter(
    q: Option<Seq<char>>,
    default_q: Seq<char>,
    imdbid: Option<Seq<char>>,
) -> Seq<char> {
    match imdbid {
        Some(id) => "&idimdb="@ + id,
        None => "&query="@ + lower_of(
            match q {
                Some(s) => s,
                None => default_q,
            },
        ),
    }
}

/// The upstream request path of a movie search.
pub open spec fn movie_search_path(
    api: Seq<char>,
    q: Option<Seq<char>>,
    imdbid: Option<Seq<char>>,
    max_results: u32,
) -> Seq<char> {
    "/?keyapp=FGJKJFEBRHEMRFGSBGDLFPRGED96LJJL&keyuser="@ + api
        + "&streamtype=torrent&mode=stream&action=retrieve&type=movie&sortvalue=videoquality&sortorder=ascending"@
        + id_or_query_filter(q, "the matrix"@, imdbid) + "&limitcount="@ + dec_str(
        max_results as nat,
    )
}

/// The upstream request path of a show/episode search.
pub open spec fn tv_search_path(
    api: Seq<char>,
    q: Option<Seq<char>>,
    imdbid: Option<Seq<char>>,
    season: Option<u32>,
    episode: Option<u32>,
    max_results: u32,
) -> Seq<char> {
    "/?keyapp=FGJKJFEBRHEMRFGSBGDLFPRGED96LJJL&keyuser="@ + api
        + "&streamtype=torrent&mode=stream&action=retrieve&type=show"@ + id_or_query_filter(
        q,
        "the flash"@,
        imdbid,
    ) + param_u32("numberseason"@, season) + param_u32("numberepisode"@, episode) + "&limitcount="@
        + dec_str(max_results as nat)
}

/// Whether `r` is the validation failure used for a missing api key.
pub open spec fn is_missing_key_error(e: Error) -> bool {
    e matches Error::Custom(m) && m@ == "API key is required"@
}

fn missing_key_error() -> (e: Error)
    ensures
        is_missing_key_error(e),
{
    Error::Custom(String::from_str("API key is required"))
}

/// Appends `&key=value` to `url` when a numeric value is present.
fn append_param_u32(url: &mut String, key: &str, value: Option<u32>)
    ensures
        final(url)@ == old(url)@ + param_u32(key@, value),
{
    match value {
        Some(v) => {
            url.append("&");
            url.append(key);
            url.append("=");
            let n = crate::numbers::u32_to_string(v);
            url.append(n.as_str());
            proof {
                assert(url@ =~= old(url)@ + param_u32(key@, value));
            }
        },
        None => {
            proof {
                assert(url@ =~= old(url)@ + param_u32(key@, value));
            }
        },
    }
}

/// Appends the IMDB-id or lower-cased-query filter to `url`.
fn append_id_or_query(url: &mut String, query: Option<&str>, default_q: &str, imdbid: Option<&str>)
    ensures
        final(url)@ == old(url)@ + id_or_query_filter(
            opt_str_view(query),
            default_q@,
            opt_str_view(imdbid),
        ),
{
    match imdbid {
        Some(id) => {
            url.append("&idimdb=");
            url.append(id);
            proof {
                assert(url@ =~= old(url)@ + id_or_query_filter(
                    opt_str_view(query),
                    default_q@,
                    opt_str_view(imdbid),
                ));
            }
        },
        None => {
            let lowered = match query {
                Some(q) => lowercase(q),
                None => lowercase(default_q),
            };
            url.append("&query=");
            url.append(lowered.as_str());
            proof {
                assert(url@ =~= old(url)@ + id_or_query_filter(
                    opt_str_view(query),
                    default_q@,
                    opt_str_view(imdbid),
                ));
            }
        },
    }
}

/// Builds the movie-search request path. Fails exactly when the api key is
/// empty; otherwise the path is `movie_search_path` of the arguments.
pub fn build_movie_search_path(
    api_token: &str,
    query: Option<&str>,
    imdbid: Option<&str>,
    max_results: u32,
) -> (r: Result<String, Error>)
    ensures
        api_token@.len() == 0 <==> r is Err,
        r matches Err(e) ==> is_missing_key_error(e),
        r matches Ok(p) ==> p@ == movie_search_path(
            api_token@,
            opt_str_view(query),
            opt_str_view(imdbid),
            max_results,
        ),
{
    if api_token.is_empty() {
        return Err(missing_key_error());
    }
    let mut url = String::from_str("/?keyapp=FGJKJFEBRHEMRFGSBGDLFPRGED96LJJL&keyuser=");
    url.append(api_token);
    url.append(
        "&streamtype=torrent&mode=stream&action=retrieve&type=movie&sortvalue=videoquality&sortorder=ascending",
    );
    append_id_or_query(&mut url, query, "the matrix", imdbid);
    url.append("&limitcount=");
    let n = crate::numbers::u32_to_string(max_results);
    url.append(n.as_str());
    proof {
        assert(url@ =~= movie_search_path(
            api_token@,
            opt_str_view(query),
            opt_str_view(imdbid),
            max_results,
        ));
    }
    Ok(url)
}

/// Builds the show/episode-search request path. Fails exactly when the api
/// key is empty; otherwise the path is `tv_search_path` of the arguments.
pub fn build_tv_search_path(
    api_token: &str,
    query: Option<&str>,
    imdbid: Option<&str>,
    season: Option<u32>,
    episode: Option<u32>,
    max_results: u32,
) -> (r: Result<String, Error>)
    ensures
        api_token@.len() == 0 <==> r is Err,
        r matches Err(e) ==> is_missing_key_error(e),
        r matches Ok(p) ==> p@ == tv_search_path(
            api_token@,
            opt_str_view(query),
            opt_str_view(imdbid),
            season,
            episode,
            max_results,
        ),
{
    if api_token.is_empty() {
        return Err(missing_key_error());
    }
    let mut url = String::from_str("/?keyapp=FGJKJFEBRHEMRFGSBGDLFPRGED96LJJL&keyuser=");
    url.append(api_token);
    url.append("&streamtype=torrent&mode=stream&action=retrieve&type=show");
    append_id_or_query(&mut url, query, "the flash", imdbid);
    append_param_u32(&mut url, "numberseason", season);
    append_param_u32(&mut url, "numberepisode", episode);
    url.append("&limitcount=");
    let n = crate::numbers::u32_to_string(max_results);
    url.append(n.as_str());
    proof {
        assert(url@ =~= tv_search_path(
            api_token@,
            opt_str_view(query),
            opt_str_view(imdbid),
            season,
            episode,
            max_results,
        ));
    }
    Ok(url)
}

/// Whether the upstream envelope reports an invalid credential: its status
/// is `error` and its type is `userkey`.
pub open spec fn is_userkey_error(status: Option<Seq<char>>, result_type: Option<Seq<char>>) -> bool {
    status == Some("error"@) && result_type == Some("userkey"@)
}

/// Interprets one upstream response body, already decoded at the edge:
/// `status` and `result_type` are the envelope's `result.status` and
/// `result.type` when the body is valid JSON and carries them, and `parsed`
/// is the typed response, or the decoder's message where the body did not
/// match the expected shape. An invalid-credential envelope fails as
/// unauthorized whatever the rest of the body holds; that check precedes and
/// overrides the shape check.
pub fn handle_orionoid_response(
    status: &Option<String>,
    result_type: &Option<String>,
    parsed: Result<crate::orion::OrionApiResponse, String>,
) -> (r: Result<crate::orion::OrionApiResponse, Error>)
    ensures
        is_userkey_error(status.deep_view(), result_type.deep_view()) ==> (r matches Err(e)
            && e matches Error::Unauthorized(m) && m@ == "Invalid User API Key"@),
        !is_userkey_error(status.deep_view(), result_type.deep_view()) ==> match parsed {
            Ok(resp) => r == Ok::<crate::orion::OrionApiResponse, Error>(resp),
            Err(m) => r matches Err(e) && e matches Error::SerdeJson(mm) && mm@ == m@,
        },
{
    let userkey = match (status, result_type) {
        (Some(st), Some(ty)) => crate::text::str_eq(st.as_str(), "error") && crate::text::str_eq(
            ty.as_str(),
            "userkey",
        ),
        _ => false,
    };
    if userkey {
        Err(Error::Unauthorized(String::from_str("Invalid User API Key")))
    } else {
        match parsed {
            Ok(resp) => Ok(resp),
            Err(m) => Err(Error::SerdeJson(m)),
        }
    }
}

} // verus!
