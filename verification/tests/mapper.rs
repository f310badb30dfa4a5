use orionznab::errors::Error;
use orionznab::orion::{
    OrionApiResponse, OrionData, OrionEpisode, OrionEpisodeId, OrionEpisodeNumber, OrionFile,
    OrionMeta, OrionMovie, OrionMovieId, OrionResult, OrionShow, OrionShowId, OrionStream,
    OrionStreamInfo, OrionStreamMeta,
};
use orionznab::search_handler::{map_orion_api_response_to_torrents, TorznabSearchHandler};
use orionznab::search_paths::{
    build_movie_search_path, build_tv_search_path, handle_orionoid_response,
};
use orionznab::types::{SearchKind, SearchParameters};

fn empty_stream() -> OrionStream {
    OrionStream {
        id: None,
        time: None,
        links: None,
        stream: None,
        access: None,
        file: None,
        meta: None,
        video: None,
        audio: None,
        subtitle: None,
        popularity: None,
    }
}

fn empty_data() -> OrionData {
    OrionData {
        data_type: None,
        movie: None,
        show: None,
        episode: None,
        count: None,
        streams: None,
        requests: None,
    }
}

fn response_with(data: Option<OrionData>) -> OrionApiResponse {
    OrionApiResponse { name: None, version: None, result: None, data }
}

fn movie_data() -> OrionData {
    let mut d = empty_data();
    d.movie = Some(OrionMovie {
        id: Some(OrionMovieId {
            orion: Some("o1".to_string()),
            imdb: Some("tt0133093".to_string()),
            tmdb: None,
        }),
        time: None,
        meta: Some(OrionMeta { title: Some("The Matrix".to_string()), year: Some(1999) }),
        popularity: None,
    });
    d
}

fn sized_linked_stream(size: u64, links: Vec<String>) -> OrionStream {
    let mut s = empty_stream();
    s.file = Some(OrionFile { hash: None, name: None, size: Some(size), pack: None });
    s.links = Some(links);
    s
}

#[test]
fn absent_data_yields_no_records() {
    assert_eq!(map_orion_api_response_to_torrents(response_with(None)), vec![]);
}

#[test]
fn absent_streams_yield_no_records_not_a_failure() {
    let d = movie_data();
    assert_eq!(map_orion_api_response_to_torrents(response_with(Some(d))), vec![]);
}

#[test]
fn streams_without_size_title_or_links_are_dropped() {
    let mut d = movie_data();
    let good = sized_linked_stream(700, vec!["http://x/a.torrent".to_string()]);
    let mut no_size = empty_stream();
    no_size.links = Some(vec!["http://x/b.torrent".to_string()]);
    let mut no_links = empty_stream();
    no_links.file = Some(OrionFile { hash: None, name: None, size: Some(1), pack: None });
    let empty_links = sized_linked_stream(800, vec![]);
    d.streams = Some(vec![no_size, good, no_links, empty_links]);
    let out = map_orion_api_response_to_torrents(response_with(Some(d)));
    assert_eq!(out.len(), 1);
    assert_eq!(out[0].size, 700);
    assert_eq!(out[0].title, "The Matrix");

    // A response whose content kinds carry no title drops every stream.
    let mut untitled = empty_data();
    untitled.streams = Some(vec![sized_linked_stream(1, vec!["m".to_string()])]);
    assert_eq!(map_orion_api_response_to_torrents(response_with(Some(untitled))), vec![]);
}

#[test]
fn episode_titles_are_synthesized_with_padded_numbers() {
    let mut d = empty_data();
    d.show = Some(OrionShow {
        show_type: None,
        id: None,
        time: None,
        popularity: None,
        meta: Some(OrionMeta { title: Some("The Flash".to_string()), year: None }),
    });
    d.episode = Some(OrionEpisode {
        episode_type: None,
        id: Some(OrionEpisodeId {
            orion: None,
            imdb: None,
            tmdb: None,
            tvdb: None,
            tvrage: None,
            trakt: None,
            slug: None,
        }),
        time: None,
        popularity: None,
        number: Some(OrionEpisodeNumber { season: Some(1), episode: Some(1) }),
        meta: Some(OrionMeta { title: Some("Pilot".to_string()), year: None }),
    });
    d.streams = Some(vec![sized_linked_stream(42, vec!["magnet:?xt=abc".to_string()])]);
    let out = map_orion_api_response_to_torrents(response_with(Some(d)));
    assert_eq!(out.len(), 1);
    assert_eq!(out[0].title, "The Flash - Pilot - S01E01");
    assert_eq!(out[0].result_type, "series");
    assert_eq!(out[0].category_ids, vec![5000]);
    assert_eq!(out[0].magnet_uri, Some("magnet:?xt=abc".to_string()));
    assert_eq!(out[0].torrent_file_url, None);
}

#[test]
fn episode_without_complete_numbers_falls_back_to_episode_title() {
    let mut d = empty_data();
    d.episode = Some(OrionEpisode {
        episode_type: None,
        id: None,
        time: None,
        popularity: None,
        number: Some(OrionEpisodeNumber { season: Some(1), episode: None }),
        meta: Some(OrionMeta { title: Some("Pilot".to_string()), year: None }),
    });
    d.streams = Some(vec![sized_linked_stream(1, vec!["magnet:x".to_string()])]);
    let out = map_orion_api_response_to_torrents(response_with(Some(d)));
    assert_eq!(out[0].title, "Pilot");
    // An episode block without its own identifiers is tagged as a movie, as
    // the identifier block decides the result type.
    assert_eq!(out[0].result_type, "movie");
    assert_eq!(out[0].category_ids, vec![5000]);
}

#[test]
fn movie_records_carry_full_attributes_in_order() {
    let mut d = movie_data();
    let mut s = sized_linked_stream(
        1234,
        vec![
            "http://host/file.iso".to_string(),
            "http://host/file.torrent".to_string(),
            "magnet:?xt=urn".to_string(),
            "http://host/other.torrent".to_string(),
        ],
    );
    s.file = Some(OrionFile {
        hash: Some("deadbeef".to_string()),
        name: None,
        size: Some(1234),
        pack: None,
    });
    s.meta = Some(OrionStreamMeta {
        release: Some("rel".to_string()),
        uploader: Some("up".to_string()),
        edition: None,
    });
    s.stream = Some(OrionStreamInfo {
        stream_type: None,
        source: Some("src".to_string()),
        hoster: None,
        seeds: Some(3),
        time: None,
    });
    d.streams = Some(vec![s]);
    let out = map_orion_api_response_to_torrents(response_with(Some(d)));
    assert_eq!(out.len(), 1);
    let t = &out[0];
    assert_eq!(t.title, "The Matrix");
    assert_eq!(t.result_type, "movie");
    assert_eq!(t.category_ids, vec![2000]);
    assert_eq!(t.description, None);
    assert_eq!(t.torrent_file_url, Some("http://host/file.torrent".to_string()));
    assert_eq!(t.magnet_uri, Some("magnet:?xt=urn".to_string()));
    let attrs = t.other_attributes.clone().unwrap();
    let expected: Vec<(String, String)> = vec![
        ("orion_id".to_string(), "o1".to_string()),
        ("imdb".to_string(), "tt0133093".to_string()),
        ("uploader".to_string(), "up".to_string()),
        ("release".to_string(), "rel".to_string()),
        ("infohash".to_string(), "deadbeef".to_string()),
        ("size".to_string(), "1234".to_string()),
        ("source".to_string(), "src".to_string()),
        ("seeds".to_string(), "10".to_string()),
        ("peers".to_string(), "10".to_string()),
    ];
    assert_eq!(attrs, expected);
}

#[test]
fn show_identifiers_use_the_show_trakt_key() {
    let mut d = empty_data();
    d.show = Some(OrionShow {
        show_type: None,
        id: Some(OrionShowId {
            orion: None,
            imdb: None,
            tmdb: None,
            tvdb: Some("81189".to_string()),
            tvrage: None,
            trakt: Some("1388".to_string()),
            slug: None,
        }),
        time: None,
        popularity: None,
        meta: Some(OrionMeta { title: Some("Breaking Bad".to_string()), year: None }),
    });
    d.streams = Some(vec![sized_linked_stream(9, vec!["magnet:bb".to_string()])]);
    let out = map_orion_api_response_to_torrents(response_with(Some(d)));
    let attrs = out[0].other_attributes.clone().unwrap();
    assert!(attrs.contains(&("traktid".to_string(), "1388".to_string())));
    assert!(attrs.contains(&("tvdbid".to_string(), "81189".to_string())));
    assert_eq!(out[0].result_type, "series");
}

#[test]
fn seeds_above_the_floor_pass_through_to_peers() {
    let mut d = movie_data();
    let mut s = sized_linked_stream(1, vec!["magnet:x".to_string()]);
    s.stream = Some(OrionStreamInfo {
        stream_type: None,
        source: None,
        hoster: Some("h".to_string()),
        seeds: Some(55),
        time: None,
    });
    d.streams = Some(vec![s]);
    let out = map_orion_api_response_to_torrents(response_with(Some(d)));
    let attrs = out[0].other_attributes.clone().unwrap();
    assert!(attrs.contains(&("seeds".to_string(), "55".to_string())));
    assert!(attrs.contains(&("peers".to_string(), "55".to_string())));
    assert!(attrs.contains(&("hoster".to_string(), "h".to_string())));
}

#[test]
fn userkey_error_envelope_is_unauthorized_whatever_else_is_present() {
    let status = Some("error".to_string());
    let kind = Some("userkey".to_string());
    let parsed: Result<OrionApiResponse, String> = Ok(OrionApiResponse {
        name: Some("anything".to_string()),
        version: None,
        result: Some(OrionResult {
            status: status.clone(),
            result_type: kind.clone(),
            description: None,
            message: None,
        }),
        data: Some(movie_data()),
    });
    let r = handle_orionoid_response(&status, &kind, parsed);
    match r {
        Err(Error::Unauthorized(m)) => assert_eq!(m, "Invalid User API Key"),
        _ => panic!("expected an unauthorized failure"),
    }
    // The same envelope overrides a shape failure too.
    let r2 = handle_orionoid_response(&status, &kind, Err("bad shape".to_string()));
    assert!(matches!(r2, Err(Error::Unauthorized(_))));
}

#[test]
fn non_userkey_envelopes_follow_the_parse_outcome() {
    let ok: Result<OrionApiResponse, String> = Ok(response_with(None));
    let r = handle_orionoid_response(&Some("error".to_string()), &None, ok);
    assert!(r.is_ok());
    let r2 = handle_orionoid_response(&None, &None, Err("boom".to_string()));
    match r2 {
        Err(Error::SerdeJson(m)) => assert_eq!(m, "boom"),
        _ => panic!("expected a shape failure"),
    }
}

#[test]
fn movie_paths_lowercase_the_query_and_append_the_limit() {
    let p = build_movie_search_path("KEY", Some("The MATRIX"), None, 50).unwrap();
    assert_eq!(
        p,
        "/?keyapp=FGJKJFEBRHEMRFGSBGDLFPRGED96LJJL&keyuser=KEY&streamtype=torrent&mode=stream&action=retrieve&type=movie&sortvalue=videoquality&sortorder=ascending&query=the matrix&limitcount=50"
    );
}

#[test]
fn movie_paths_default_the_query_and_prefer_the_imdb_id() {
    let p = build_movie_search_path("k", None, None, 7).unwrap();
    assert!(p.contains("&query=the matrix"));
    let p2 = build_movie_search_path("k", Some("ignored"), Some("tt0133093"), 7).unwrap();
    assert!(p2.contains("&idimdb=tt0133093"));
    assert!(!p2.contains("&query="));
}

#[test]
fn tv_paths_carry_season_and_episode_filters() {
    let p = build_tv_search_path("k", None, Some("tt0098798"), Some(1), Some(2), 25).unwrap();
    assert_eq!(
        p,
        "/?keyapp=FGJKJFEBRHEMRFGSBGDLFPRGED96LJJL&keyuser=k&streamtype=torrent&mode=stream&action=retrieve&type=show&idimdb=tt0098798&numberseason=1&numberepisode=2&limitcount=25"
    );
    let p2 = build_tv_search_path("k", Some("The Flash"), None, None, None, 5).unwrap();
    assert!(p2.contains("&query=the flash"));
    assert!(!p2.contains("numberseason"));
}

#[test]
fn empty_api_key_fails_every_search_path_before_any_request() {
    assert!(build_movie_search_path("", None, None, 50).is_err());
    assert!(build_tv_search_path("", None, None, None, None, 50).is_err());
    let handler = TorznabSearchHandler::new();
    let mut params = SearchParameters {
        search_type: SearchKind::Generic,
        q: None,
        apikey: Some("".to_string()),
        categories: None,
        imdbid: None,
        season: None,
        ep: None,
        attributes: None,
        extended_attrs: None,
        offset: None,
        limit: 50,
    };
    assert!(handler.plan_search(&params).is_err());
    params.search_type = SearchKind::Movie;
    assert!(handler.plan_search(&params).is_err());
    params.search_type = SearchKind::Tv;
    assert!(handler.plan_search(&params).is_err());
    params.apikey = None;
    match handler.plan_search(&params) {
        Err(Error::Custom(m)) => assert_eq!(m, "API key is required for search"),
        _ => panic!("expected a validation failure"),
    }
}

#[test]
fn planned_searches_route_by_kind() {
    let handler = TorznabSearchHandler::new();
    let params = SearchParameters {
        search_type: SearchKind::Tv,
        q: Some("The Flash".to_string()),
        apikey: Some("k".to_string()),
        categories: None,
        imdbid: None,
        season: Some(1),
        ep: Some(1),
        attributes: None,
        extended_attrs: None,
        offset: None,
        limit: 10,
    };
    let p = handler.plan_search(&params).unwrap();
    assert!(p.contains("type=show"));
    assert!(p.contains("&numberseason=1&numberepisode=1"));
    let mut movie = params.clone();
    movie.search_type = SearchKind::Movie;
    let p2 = handler.plan_search(&movie).unwrap();
    assert!(p2.contains("type=movie"));
}

#[test]
fn completed_searches_map_or_render_the_failure() {
    let handler = TorznabSearchHandler::new();
    let mut d = movie_data();
    d.streams = Some(vec![sized_linked_stream(5, vec!["magnet:m".to_string()])]);
    let out = handler.complete_search(Ok(response_with(Some(d)))).unwrap();
    assert_eq!(out.len(), 1);
    let err = handler
        .complete_search(Err(Error::Unauthorized("Invalid User API Key".to_string())))
        .unwrap_err();
    assert_eq!(err, "Orionoid search failed: 401 Unauthorized: Invalid User API Key");
}

#[test]
fn error_messages_render_their_kind() {
    assert_eq!(Error::Custom("x".to_string()).message(), "x");
    assert_eq!(
        Error::Request { source: "io".to_string() }.message(),
        "couldn't execute request"
    );
    assert_eq!(
        Error::Response { source: "io".to_string() }.message(),
        "couldn't read response"
    );
    assert_eq!(Error::Reqwest("down".to_string()).message(), "reqwest error: down");
    assert_eq!(Error::SerdeJson("bad".to_string()).message(), "serde_json error: bad");
    let server = orionznab::errors::ServerError {
        code: 500,
        body: orionznab::errors::ServerBodyError::Other(
            orionznab::errors::ServerOtherBodyError {
                status_code: 503,
                status_message: "busy".to_string(),
            },
        ),
    };
    assert_eq!(server.message(), "server error with code 500: server body error with code 503: busy");
    let validation = orionznab::errors::ServerValidationBodyError {
        errors: vec!["a".to_string(), "b".to_string()],
    };
    assert_eq!(validation.message(), "server validation body errors:, a, b");
}
