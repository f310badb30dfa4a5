//! The result mapper and the search orchestration: flattens an upstream
//! response tree into uniform result records, and decides what one search
//! request sends upstream and what it answers.
use vstd::prelude::*;
use vstd::string::StringExecFns;
use crate::errors::{error_msg, Error};
use crate::numbers::{dec_str, pad2_str};
use crate::orion::{OrionApiResponse, OrionData, OrionMeta, OrionStream};
use crate::text::{prefix_match, suffix_match};
use crate::types::{SearchKind, SearchParameters, Torrent};

verus! {

/// The title held by a metadata block, if any.
pub open spec fn title_of_meta(m: Option<OrionMeta>) -> Option<Seq<char>> {
    match m {
        Some(meta) => match meta.title {
            Some(t) => Some(t@),
            None => None,
        },
        None => None,
    }
}

/// The show title of the response, if any.
pub open spec fn show_title_of(d: OrionData) -> Option<Seq<char>> {
    match d.show {
        Some(s) => title_of_meta(s.meta),
        None => None,
    }
}

/// The episode title of the response, if any.
pub open spec fn episode_title_of(d: OrionData) -> Option<Seq<char>> {
    match d.episode {
        Some(e) => title_of_meta(e.meta),
        None => None,
    }
}

/// Whether the episode block is the active content kind: content kinds are
/// checked movie first, then episode, then show.
pub open spec fn is_episode_kind(d: OrionData) -> bool {
    d.movie is None && d.episode is Some
}

/// The title of the active content kind's metadata block, by the
/// movie-episode-show priority.
pub open spec fn main_title_of(d: OrionData) -> Option<Seq<char>> {
    match d.movie {
        Some(m) => title_of_meta(m.meta),
        None => match d.episode {
            Some(e) => title_of_meta(e.meta),
            None => match d.show {
                Some(s) => title_of_meta(s.meta),
                None => None,
            },
        },
    }
}

/// The season and episode numbers, present exactly when the episode block is
/// the active content kind, carries a number block, and that block has both
/// numbers.
pub open spec fn complete_pair_of(d: OrionData) -> Option<(u32, u32)> {
    if is_episode_kind(d) {
        match d.episode {
            Some(e) => match e.number {
                Some(n) => match (n.season, n.episode) {
                    (Some(s), Some(ep)) => Some((s, ep)),
                    _ => None,
                },
                None => None,
            },
            None => None,
        }
    } else {
        None
    }
}

/// The composite episode title: `<show> - <episode> - SxxEyy`.
pub open spec fn composed_episode_title(
    show: Seq<char>,
    episode: Seq<char>,
    season_no: u32,
    episode_no: u32,
) -> Seq<char> {
    show + " - "@ + episode + " - S"@ + pad2_str(season_no as nat) + "E"@ + pad2_str(
        episode_no as nat,
    )
}

/// The title every record of this response carries: for an episode with a
/// show title, an episode title and a complete season/episode pair, the
/// composite title; for an episode otherwise, the episode title, then the
/// show title; for the other kinds, the active metadata block's title.
pub open spec fn stream_title_of(d: OrionData) -> Option<Seq<char>> {
    if is_episode_kind(d) {
        match (show_title_of(d), episode_title_of(d), complete_pair_of(d)) {
            (Some(sh), Some(ep), Some((s, e))) => Some(composed_episode_title(sh, ep, s, e)),
            _ => match episode_title_of(d) {
                Some(t) => Some(t),
                None => show_title_of(d),
            },
        }
    } else {
        main_title_of(d)
    }
}

/// The size of a stream, if its file block reports one.
pub open spec fn stream_size_of(s: OrionStream) -> Option<u64> {
    match s.file {
        Some(f) => f.size,
        None => None,
    }
}

/// Whether a stream is kept: it must have a size, the response a title, and
/// the stream at least one link.
pub open spec fn stream_kept(d: OrionData, s: OrionStream) -> bool {
    &&& stream_size_of(s) is Some
    &&& stream_title_of(d) is Some
    &&& s.links matches Some(ls) && ls@.len() > 0
}

/// The result-type tag of the response: `series` when the active content
/// kind is episode or show and it carries an identifier block, else `movie`.
pub open spec fn result_type_of(d: OrionData) -> Seq<char> {
    if d.movie is Some {
        "movie"@
    } else if d.episode is Some {
        match d.episode {
            Some(e) => if e.id is Some {
                "series"@
            } else {
                "movie"@
            },
            None => "movie"@,
        }
    } else {
        match d.show {
            Some(s) => if s.id is Some {
                "series"@
            } else {
                "movie"@
            },
            None => "movie"@,
        }
    }
}

/// The category ids of the response: the Movies category for a movie, the
/// TV category for a show or episode, none otherwise.
pub open spec fn category_ids_of(d: OrionData) -> Seq<u32> {
    if d.movie is Some {
        seq![2000u32]
    } else if d.show is Some || d.episode is Some {
        seq![5000u32]
    } else {
        Seq::<u32>::empty()
    }
}

/// One auxiliary attribute when the value is present, nothing otherwise.
pub open spec fn opt_attr(value: Option<String>, key: Seq<char>) -> Seq<(Seq<char>, Seq<char>)> {
    match value {
        Some(v) => seq![(key, v@)],
        None => Seq::<(Seq<char>, Seq<char>)>::empty(),
    }
}

/// The identifier attributes of the active content kind. A movie exposes its
/// three identifier namespaces, an episode and a show all seven; the two
/// differ in the key under which the Trakt id is exposed.
pub open spec fn id_attrs_of(d: OrionData) -> Seq<(Seq<char>, Seq<char>)> {
    if d.movie is Some {
        match d.movie {
            Some(m) => match m.id {
                Some(id) => opt_attr(id.orion, "orion_id"@) + opt_attr(id.imdb, "imdb"@)
                    + opt_attr(id.tmdb, "tmdbid"@),
                None => Seq::<(Seq<char>, Seq<char>)>::empty(),
            },
            None => Seq::<(Seq<char>, Seq<char>)>::empty(),
        }
    } else if d.episode is Some {
        match d.episode {
            Some(e) => match e.id {
                Some(id) => opt_attr(id.orion, "orion_id"@) + opt_attr(id.imdb, "imdb"@)
                    + opt_attr(id.tmdb, "tmdbid"@) + opt_attr(id.tvdb, "tvdbid"@) + opt_attr(
                    id.tvrage,
                    "rageid"@,
                ) + opt_attr(id.trakt, "trakt_id"@) + opt_attr(id.slug, "slug"@),
                None => Seq::<(Seq<char>, Seq<char>)>::empty(),
            },
            None => Seq::<(Seq<char>, Seq<char>)>::empty(),
        }
    } else {
        match d.show {
            Some(s) => match s.id {
                Some(id) => opt_attr(id.orion, "orion_id"@) + opt_attr(id.imdb, "imdb"@)
                    + opt_attr(id.tmdb, "tmdbid"@) + opt_attr(id.tvdb, "tvdbid"@) + opt_attr(
                    id.tvrage,
                    "rageid"@,
                ) + opt_attr(id.trakt, "traktid"@) + opt_attr(id.slug, "slug"@),
                None => Seq::<(Seq<char>, Seq<char>)>::empty(),
            },
            None => Seq::<(Seq<char>, Seq<char>)>::empty(),
        }
    }
}

/// The release-metadata attributes of a stream.
pub open spec fn meta_attrs_of(s: OrionStream) -> Seq<(Seq<char>, Seq<char>)> {
    match s.meta {
        Some(m) => opt_attr(m.uploader, "uploader"@) + opt_attr(m.release, "release"@) + opt_attr(
            m.edition,
            "edition"@,
        ),
        None => Seq::<(Seq<char>, Seq<char>)>::empty(),
    }
}

/// The file attributes of a stream: the info hash and the size in decimal.
pub open spec fn file_attrs_of(s: OrionStream) -> Seq<(Seq<char>, Seq<char>)> {
    match s.file {
        Some(f) => opt_attr(f.hash, "infohash"@) + match f.size {
            Some(sz) => seq![("size"@, dec_str(sz as nat))],
            None => Seq::<(Seq<char>, Seq<char>)>::empty(),
        },
        None => Seq::<(Seq<char>, Seq<char>)>::empty(),
    }
}

/// A reported seed count, floored at ten.
pub open spec fn floored_seeds(seeds: u32) -> u32 {
    if seeds < 10 {
        10
    } else {
        seeds
    }
}

/// The technical-info attributes of a stream: source, the floored seed
/// count in decimal, and hoster.
pub open spec fn info_attrs_of(s: OrionStream) -> Seq<(Seq<char>, Seq<char>)> {
    match s.stream {
        Some(i) => opt_attr(i.source, "source"@) + (match i.seeds {
            Some(sd) => seq![("seeds"@, dec_str(floored_seeds(sd) as nat))],
            None => Seq::<(Seq<char>, Seq<char>)>::empty(),
        }) + opt_attr(i.hoster, "hoster"@),
        None => Seq::<(Seq<char>, Seq<char>)>::empty(),
    }
}

/// The video attributes of a stream.
pub open spec fn video_attrs_of(s: OrionStream) -> Seq<(Seq<char>, Seq<char>)> {
    match s.video {
        Some(v) => opt_attr(v.quality, "quality"@) + opt_attr(v.codec, "codec"@),
        None => Seq::<(Seq<char>, Seq<char>)>::empty(),
    }
}

/// The audio attributes of a stream: the codec and the channel count in
/// decimal.
pub open spec fn audio_attrs_of(s: OrionStream) -> Seq<(Seq<char>, Seq<char>)> {
    match s.audio {
        Some(a) => opt_attr(a.codec, "audio_codec"@) + match a.channels {
            Some(ch) => seq![("audio_channels"@, dec_str(ch as nat))],
            None => Seq::<(Seq<char>, Seq<char>)>::empty(),
        },
        None => Seq::<(Seq<char>, Seq<char>)>::empty(),
    }
}

/// The peer count of a stream: zero, raised to the floored seed count when
/// one is reported.
pub open spec fn peers_of(s: OrionStream) -> u32 {
    match s.stream {
        Some(i) => match i.seeds {
            Some(sd) => floored_seeds(sd),
            None => 0,
        },
        None => 0,
    }
}

/// All auxiliary attributes of one record, in rendering order: identifiers,
/// release metadata, file info, technical info, video, audio, and the peer
/// count last.
pub open spec fn stream_attrs_of(d: OrionData, s: OrionStream) -> Seq<(Seq<char>, Seq<char>)> {
    id_attrs_of(d) + meta_attrs_of(s) + file_attrs_of(s) + info_attrs_of(s) + video_attrs_of(s)
        + audio_attrs_of(s) + seq![("peers"@, dec_str(peers_of(s) as nat))]
}

/// The first link of `links` that is a `.torrent` URL, if any.
pub open spec fn first_torrent_link(links: Seq<String>) -> Option<Seq<char>>
    decreases links.len(),
{
    if links.len() == 0 {
        None
    } else if suffix_match(links[0]@, ".torrent"@) {
        Some(links[0]@)
    } else {
        first_torrent_link(links.drop_first())
    }
}

/// The first link of `links` that is a magnet URI, if any.
pub open spec fn first_magnet_link(links: Seq<String>) -> Option<Seq<char>>
    decreases links.len(),
{
    if links.len() == 0 {
        None
    } else if prefix_match(links[0]@, "magnet:"@) {
        Some(links[0]@)
    } else {
        first_magnet_link(links.drop_first())
    }
}

/// Whether record `t` is the flattening of stream `s` within response data
/// `d`: every field is pinned down.
pub open spec fn torrent_matches(d: OrionData, s: OrionStream, t: Torrent) -> bool {
    &&& Some(t.title@) == stream_title_of(d)
    &&& t.description is None
    &&& t.result_type@ == result_type_of(d)
    &&& Some(t.size) == stream_size_of(s)
    &&& t.category_ids@ == category_ids_of(d)
    &&& match s.links {
        Some(links) => t.torrent_file_url.deep_view() == first_torrent_link(links@)
            && t.magnet_uri.deep_view() == first_magnet_link(links@),
        None => false,
    }
    &&& t.other_attributes matches Some(attrs) && attrs.deep_view() == stream_attrs_of(d, s)
}

/// The streams of the response that are kept, in their original order.
pub open spec fn kept_streams(d: OrionData, streams: Seq<OrionStream>) -> Seq<OrionStream>
    decreases streams.len(),
{
    if streams.len() == 0 {
        Seq::<OrionStream>::empty()
    } else {
        let rest = kept_streams(d, streams.drop_last());
        if stream_kept(d, streams.last()) {
            rest.push(streams.last())
        } else {
            rest
        }
    }
}

/// Whether `out` is the flattening of `resp`: empty when the response lacks
/// a data block or a stream list, else one record per kept stream, in
/// order, each pinned down by `torrent_matches`.
pub open spec fn response_mapped(resp: OrionApiResponse, out: Seq<Torrent>) -> bool {
    match resp.data {
        None => out.len() == 0,
        Some(d) => match d.streams {
            None => out.len() == 0,
            Some(streams) => {
                let ks = kept_streams(d, streams@);
                &&& out.len() == ks.len()
                &&& forall|i: int| 0 <= i < ks.len() ==> torrent_matches(d, #[trigger] ks[i], out[i])
            },
        },
    }
}

fn title_of_meta_exec(m: &Option<OrionMeta>) -> (r: Option<String>)
    ensures
        r.deep_view() == title_of_meta(*m),
{
    match m {
        Some(meta) => crate::text::clone_opt_string(&meta.title),
        None => None,
    }
}

fn compose_episode_title(show: &str, episode: &str, season_no: u32, episode_no: u32) -> (r: String)
    ensures
        r@ == composed_episode_title(show@, episode@, season_no, episode_no),
{
    let mut s = String::new();
    s.append(show);
    s.append(" - ");
    s.append(episode);
    s.append(" - S");
    let p1 = crate::numbers::u32_to_padded2(season_no);
    s.append(p1.as_str());
    s.append("E");
    let p2 = crate::numbers::u32_to_padded2(episode_no);
    s.append(p2.as_str());
    proof {
        assert(s@ =~= composed_episode_title(show@, episode@, season_no, episode_no));
    }
    s
}

fn stream_title_exec(d: &OrionData) -> (r: Option<String>)
    ensures
        r.deep_view() == stream_title_of(*d),
{
    if d.movie.is_none() && d.episode.is_some() {
        let show_t = match &d.show {
            Some(s) => title_of_meta_exec(&s.meta),
            None => None,
        };
        let ep_t = match &d.episode {
            Some(e) => title_of_meta_exec(&e.meta),
            None => None,
        };
        let pair: Option<(u32, u32)> = match &d.episode {
            Some(e) => match &e.number {
                Some(n) => match (n.season, n.episode) {
                    (Some(a), Some(b)) => Some((a, b)),
                    _ => None,
                },
                None => None,
            },
            None => None,
        };
        match (&show_t, &ep_t, pair) {
            (Some(sh), Some(ep), Some((a, b))) => Some(
                compose_episode_title(sh.as_str(), ep.as_str(), a, b),
            ),
            _ => match ep_t {
                Some(t) => Some(t),
                None => show_t,
            },
        }
    } else {
        match &d.movie {
            Some(m) => title_of_meta_exec(&m.meta),
            None => match &d.show {
                Some(s) => title_of_meta_exec(&s.meta),
                None => None,
            },
        }
    }
}

fn result_type_exec(d: &OrionData) -> (r: String)
    ensures
        r@ == result_type_of(*d),
{
    if d.movie.is_some() {
        String::from_str("movie")
    } else {
        match &d.episode {
            Some(e) => if e.id.is_some() {
                String::from_str("series")
            } else {
                String::from_str("movie")
            },
            None => match &d.show {
                Some(s) => if s.id.is_some() {
                    String::from_str("series")
                } else {
                    String::from_str("movie")
                },
                None => String::from_str("movie"),
            },
        }
    }
}

fn category_ids_exec(d: &OrionData) -> (r: Vec<u32>)
    ensures
        r@ == category_ids_of(*d),
{
    let cats = crate::categories::categories();
    proof {
        reveal_strlit("Movies");
        reveal_strlit("TV");
        assert("Movies"@.len() == 6);
        assert("TV"@.len() == 2);
    }
    if d.movie.is_some() {
        match crate::categories::get_category_by_name(&cats, "Movies") {
            Some(c) => {
                let mut v: Vec<u32> = Vec::new();
                v.push(c.id);
                proof {
                    assert(v@ =~= category_ids_of(*d));
                }
                v
            },
            None => {
                proof {
                    assert(false);
                }
                Vec::new()
            },
        }
    } else if d.show.is_some() || d.episode.is_some() {
        proof {
            reveal_with_fuel(crate::categories::find_by_name, 3);
            assert(cats@.drop_first()[0] == cats@[1]);
        }
        match crate::categories::get_category_by_name(&cats, "TV") {
            Some(c) => {
                let mut v: Vec<u32> = Vec::new();
                v.push(c.id);
                proof {
                    assert(v@ =~= category_ids_of(*d));
                }
                v
            },
            None => {
                proof {
                    assert(false);
                }
                Vec::new()
            },
        }
    } else {
        Vec::new()
    }
}

fn push_opt_attr(v: &mut Vec<(String, String)>, value: &Option<String>, key: &str)
    ensures
        final(v).deep_view() == old(v).deep_view() + opt_attr(*value, key@),
{
    match value {
        Some(s) => {
            v.push((String::from_str(key), s.clone()));
            proof {
                assert(v.deep_view() =~~= old(v).deep_view() + opt_attr(*value, key@));
            }
        },
        None => {
            proof {
                assert(v.deep_view() =~~= old(v).deep_view() + opt_attr(*value, key@));
            }
        },
    }
}

fn id_attrs_exec(d: &OrionData) -> (r: Vec<(String, String)>)
    ensures
        r.deep_view() == id_attrs_of(*d),
{
    let mut v: Vec<(String, String)> = Vec::new();
    if d.movie.is_some() {
        match &d.movie {
            Some(m) => match &m.id {
                Some(id) => {
                    push_opt_attr(&mut v, &id.orion, "orion_id");
                    push_opt_attr(&mut v, &id.imdb, "imdb");
                    push_opt_attr(&mut v, &id.tmdb, "tmdbid");
                },
                None => {},
            },
            None => {},
        }
    } else if d.episode.is_some() {
        match &d.episode {
            Some(e) => match &e.id {
                Some(id) => {
                    push_opt_attr(&mut v, &id.orion, "orion_id");
                    push_opt_attr(&mut v, &id.imdb, "imdb");
                    push_opt_attr(&mut v, &id.tmdb, "tmdbid");
                    push_opt_attr(&mut v, &id.tvdb, "tvdbid");
                    push_opt_attr(&mut v, &id.tvrage, "rageid");
                    push_opt_attr(&mut v, &id.trakt, "trakt_id");
                    push_opt_attr(&mut v, &id.slug, "slug");
                },
                None => {},
            },
            None => {},
        }
    } else {
        match &d.show {
            Some(s) => match &s.id {
                Some(id) => {
                    push_opt_attr(&mut v, &id.orion, "orion_id");
                    push_opt_attr(&mut v, &id.imdb, "imdb");
                    push_opt_attr(&mut v, &id.tmdb, "tmdbid");
                    push_opt_attr(&mut v, &id.tvdb, "tvdbid");
                    push_opt_attr(&mut v, &id.tvrage, "rageid");
                    push_opt_attr(&mut v, &id.trakt, "traktid");
                    push_opt_attr(&mut v, &id.slug, "slug");
                },
                None => {},
            },
            None => {},
        }
    }
    proof {
        assert(v.deep_view() =~~= id_attrs_of(*d));
    }
    v
}

fn push_meta_attrs(v: &mut Vec<(String, String)>, s: &OrionStream)
    ensures
        final(v).deep_view() == old(v).deep_view() + meta_attrs_of(*s),
{
    match &s.meta {
        Some(m) => {
            push_opt_attr(v, &m.uploader, "uploader");
            push_opt_attr(v, &m.release, "release");
            push_opt_attr(v, &m.edition, "edition");
        },
        None => {},
    }
    proof {
        assert(v.deep_view() =~~= old(v).deep_view() + meta_attrs_of(*s));
    }
}

fn push_file_attrs(v: &mut Vec<(String, String)>, s: &OrionStream)
    ensures
        final(v).deep_view() == old(v).deep_view() + file_attrs_of(*s),
{
    match &s.file {
        Some(f) => {
            push_opt_attr(v, &f.hash, "infohash");
            let ghost mid = v.deep_view();
            match f.size {
                Some(sz) => {
                    v.push((String::from_str("size"), crate::numbers::u64_to_string(sz)));
                    proof {
                        assert(v.deep_view() =~~= mid + seq![("size"@, dec_str(sz as nat))]);
                        assert(v.deep_view() =~~= old(v).deep_view() + file_attrs_of(*s));
                    }
                },
                None => {
                    proof {
                        assert(v.deep_view() =~~= old(v).deep_view() + file_attrs_of(*s));
                    }
                },
            }
        },
        None => {
            proof {
                assert(v.deep_view() =~~= old(v).deep_view() + file_attrs_of(*s));
            }
        },
    }
}

fn push_info_attrs(v: &mut Vec<(String, String)>, s: &OrionStream)
    ensures
        final(v).deep_view() == old(v).deep_view() + info_attrs_of(*s),
{
    match &s.stream {
        Some(i) => {
            push_opt_attr(v, &i.source, "source");
            let ghost mid = v.deep_view();
            match i.seeds {
                Some(sd) => {
                    let fs = if sd < 10 {
                        10
                    } else {
                        sd
                    };
                    v.push((String::from_str("seeds"), crate::numbers::u32_to_string(fs)));
                    proof {
                        assert(v.deep_view() =~~= mid + seq![
                            ("seeds"@, dec_str(floored_seeds(sd) as nat)),
                        ]);
                    }
                },
                None => {},
            }
            let ghost before_hoster = v.deep_view();
            push_opt_attr(v, &i.hoster, "hoster");
            proof {
                assert(v.deep_view() == before_hoster + opt_attr(i.hoster, "hoster"@));
                assert(v.deep_view() =~~= old(v).deep_view() + info_attrs_of(*s));
            }
        },
        None => {
            proof {
                assert(v.deep_view() =~~= old(v).deep_view() + info_attrs_of(*s));
            }
        },
    }
}

fn push_video_attrs(v: &mut Vec<(String, String)>, s: &OrionStream)
    ensures
        final(v).deep_view() == old(v).deep_view() + video_attrs_of(*s),
{
    match &s.video {
        Some(vid) => {
            push_opt_attr(v, &vid.quality, "quality");
            push_opt_attr(v, &vid.codec, "codec");
        },
        None => {},
    }
    proof {
        assert(v.deep_view() =~~= old(v).deep_view() + video_attrs_of(*s));
    }
}

fn push_audio_attrs(v: &mut Vec<(String, String)>, s: &OrionStream)
    ensures
        final(v).deep_view() == old(v).deep_view() + audio_attrs_of(*s),
{
    match &s.audio {
        Some(a) => {
            push_opt_attr(v, &a.codec, "audio_codec");
            let ghost mid = v.deep_view();
            match a.channels {
                Some(ch) => {
                    v.push((
                        String::from_str("audio_channels"),
                        crate::numbers::u64_to_string(ch as u64),
                    ));
                    proof {
                        assert(v.deep_view() =~~= mid + seq![
                            ("audio_channels"@, dec_str(ch as nat)),
                        ]);
                        assert(v.deep_view() =~~= old(v).deep_view() + audio_attrs_of(*s));
                    }
                },
                None => {
                    proof {
                        assert(v.deep_view() =~~= old(v).deep_view() + audio_attrs_of(*s));
                    }
                },
            }
        },
        None => {
            proof {
                assert(v.deep_view() =~~= old(v).deep_view() + audio_attrs_of(*s));
            }
        },
    }
}

fn build_stream_attrs(d: &OrionData, s: &OrionStream) -> (r: Vec<(String, String)>)
    ensures
        r.deep_view() == stream_attrs_of(*d, *s),
{
    let mut v = id_attrs_exec(d);
    push_meta_attrs(&mut v, s);
    push_file_attrs(&mut v, s);
    push_info_attrs(&mut v, s);
    push_video_attrs(&mut v, s);
    push_audio_attrs(&mut v, s);
    let peers: u32 = match &s.stream {
        Some(i) => match i.seeds {
            Some(sd) => if sd < 10 {
                10
            } else {
                sd
            },
            None => 0,
        },
        None => 0,
    };
    v.push((String::from_str("peers"), crate::numbers::u32_to_string(peers)));
    proof {
        assert(v.deep_view() =~~= stream_attrs_of(*d, *s));
    }
    v
}

fn find_torrent_link(links: &Vec<String>) -> (r: Option<String>)
    ensures
        r.deep_view() == first_torrent_link(links@),
{
    let mut i: usize = 0;
    proof {
        assert(links@.subrange(0, links@.len() as int) =~= links@);
    }
    while i < links.len()
        invariant
            i <= links@.len(),
            first_torrent_link(links@) == first_torrent_link(
                links@.subrange(i as int, links@.len() as int),
            ),
        decreases links@.len() - i,
    {
        let ghost suffix = links@.subrange(i as int, links@.len() as int);
        proof {
            assert(suffix[0] == links@[i as int]);
        }
        if crate::text::str_ends_with(links[i].as_str(), ".torrent") {
            return Some(links[i].clone());
        }
        i = i + 1;
        proof {
            assert(suffix.drop_first() =~= links@.subrange(i as int, links@.len() as int));
        }
    }
    proof {
        assert(links@.subrange(links@.len() as int, links@.len() as int)
            =~= Seq::<String>::empty());
    }
    None
}

fn find_magnet_link(links: &Vec<String>) -> (r: Option<String>)
    ensures
        r.deep_view() == first_magnet_link(links@),
{
    let mut i: usize = 0;
    proof {
        assert(links@.subrange(0, links@.len() as int) =~= links@);
    }
    while i < links.len()
        invariant
            i <= links@.len(),
            first_magnet_link(links@) == first_magnet_link(
                links@.subrange(i as int, links@.len() as int),
            ),
        decreases links@.len() - i,
    {
        let ghost suffix = links@.subrange(i as int, links@.len() as int);
        proof {
            assert(suffix[0] == links@[i as int]);
        }
        if crate::text::str_starts_with(links[i].as_str(), "magnet:") {
            return Some(links[i].clone());
        }
        i = i + 1;
        proof {
            assert(suffix.drop_first() =~= links@.subrange(i as int, links@.len() as int));
        }
    }
    proof {
        assert(links@.subrange(links@.len() as int, links@.len() as int)
            =~= Seq::<String>::empty());
    }
    None
}

fn clone_u32_vec(v: &Vec<u32>) -> (r: Vec<u32>)
    ensures
        r@ == v@,
{
    let mut r: Vec<u32> = Vec::new();
    let mut i: usize = 0;
    while i < v.len()
        invariant
            i <= v@.len(),
            r@ == v@.subrange(0, i as int),
        decreases v@.len() - i,
    {
        r.push(v[i]);
        i = i + 1;
        proof {
            assert(r@ =~= v@.subrange(0, i as int));
        }
    }
    proof {
        assert(v@.subrange(0, v@.len() as int) =~= v@);
    }
    r
}

/// Flattens an upstream response into result records: empty when the
/// response has no data block or no stream list; otherwise one record per
/// stream that has a size, a title and at least one link, in the streams'
/// original order.
pub fn map_orion_api_response_to_torrents(api_response: OrionApiResponse) -> (r: Vec<Torrent>)
    ensures
        response_mapped(api_response, r@),
{
    let d = match &api_response.data {
        Some(d) => d,
        None => {
            return Vec::new();
        },
    };
    let streams = match &d.streams {
        Some(s) => s,
        None => {
            return Vec::new();
        },
    };
    let title = stream_title_exec(d);
    let result_type = result_type_exec(d);
    let category_ids = category_ids_exec(d);
    let mut out: Vec<Torrent> = Vec::new();
    let mut i: usize = 0;
    proof {
        assert(streams@.subrange(0, 0) =~= Seq::<OrionStream>::empty());
    }
    while i < streams.len()
        invariant
            i <= streams@.len(),
            api_response.data matches Some(dd) && dd == *d,
            d.streams matches Some(ss) && ss == *streams,
            title.deep_view() == stream_title_of(*d),
            result_type@ == result_type_of(*d),
            category_ids@ == category_ids_of(*d),
            out@.len() == kept_streams(*d, streams@.subrange(0, i as int)).len(),
            forall|k: int|
                0 <= k < out@.len() ==> torrent_matches(
                    *d,
                    kept_streams(*d, streams@.subrange(0, i as int))[k],
                    #[trigger] out@[k],
                ),
        decreases streams@.len() - i,
    {
        let ghost prev = streams@.subrange(0, i as int);
        let s = &streams[i];
        let size_opt: Option<u64> = match &s.file {
            Some(f) => f.size,
            None => None,
        };
        proof {
            assert(size_opt == stream_size_of(streams@[i as int]));
        }
        match (&s.links, &title, size_opt) {
            (Some(links), Some(t), Some(sz)) => {
                if links.len() > 0 {
                    let attrs = build_stream_attrs(d, s);
                    out.push(
                        Torrent {
                            title: t.clone(),
                            description: None,
                            result_type: result_type.clone(),
                            size: sz,
                            category_ids: clone_u32_vec(&category_ids),
                            torrent_file_url: find_torrent_link(links),
                            magnet_uri: find_magnet_link(links),
                            other_attributes: Some(attrs),
                        },
                    );
                    proof {
                        assert(stream_kept(*d, streams@[i as int]));
                    }
                } else {
                    proof {
                        assert(!stream_kept(*d, streams@[i as int]));
                    }
                }
            },
            _ => {
                proof {
                    assert(!stream_kept(*d, streams@[i as int]));
                }
            },
        }
        i = i + 1;
        proof {
            let step = streams@.subrange(0, i as int);
            assert(step.drop_last() =~= prev);
            assert(step.last() == streams@[i - 1]);
        }
    }
    proof {
        assert(streams@.subrange(0, streams@.len() as int) =~= streams@);
    }
    out
}

/// A stream that lacks a size, a title or a non-empty link list is never
/// represented in the output: removing such a stream from the response
/// leaves the kept streams — and with them the output list — unchanged,
/// independent of the other streams of the same response.
pub proof fn lemma_dropped_stream_excluded(d: OrionData, streams: Seq<OrionStream>, j: int)
    requires
        0 <= j < streams.len(),
        !stream_kept(d, streams[j]),
    ensures
        kept_streams(d, streams) == kept_streams(d, streams.remove(j)),
    decreases streams.len(),
{
    if j == streams.len() - 1 {
        assert(streams.remove(j) =~= streams.drop_last());
    } else {
        lemma_dropped_stream_excluded(d, streams.drop_last(), j);
        assert(streams.remove(j).drop_last() =~= streams.drop_last().remove(j));
        assert(streams.remove(j).last() == streams.last());
    }
}

/// The per-process search orchestrator: it decides the upstream request of a
/// normalized search and turns the interpreted upstream outcome into the
/// answer of the search callback.
#[derive(Debug, Clone, Copy, PartialEq, Eq, Structural)]
pub struct TorznabSearchHandler {}

/// The upstream request path a search plans: generic and movie searches ask
/// for movie content, tv searches for show content.
pub open spec fn planned_path(params: SearchParameters, key: Seq<char>) -> Seq<char> {
    match params.search_type {
        SearchKind::Generic => crate::search_paths::movie_search_path(
            key,
            params.q.deep_view(),
            params.imdbid.deep_view(),
            params.limit,
        ),
        SearchKind::Movie => crate::search_paths::movie_search_path(
            key,
            params.q.deep_view(),
            params.imdbid.deep_view(),
            params.limit,
        ),
        SearchKind::Tv => crate::search_paths::tv_search_path(
            key,
            params.q.deep_view(),
            params.imdbid.deep_view(),
            params.season,
            params.ep,
            params.limit,
        ),
    }
}

impl TorznabSearchHandler {
    /// Builds the orchestrator.
    pub fn new() -> (r: TorznabSearchHandler)
        ensures
            r == (TorznabSearchHandler {  }),
    {
        TorznabSearchHandler {  }
    }

    /// Decides the upstream request path of one search. Fails exactly when
    /// the api key is absent or empty, before any outbound request could be
    /// attempted; otherwise the path is `planned_path` of the parameters.
    pub fn plan_search(&self, params: &SearchParameters) -> (r: Result<String, Error>)
        ensures
            (r is Ok) <==> (params.apikey matches Some(k) && k@.len() > 0),
            r matches Ok(p) ==> (params.apikey matches Some(k) && p@ == planned_path(
                *params,
                k@,
            )),
            r matches Err(e) ==> match params.apikey {
                None => e matches Error::Custom(m) && m@ == "API key is required for search"@,
                Some(k) => crate::search_paths::is_missing_key_error(e),
            },
    {
        let api_token = match &params.apikey {
            Some(t) => t.as_str(),
            None => {
                return Err(Error::Custom(String::from_str("API key is required for search")));
            },
        };
        let q: Option<&str> = match &params.q {
            Some(s) => Some(s.as_str()),
            None => None,
        };
        let imdbid: Option<&str> = match &params.imdbid {
            Some(s) => Some(s.as_str()),
            None => None,
        };
        match params.search_type {
            SearchKind::Generic => crate::search_paths::build_movie_search_path(
                api_token,
                q,
                imdbid,
                params.limit,
            ),
            SearchKind::Movie => crate::search_paths::build_movie_search_path(
                api_token,
                q,
                imdbid,
                params.limit,
            ),
            SearchKind::Tv => crate::search_paths::build_tv_search_path(
                api_token,
                q,
                imdbid,
                params.season,
                params.ep,
                params.limit,
            ),
        }
    }

    /// Turns the interpreted upstream outcome into the search answer: a
    /// success is flattened into result records, a failure is rendered as a
    /// message.
    pub fn complete_search(&self, outcome: Result<OrionApiResponse, Error>) -> (r: Result<
        Vec<Torrent>,
        String,
    >)
        ensures
            match outcome {
                Ok(resp) => r matches Ok(ts) && response_mapped(resp, ts@),
                Err(e) => r matches Err(m) && m@ == "Orionoid search failed: "@ + error_msg(e),
            },
    {
        match outcome {
            Ok(resp) => Ok(map_orion_api_response_to_torrents(resp)),
            Err(e) => {
                let mut m = String::from_str("Orionoid search failed: ");
                let em = e.message();
                m.append(em.as_str());
                Err(m)
            },
        }
    }
}

} // verus!
