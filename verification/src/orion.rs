//! The upstream response tree, as plain optional data: every field the
//! upstream service may omit is an `Option`, and a missing field is an
//! absent value, never a parse failure.
use vstd::prelude::*;

verus! {

/// The `result` envelope of an upstream response.
#[derive(Debug, Clone, PartialEq, Eq)]
pub struct OrionResult {
    /// The reported status, e.g. `error`.
    pub status: Option<String>,
    /// The reported result type, e.g. `userkey`.
    pub result_type: Option<String>,
    /// The reported description.
    pub description: Option<String>,
    /// The reported message.
    pub message: Option<String>,
}

/// Identifiers of a movie.
#[derive(Debug, Clone, PartialEq, Eq)]
pub struct OrionMovieId {
    /// The upstream service's own id.
    pub orion: Option<String>,
    /// The IMDB id.
    pub imdb: Option<String>,
    /// The TMDB id.
    pub tmdb: Option<String>,
}

/// Identifiers of a show.
#[derive(Debug, Clone, PartialEq, Eq)]
pub struct OrionShowId {
    /// The upstream service's own id.
    pub orion: Option<String>,
    /// The IMDB id.
    pub imdb: Option<String>,
    /// The TMDB id.
    pub tmdb: Option<String>,
    /// The TVDB id.
    pub tvdb: Option<String>,
    /// The TVRage id.
    pub tvrage: Option<String>,
    /// The Trakt id.
    pub trakt: Option<String>,
    /// The slug.
    pub slug: Option<String>,
}

/// Identifiers of an episode.
#[derive(Debug, Clone, PartialEq, Eq)]
pub struct OrionEpisodeId {
    /// The upstream service's own id.
    pub orion: Option<String>,
    /// The IMDB id.
    pub imdb: Option<String>,
    /// The TMDB id.
    pub tmdb: Option<String>,
    /// The TVDB id.
    pub tvdb: Option<String>,
    /// The TVRage id.
    pub tvrage: Option<String>,
    /// The Trakt id.
    pub trakt: Option<String>,
    /// The slug.
    pub slug: Option<String>,
}

/// Season and episode numbers of an episode.
#[derive(Debug, Clone, Copy, PartialEq, Eq, Structural)]
pub struct OrionEpisodeNumber {
    /// The season number.
    pub season: Option<u32>,
    /// The episode number.
    pub episode: Option<u32>,
}

/// Timestamps of a content item or stream.
#[derive(Debug, Clone, Copy, PartialEq, Eq, Structural)]
pub struct OrionTime {
    /// When the item was added.
    pub added: Option<u64>,
    /// When the item was last updated.
    pub updated: Option<u64>,
}

/// The metadata block of a content item.
#[derive(Debug, Clone, PartialEq, Eq)]
pub struct OrionMeta {
    /// The title.
    pub title: Option<String>,
    /// The release year.
    pub year: Option<u16>,
}

/// Popularity of a content item; only the vote count is modeled, the
/// pipeline never reads the percentage.
#[derive(Debug, Clone, Copy, PartialEq, Eq, Structural)]
pub struct OrionPopularity {
    /// The number of votes.
    pub count: Option<u32>,
}

/// Result counts reported by the upstream service.
#[derive(Debug, Clone, Copy, PartialEq, Eq, Structural)]
pub struct OrionCount {
    /// Total matching items.
    pub total: Option<u32>,
    /// Items requested.
    pub requested: Option<u32>,
    /// Items retrieved.
    pub retrieved: Option<u32>,
}

/// A movie description.
#[derive(Debug, Clone, PartialEq, Eq)]
pub struct OrionMovie {
    /// Its identifiers.
    pub id: Option<OrionMovieId>,
    /// Its timestamps.
    pub time: Option<OrionTime>,
    /// Its metadata block.
    pub meta: Option<OrionMeta>,
    /// Its popularity.
    pub popularity: Option<OrionPopularity>,
}

/// A show description.
#[derive(Debug, Clone, PartialEq, Eq)]
pub struct OrionShow {
    /// The reported show type.
    pub show_type: Option<String>,
    /// Its identifiers.
    pub id: Option<OrionShowId>,
    /// Its timestamps.
    pub time: Option<OrionTime>,
    /// Its popularity.
    pub popularity: Option<OrionPopularity>,
    /// Its metadata block.
    pub meta: Option<OrionMeta>,
}

/// An episode description.
#[derive(Debug, Clone, PartialEq, Eq)]
pub struct OrionEpisode {
    /// The reported episode type.
    pub episode_type: Option<String>,
    /// Its identifiers.
    pub id: Option<OrionEpisodeId>,
    /// Its timestamps.
    pub time: Option<OrionTime>,
    /// Its popularity.
    pub popularity: Option<OrionPopularity>,
    /// Its season and episode numbers.
    pub number: Option<OrionEpisodeNumber>,
    /// Its metadata block.
    pub meta: Option<OrionMeta>,
}

/// Technical info of a stream.
#[derive(Debug, Clone, PartialEq, Eq)]
pub struct OrionStreamInfo {
    /// The stream type.
    pub stream_type: Option<String>,
    /// Where the stream was found.
    pub source: Option<String>,
    /// Who hosts the stream.
    pub hoster: Option<String>,
    /// The seed count.
    pub seeds: Option<u32>,
    /// The reported time value.
    pub time: Option<u32>,
}

/// Debrid/direct access flags of a stream.
#[derive(Debug, Clone, Copy, PartialEq, Eq, Structural)]
pub struct OrionAccess {
    /// Directly downloadable.
    pub direct: Option<bool>,
    /// Available through premiumize.
    pub premiumize: Option<bool>,
    /// Available through offcloud.
    pub offcloud: Option<bool>,
    /// Available through torbox.
    pub torbox: Option<bool>,
    /// Available through easydebrid.
    pub easydebrid: Option<bool>,
    /// Available through realdebrid.
    pub realdebrid: Option<bool>,
    /// Available through alldebrid.
    pub alldebrid: Option<bool>,
    /// Available through debridlink.
    pub debridlink: Option<bool>,
}

/// File info of a stream.
#[derive(Debug, Clone, PartialEq, Eq)]
pub struct OrionFile {
    /// The info hash.
    pub hash: Option<String>,
    /// The file name.
    pub name: Option<String>,
    /// The size in bytes.
    pub size: Option<u64>,
    /// Whether the file is a pack.
    pub pack: Option<bool>,
}

/// Release metadata of a stream.
#[derive(Debug, Clone, PartialEq, Eq)]
pub struct OrionStreamMeta {
    /// The release name.
    pub release: Option<String>,
    /// The uploader.
    pub uploader: Option<String>,
    /// The edition.
    pub edition: Option<String>,
}

/// Video descriptors of a stream.
#[derive(Debug, Clone, PartialEq, Eq)]
pub struct OrionVideo {
    /// The video quality.
    pub quality: Option<String>,
    /// The video codec.
    pub codec: Option<String>,
    /// Whether the video is 3D.
    pub is_3d: Option<bool>,
}

/// Audio descriptors of a stream.
#[derive(Debug, Clone, PartialEq, Eq)]
pub struct OrionAudio {
    /// The audio type.
    pub audio_type: Option<String>,
    /// The channel count.
    pub channels: Option<u8>,
    /// The audio system.
    pub system: Option<String>,
    /// The audio codec.
    pub codec: Option<String>,
    /// The audio languages.
    pub languages: Option<Vec<String>>,
}

/// Subtitle descriptors of a stream.
#[derive(Debug, Clone, PartialEq, Eq)]
pub struct OrionSubtitle {
    /// The subtitle type.
    pub subtitle_type: Option<String>,
    /// The subtitle languages.
    pub languages: Option<Vec<String>>,
}

/// One discovered stream.
#[derive(Debug, Clone, PartialEq, Eq)]
pub struct OrionStream {
    /// The stream id.
    pub id: Option<String>,
    /// Its timestamps.
    pub time: Option<OrionTime>,
    /// Its links: torrent-file URLs, magnet URIs and others.
    pub links: Option<Vec<String>>,
    /// Its technical info.
    pub stream: Option<OrionStreamInfo>,
    /// Its access flags.
    pub access: Option<OrionAccess>,
    /// Its file info.
    pub file: Option<OrionFile>,
    /// Its release metadata.
    pub meta: Option<OrionStreamMeta>,
    /// Its video descriptors.
    pub video: Option<OrionVideo>,
    /// Its audio descriptors.
    pub audio: Option<OrionAudio>,
    /// Its subtitle descriptors.
    pub subtitle: Option<OrionSubtitle>,
    /// Its popularity.
    pub popularity: Option<OrionPopularity>,
}

/// Daily request quota usage reported by the upstream service.
#[derive(Debug, Clone, Copy, PartialEq, Eq, Structural)]
pub struct OrionDailyRequests {
    /// The daily limit.
    pub limit: Option<u32>,
    /// Requests used today.
    pub used: Option<u32>,
    /// Requests remaining today.
    pub remaining: Option<u32>,
}

/// Request quota usage reported by the upstream service.
#[derive(Debug, Clone, Copy, PartialEq, Eq, Structural)]
pub struct OrionRequests {
    /// Total requests made.
    pub total: Option<u32>,
    /// Today's usage.
    pub daily: Option<OrionDailyRequests>,
}

/// The `data` block of an upstream response: at most one of movie, show and
/// episode is populated, plus the streams found.
#[derive(Debug, Clone, PartialEq, Eq)]
pub struct OrionData {
    /// The reported data type.
    pub data_type: Option<String>,
    /// The movie found, if the search was for a movie.
    pub movie: Option<OrionMovie>,
    /// The show found, if the search matched a show.
    pub show: Option<OrionShow>,
    /// The episode found, if the search matched an episode.
    pub episode: Option<OrionEpisode>,
    /// Result counts.
    pub count: Option<OrionCount>,
    /// The streams found.
    pub streams: Option<Vec<OrionStream>>,
    /// Quota usage.
    pub requests: Option<OrionRequests>,
}

/// A full upstream response.
#[derive(Debug, Clone, PartialEq, Eq)]
pub struct OrionApiResponse {
    /// The reported service name.
    pub name: Option<String>,
    /// The reported service version.
    pub version: Option<String>,
    /// The result envelope.
    pub result: Option<OrionResult>,
    /// The data block.
    pub data: Option<OrionData>,
}

} // verus!
