//! The parameter normalizer: protocol query fields in, normalized
//! `SearchParameters` out. This step never fails; malformed input degrades
//! to "no filter" or to a default value.
use vstd::prelude::*;
use crate::numbers::csv_u32;
use crate::text::split_on;
use crate::types::{Config, Limits, SearchKind, SearchParameters};

verus! {

/// The query fields of one inbound protocol request, already decoded.
#[derive(Debug, Clone, PartialEq, Eq)]
pub struct SearchForm {
    /// The request type: `caps`, `search`, `tvsearch` or `movie`.
    pub t: Option<String>,
    /// The free-text query.
    pub q: Option<String>,
    /// The upstream api key.
    pub apikey: Option<String>,
    /// Comma-separated numeric category ids.
    pub cat: Option<String>,
    /// The IMDB id to search for.
    pub imdbid: Option<String>,
    /// The season number.
    pub season: Option<u32>,
    /// The episode number.
    pub ep: Option<u32>,
    /// Comma-separated extended attribute names.
    pub attrs: Option<String>,
    /// `1` requests all extended attributes; anything else does not.
    pub extended: Option<u8>,
    /// How many items to skip in the results.
    pub offset: Option<u32>,
    /// The requested result count.
    pub limit: Option<u32>,
}

/// The normalized result count: the requested count if given, else the
/// configured default, clamped to at most the configured maximum and at
/// least one.
pub open spec fn clamp_limit(requested: Option<u32>, limits: Limits) -> u32 {
    let base = match requested {
        Some(n) => n,
        None => limits.default,
    };
    let capped = if base > limits.max {
        limits.max
    } else {
        base
    };
    if capped < 1 {
        1
    } else {
        capped
    }
}

impl SearchForm {
    /// Normalizes this form into search parameters for the given search
    /// kind: category and attribute lists are split on commas (non-numeric
    /// category tokens silently dropped), `extended=1` sets the
    /// all-extended-attributes flag, the result count is clamped to the
    /// configured bounds, and everything else passes through unchanged.
    pub fn to_parameters(&self, conf: &Config, search_type: SearchKind) -> (r: SearchParameters)
        ensures
            r.search_type == search_type,
            r.q == self.q,
            r.apikey == self.apikey,
            r.imdbid == self.imdbid,
            r.season == self.season,
            r.ep == self.ep,
            r.offset == self.offset,
            match self.cat {
                Some(s) => r.categories matches Some(v) && v@ == csv_u32(s@),
                None => r.categories is None,
            },
            match self.attrs {
                Some(s) => r.attributes matches Some(v) && v.deep_view() == split_on(s@, ','),
                None => r.attributes is None,
            },
            r.extended_attrs == if self.extended == Some(1u8) {
                Some(true)
            } else {
                None::<bool>
            },
            r.limit == clamp_limit(self.limit, conf.caps.limits),
    {
        let categories = match &self.cat {
            Some(s) => Some(crate::numbers::parse_csv_u32(s.as_str())),
            None => None,
        };
        let attributes = match &self.attrs {
            Some(s) => Some(crate::text::split_str(s.as_str(), ',')),
            None => None,
        };

        let extended_attrs = match self.extended {
            Some(v) => if v == 1 {
                Some(true)
            } else {
                None
            },
            None => None,
        };

        let mut limit: u32 = match self.limit {
            Some(n) => n,
            None => conf.caps.limits.default,
        };
        if limit > conf.caps.limits.max {
            limit = conf.caps.limits.max;
        }
        if limit < 1 {
            limit = 1;
        }

        SearchParameters {
            search_type,
            q: crate::text::clone_opt_string(&self.q),
            apikey: crate::text::clone_opt_string(&self.apikey),
            categories,
            imdbid: crate::text::clone_opt_string(&self.imdbid),
            season: self.season,
            ep: self.ep,
            attributes,
            extended_attrs,
            offset: self.offset,
            limit,
        }
    }
}

} // verus!
