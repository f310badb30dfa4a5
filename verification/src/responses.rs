//! The protocol responder's rendering: the capability document, the
//! search-result feed, and the minimal error document. Every dynamic value
//! placed into the output passes through the entity escaper.
use vstd::prelude::*;
use vstd::string::StringExecFns;
use crate::numbers::dec_str;
use crate::text::join_with;
use crate::types::{Caps, Category, Config, Genre, Limits, SearchInfo, Subcategory, Tag, Torrent};
use crate::xml::{attr_xml, escape_seq, text_element_xml};

verus! {

/// A rendered XML response body.
#[derive(Debug, Clone, PartialEq, Eq)]
pub struct RawXml<T>(pub T);

/// The document declaration every response starts with.
pub open spec fn decl_xml() -> Seq<char> {
    "<?xml version=\"1.0\" encoding=\"UTF-8\"?>"@
}

/// The attributes rendered from a key/value pair list, in order.
pub open spec fn pairs_attrs_xml(ps: Seq<(String, String)>) -> Seq<char>
    decreases ps.len(),
{
    if ps.len() == 0 {
        Seq::<char>::empty()
    } else {
        pairs_attrs_xml(ps.drop_last()) + attr_xml(ps.last().0@, ps.last().1@)
    }
}

/// The `<server .../>` element carrying the server metadata.
pub open spec fn server_xml(info: Option<Vec<(String, String)>>) -> Seq<char> {
    "<server"@ + (match info {
        Some(ps) => pairs_attrs_xml(ps@),
        None => Seq::<char>::empty(),
    }) + "/>"@
}

/// The `<limits .../>` element carrying the result-count bounds.
pub open spec fn limits_xml(l: Limits) -> Seq<char> {
    "<limits"@ + attr_xml("max"@, dec_str(l.max as nat)) + attr_xml(
        "default"@,
        dec_str(l.default as nat),
    ) + "/>"@
}

/// One search-type descriptor element, named after the search type.
pub open spec fn search_info_xml(si: SearchInfo) -> Seq<char> {
    "<"@ + si.search_type@ + attr_xml(
        "available"@,
        if si.available {
            "yes"@
        } else {
            "no"@
        },
    ) + attr_xml("supportedParams"@, join_with(si.supported_params.deep_view(), ","@)) + "/>"@
}

/// The search-type descriptor elements, in order.
pub open spec fn search_infos_xml(sis: Seq<SearchInfo>) -> Seq<char>
    decreases sis.len(),
{
    if sis.len() == 0 {
        Seq::<char>::empty()
    } else {
        search_infos_xml(sis.drop_last()) + search_info_xml(sis.last())
    }
}

/// One `<subcat .../>` element.
pub open spec fn subcat_xml(s: Subcategory) -> Seq<char> {
    "<subcat"@ + attr_xml("id"@, dec_str(s.id as nat)) + attr_xml("name"@, s.name@) + "/>"@
}

/// The subcategory elements of one category, in order.
pub open spec fn subcats_xml(ss: Seq<Subcategory>) -> Seq<char>
    decreases ss.len(),
{
    if ss.len() == 0 {
        Seq::<char>::empty()
    } else {
        subcats_xml(ss.drop_last()) + subcat_xml(ss.last())
    }
}

/// One `<category ...>...</category>` element with its subcategories.
pub open spec fn category_xml(c: Category) -> Seq<char> {
    "<category"@ + attr_xml("id"@, dec_str(c.id as nat)) + attr_xml("name"@, c.name@) + ">"@
        + subcats_xml(c.subcategories@) + "</category>"@
}

/// The category elements, in order.
pub open spec fn categories_xml(cs: Seq<Category>) -> Seq<char>
    decreases cs.len(),
{
    if cs.len() == 0 {
        Seq::<char>::empty()
    } else {
        categories_xml(cs.drop_last()) + category_xml(cs.last())
    }
}

/// One `<genre .../>` element.
pub open spec fn genre_xml(g: Genre) -> Seq<char> {
    "<genre"@ + attr_xml("id"@, dec_str(g.id as nat)) + attr_xml(
        "categoryid"@,
        dec_str(g.category_id as nat),
    ) + attr_xml("name"@, g.name@) + "/>"@
}

/// The genre elements, in order.
pub open spec fn genres_items_xml(gs: Seq<Genre>) -> Seq<char>
    decreases gs.len(),
{
    if gs.len() == 0 {
        Seq::<char>::empty()
    } else {
        genres_items_xml(gs.drop_last()) + genre_xml(gs.last())
    }
}

/// The `<genres>` section, or nothing when there are no genres.
pub open spec fn genres_xml(gs: Option<Vec<Genre>>) -> Seq<char> {
    match gs {
        Some(v) => "<genres>"@ + genres_items_xml(v@) + "</genres>"@,
        None => Seq::<char>::empty(),
    }
}

/// One `<tag .../>` element.
pub open spec fn tag_xml(t: Tag) -> Seq<char> {
    "<tag"@ + attr_xml("name"@, t.name@) + attr_xml("description"@, t.description@) + "/>"@
}

/// The tag elements, in order.
pub open spec fn tags_items_xml(ts: Seq<Tag>) -> Seq<char>
    decreases ts.len(),
{
    if ts.len() == 0 {
        Seq::<char>::empty()
    } else {
        tags_items_xml(ts.drop_last()) + tag_xml(ts.last())
    }
}

/// The `<tags>` section, or nothing when there are no tags.
pub open spec fn tags_xml(ts: Option<Vec<Tag>>) -> Seq<char> {
    match ts {
        Some(v) => "<tags>"@ + tags_items_xml(v@) + "</tags>"@,
        None => Seq::<char>::empty(),
    }
}

/// The whole capability document.
pub open spec fn caps_xml(c: Caps) -> Seq<char> {
    decl_xml() + "<caps>"@ + server_xml(c.server_info) + limits_xml(c.limits) + "<searching>"@
        + search_infos_xml(c.searching@) + "</searching>"@ + "<categories>"@ + categories_xml(
        c.categories@,
    ) + "</categories>"@ + genres_xml(c.genres) + tags_xml(c.tags) + "</caps>"@
}

fn append_pairs_attrs(out: &mut String, ps: &Vec<(String, String)>)
    ensures
        final(out)@ == old(out)@ + pairs_attrs_xml(ps@),
{
    let mut i: usize = 0;
    proof {
        assert(ps@.subrange(0, 0) =~= Seq::<(String, String)>::empty());
        assert(out@ =~= old(out)@ + pairs_attrs_xml(ps@.subrange(0, 0)));
    }
    while i < ps.len()
        invariant
            i <= ps@.len(),
            out@ == old(out)@ + pairs_attrs_xml(ps@.subrange(0, i as int)),
        decreases ps@.len() - i,
    {
        let ghost prev = ps@.subrange(0, i as int);
        let (k, v) = (&ps[i].0, &ps[i].1);
        crate::xml::append_attr(out, k.as_str(), v.as_str());
        i = i + 1;
        proof {
            let step = ps@.subrange(0, i as int);
            assert(step.drop_last() =~= prev);
            assert(step.last() == ps@[i - 1]);
            assert(out@ =~= old(out)@ + pairs_attrs_xml(step));
        }
    }
    proof {
        assert(ps@.subrange(0, ps@.len() as int) =~= ps@);
    }
}

fn append_server(out: &mut String, info: &Option<Vec<(String, String)>>)
    ensures
        final(out)@ == old(out)@ + server_xml(*info),
{
    out.append("<server");
    match info {
        Some(ps) => {
            append_pairs_attrs(out, ps);
        },
        None => {},
    }
    out.append("/>");
    proof {
        assert(out@ =~= old(out)@ + server_xml(*info));
    }
}

fn append_limits(out: &mut String, l: &Limits)
    ensures
        final(out)@ == old(out)@ + limits_xml(*l),
{
    out.append("<limits");
    let m = crate::numbers::u32_to_string(l.max);
    crate::xml::append_attr(out, "max", m.as_str());
    let d = crate::numbers::u32_to_string(l.default);
    crate::xml::append_attr(out, "default", d.as_str());
    out.append("/>");
    proof {
        assert(out@ =~= old(out)@ + limits_xml(*l));
    }
}

fn append_search_info(out: &mut String, si: &SearchInfo)
    ensures
        final(out)@ == old(out)@ + search_info_xml(*si),
{
    out.append("<");
    out.append(si.search_type.as_str());
    if si.available {
        crate::xml::append_attr(out, "available", "yes");
    } else {
        crate::xml::append_attr(out, "available", "no");
    }
    let joined = crate::text::join_strings(&si.supported_params, ",");
    crate::xml::append_attr(out, "supportedParams", joined.as_str());
    out.append("/>");
    proof {
        assert(out@ =~= old(out)@ + search_info_xml(*si));
    }
}

fn append_searching(out: &mut String, sis: &Vec<SearchInfo>)
    ensures
        final(out)@ == old(out)@ + "<searching>"@ + search_infos_xml(sis@) + "</searching>"@,
{
    out.append("<searching>");
    let ghost base = out@;
    let mut i: usize = 0;
    proof {
        assert(sis@.subrange(0, 0) =~= Seq::<SearchInfo>::empty());
        assert(out@ =~= base + search_infos_xml(sis@.subrange(0, 0)));
    }
    while i < sis.len()
        invariant
            i <= sis@.len(),
            out@ == base + search_infos_xml(sis@.subrange(0, i as int)),
        decreases sis@.len() - i,
    {
        let ghost prev = sis@.subrange(0, i as int);
        append_search_info(out, &sis[i]);
        i = i + 1;
        proof {
            let step = sis@.subrange(0, i as int);
            assert(step.drop_last() =~= prev);
            assert(step.last() == sis@[i - 1]);
            assert(out@ =~= base + search_infos_xml(step));
        }
    }
    out.append("</searching>");
    proof {
        assert(sis@.subrange(0, sis@.len() as int) =~= sis@);
        assert(out@ =~= old(out)@ + "<searching>"@ + search_infos_xml(sis@) + "</searching>"@);
    }
}

fn append_subcats(out: &mut String, ss: &Vec<Subcategory>)
    ensures
        final(out)@ == old(out)@ + subcats_xml(ss@),
{
    let mut i: usize = 0;
    proof {
        assert(ss@.subrange(0, 0) =~= Seq::<Subcategory>::empty());
        assert(out@ =~= old(out)@ + subcats_xml(ss@.subrange(0, 0)));
    }
    while i < ss.len()
        invariant
            i <= ss@.len(),
            out@ == old(out)@ + subcats_xml(ss@.subrange(0, i as int)),
        decreases ss@.len() - i,
    {
        let ghost prev = ss@.subrange(0, i as int);
        out.append("<subcat");
        let sid = crate::numbers::u32_to_string(ss[i].id);
        crate::xml::append_attr(out, "id", sid.as_str());
        crate::xml::append_attr(out, "name", ss[i].name.as_str());
        out.append("/>");
        i = i + 1;
        proof {
            let step = ss@.subrange(0, i as int);
            assert(step.drop_last() =~= prev);
            assert(step.last() == ss@[i - 1]);
            assert(out@ =~= old(out)@ + subcats_xml(step));
        }
    }
    proof {
        assert(ss@.subrange(0, ss@.len() as int) =~= ss@);
    }
}

fn append_category(out: &mut String, c: &Category)
    ensures
        final(out)@ == old(out)@ + category_xml(*c),
{
    out.append("<category");
    let cid = crate::numbers::u32_to_string(c.id);
    crate::xml::append_attr(out, "id", cid.as_str());
    crate::xml::append_attr(out, "name", c.name.as_str());
    out.append(">");
    append_subcats(out, &c.subcategories);
    out.append("</category>");
    proof {
        assert(out@ =~= old(out)@ + category_xml(*c));
    }
}

fn append_categories(out: &mut String, cs: &Vec<Category>)
    ensures
        final(out)@ == old(out)@ + "<categories>"@ + categories_xml(cs@) + "</categories>"@,
{
    out.append("<categories>");
    let ghost base = out@;
    let mut i: usize = 0;
    proof {
        assert(cs@.subrange(0, 0) =~= Seq::<Category>::empty());
        assert(out@ =~= base + categories_xml(cs@.subrange(0, 0)));
    }
    while i < cs.len()
        invariant
            i <= cs@.len(),
            out@ == base + categories_xml(cs@.subrange(0, i as int)),
        decreases cs@.len() - i,
    {
        let ghost prev = cs@.subrange(0, i as int);
        append_category(out, &cs[i]);
        i = i + 1;
        proof {
            let step = cs@.subrange(0, i as int);
            assert(step.drop_last() =~= prev);
            assert(step.last() == cs@[i - 1]);
            assert(out@ =~= base + categories_xml(step));
        }
    }
    out.append("</categories>");
    proof {
        assert(cs@.subrange(0, cs@.len() as int) =~= cs@);
        assert(out@ =~= old(out)@ + "<categories>"@ + categories_xml(cs@) + "</categories>"@);
    }
}

fn append_genres(out: &mut String, gs: &Option<Vec<Genre>>)
    ensures
        final(out)@ == old(out)@ + genres_xml(*gs),
{
    match gs {
        Some(v) => {
            out.append("<genres>");
            let ghost base = out@;
            let mut i: usize = 0;
            proof {
                assert(v@.subrange(0, 0) =~= Seq::<Genre>::empty());
                assert(out@ =~= base + genres_items_xml(v@.subrange(0, 0)));
            }
            while i < v.len()
                invariant
                    i <= v@.len(),
                    out@ == base + genres_items_xml(v@.subrange(0, i as int)),
                decreases v@.len() - i,
            {
                let ghost prev = v@.subrange(0, i as int);
                out.append("<genre");
                let gid = crate::numbers::u32_to_string(v[i].id);
                crate::xml::append_attr(out, "id", gid.as_str());
                let cid = crate::numbers::u32_to_string(v[i].category_id);
                crate::xml::append_attr(out, "categoryid", cid.as_str());
                crate::xml::append_attr(out, "name", v[i].name.as_str());
                out.append("/>");
                i = i + 1;
                proof {
                    let step = v@.subrange(0, i as int);
                    assert(step.drop_last() =~= prev);
                    assert(step.last() == v@[i - 1]);
                    assert(out@ =~= base + genres_items_xml(step));
                }
            }
            out.append("</genres>");
            proof {
                assert(v@.subrange(0, v@.len() as int) =~= v@);
                assert(out@ =~= old(out)@ + genres_xml(*gs));
            }
        },
        None => {
            proof {
                assert(out@ =~= old(out)@ + genres_xml(*gs));
            }
        },
    }
}

fn append_tags(out: &mut String, ts: &Option<Vec<Tag>>)
    ensures
        final(out)@ == old(out)@ + tags_xml(*ts),
{
    match ts {
        Some(v) => {
            out.append("<tags>");
            let ghost base = out@;
            let mut i: usize = 0;
            proof {
                assert(v@.subrange(0, 0) =~= Seq::<Tag>::empty());
                assert(out@ =~= base + tags_items_xml(v@.subrange(0, 0)));
            }
            while i < v.len()
                invariant
                    i <= v@.len(),
                    out@ == base + tags_items_xml(v@.subrange(0, i as int)),
                decreases v@.len() - i,
            {
                let ghost prev = v@.subrange(0, i as int);
                out.append("<tag");
                crate::xml::append_attr(out, "name", v[i].name.as_str());
                crate::xml::append_attr(out, "description", v[i].description.as_str());
                out.append("/>");
                i = i + 1;
                proof {
                    let step = v@.subrange(0, i as int);
                    assert(step.drop_last() =~= prev);
                    assert(step.last() == v@[i - 1]);
                    assert(out@ =~= base + tags_items_xml(step));
                }
            }
            out.append("</tags>");
            proof {
                assert(v@.subrange(0, v@.len() as int) =~= v@);
                assert(out@ =~= old(out)@ + tags_xml(*ts));
            }
        },
        None => {
            proof {
                assert(out@ =~= old(out)@ + tags_xml(*ts));
            }
        },
    }
}

/// Renders the capability document for `conf`.
pub fn caps(conf: &Config) -> (r: RawXml<String>)
    ensures
        r.0@ == caps_xml(conf.caps),
{
    let mut out = String::from_str("<?xml version=\"1.0\" encoding=\"UTF-8\"?>");
    out.append("<caps>");
    append_server(&mut out, &conf.caps.server_info);
    append_limits(&mut out, &conf.caps.limits);
    append_searching(&mut out, &conf.caps.searching);
    append_categories(&mut out, &conf.caps.categories);
    append_genres(&mut out, &conf.caps.genres);
    append_tags(&mut out, &conf.caps.tags);
    out.append("</caps>");
    proof {
        assert(out@ =~= caps_xml(conf.caps));
    }
    RawXml(out)
}

/// The value under the first pair of `ps` whose key is `key`, if any.
pub open spec fn kv_get(ps: Seq<(String, String)>, key: Seq<char>) -> Option<Seq<char>>
    decreases ps.len(),
{
    if ps.len() == 0 {
        None
    } else if ps[0].0@ == key {
        Some(ps[0].1@)
    } else {
        kv_get(ps.drop_first(), key)
    }
}

fn kv_get_exec(ps: &Vec<(String, String)>, key: &str) -> (r: Option<String>)
    ensures
        r.deep_view() == kv_get(ps@, key@),
{
    let mut i: usize = 0;
    proof {
        assert(ps@.subrange(0, ps@.len() as int) =~= ps@);
    }
    while i < ps.len()
        invariant
            i <= ps@.len(),
            kv_get(ps@, key@) == kv_get(ps@.subrange(i as int, ps@.len() as int), key@),
        decreases ps@.len() - i,
    {
        let ghost suffix = ps@.subrange(i as int, ps@.len() as int);
        proof {
            assert(suffix[0] == ps@[i as int]);
        }
        if crate::text::str_eq(ps[i].0.as_str(), key) {
            return Some(ps[i].1.clone());
        }
        i = i + 1;
        proof {
            assert(suffix.drop_first() =~= ps@.subrange(i as int, ps@.len() as int));
        }
    }
    proof {
        assert(ps@.subrange(ps@.len() as int, ps@.len() as int)
            =~= Seq::<(String, String)>::empty());
    }
    None
}

/// The auxiliary attributes of a record, or none.
pub open spec fn attrs_of(t: Torrent) -> Seq<(String, String)> {
    match t.other_attributes {
        Some(v) => v@,
        None => Seq::<(String, String)>::empty(),
    }
}

/// Whether a record has a non-empty torrent-file URL or magnet URI; only
/// such records are rendered.
pub open spec fn has_link(t: Torrent) -> bool {
    ||| (t.torrent_file_url matches Some(u) && u@.len() > 0)
    ||| (t.magnet_uri matches Some(m) && m@.len() > 0)
}

/// The MIME type of a torrent-file link.
pub open spec fn torrent_mime() -> Seq<char> {
    "application/x-bittorrent"@
}

/// The MIME type of a magnet link.
pub open spec fn magnet_mime() -> Seq<char> {
    "application/x-bittorrent;x-scheme-handler/magnet"@
}

/// The link a record is rendered with: an explicit `link` attribute when
/// present, else the torrent-file URL, else the magnet URI, else nothing.
pub open spec fn chosen_link(t: Torrent) -> Seq<char> {
    match kv_get(attrs_of(t), "link"@) {
        Some(l) => l,
        None => match t.torrent_file_url {
            Some(u) => u@,
            None => match t.magnet_uri {
                Some(m) => m@,
                None => Seq::<char>::empty(),
            },
        },
    }
}

/// The MIME type rendered with the chosen link: the magnet type for a magnet
/// URI, the torrent type otherwise.
pub open spec fn chosen_mime(t: Torrent) -> Seq<char> {
    match kv_get(attrs_of(t), "link"@) {
        Some(l) => if crate::text::prefix_match(l, "magnet:"@) {
            magnet_mime()
        } else {
            torrent_mime()
        },
        None => match t.torrent_file_url {
            Some(u) => torrent_mime(),
            None => magnet_mime(),
        },
    }
}

/// The category attribute elements of one record, in order.
pub open spec fn cat_attrs_xml(ids: Seq<u32>) -> Seq<char>
    decreases ids.len(),
{
    if ids.len() == 0 {
        Seq::<char>::empty()
    } else {
        cat_attrs_xml(ids.drop_last()) + "<torznab:attr"@ + attr_xml("name"@, "category"@)
            + attr_xml("value"@, dec_str(ids.last() as nat)) + "/>"@
    }
}

/// The remaining auxiliary attribute elements of one record, in order, the
/// `link` attribute excluded (it is rendered as the link itself).
pub open spec fn extra_attrs_xml(ps: Seq<(String, String)>) -> Seq<char>
    decreases ps.len(),
{
    if ps.len() == 0 {
        Seq::<char>::empty()
    } else if ps.last().0@ == "link"@ {
        extra_attrs_xml(ps.drop_last())
    } else {
        extra_attrs_xml(ps.drop_last()) + "<torznab:attr"@ + attr_xml(ps.last().0@, ps.last().1@)
            + "/>"@
    }
}

/// The description element of one record: its text, or empty when absent.
pub open spec fn description_xml(t: Torrent) -> Seq<char> {
    "<description>"@ + (match t.description {
        Some(d) => escape_seq(d@),
        None => Seq::<char>::empty(),
    }) + "</description>"@
}

/// One rendered `<item>`.
pub open spec fn item_xml(t: Torrent) -> Seq<char> {
    "<item>"@ + text_element_xml("title"@, t.title@) + description_xml(t) + "<torznab:attr"@
        + attr_xml("size"@, dec_str(t.size as nat)) + "/>"@ + cat_attrs_xml(t.category_ids@)
        + text_element_xml("link"@, chosen_link(t)) + "<enclosure"@ + attr_xml(
        "url"@,
        chosen_link(t),
    ) + attr_xml("length"@, "0"@) + attr_xml("type"@, chosen_mime(t)) + "/>"@ + extra_attrs_xml(
        attrs_of(t),
    ) + "</item>"@
}

/// The rendered items: one per record with a link, in order.
pub open spec fn items_xml(items: Seq<Torrent>) -> Seq<char>
    decreases items.len(),
{
    if items.len() == 0 {
        Seq::<char>::empty()
    } else if has_link(items.last()) {
        items_xml(items.drop_last()) + item_xml(items.last())
    } else {
        items_xml(items.drop_last())
    }
}

/// The feed title: the `title` server metadata when present, else the fixed
/// fallback.
pub open spec fn channel_title(info: Option<Vec<(String, String)>>) -> Seq<char> {
    match info {
        Some(ps) => match kv_get(ps@, "title"@) {
            Some(t) => t,
            None => "Orionznab by iPromKnight"@,
        },
        None => "Orionznab by iPromKnight"@,
    }
}

/// The head of the feed document, up to and including the title element.
pub open spec fn rss_head_xml(c: Caps) -> Seq<char> {
    decl_xml() + "<rss"@ + attr_xml("version"@, "1.0"@) + attr_xml(
        "xmlns:atom"@,
        "http://www.w3.org/2005/Atom"@,
    ) + attr_xml("xmlns:torznab"@, "http://torznab.com/schemas/2015/feed"@) + ">"@ + "<channel>"@
        + "<atom:link"@ + attr_xml("rel"@, "self"@) + attr_xml("type"@, "application/rss+xml"@)
        + "/>"@ + text_element_xml("title"@, channel_title(c.server_info))
}

/// The whole feed document for a successful search.
pub open spec fn rss_xml(c: Caps, items: Seq<Torrent>) -> Seq<char> {
    rss_head_xml(c) + items_xml(items) + "</channel>"@ + "</rss>"@
}

/// The minimal error document carrying an escaped failure message.
pub open spec fn error_xml(msg: Seq<char>) -> Seq<char> {
    decl_xml() + "<error>"@ + escape_seq(msg) + "</error>"@
}

fn append_cat_attrs(out: &mut String, ids: &Vec<u32>)
    ensures
        final(out)@ == old(out)@ + cat_attrs_xml(ids@),
{
    let mut i: usize = 0;
    proof {
        assert(ids@.subrange(0, 0) =~= Seq::<u32>::empty());
        assert(out@ =~= old(out)@ + cat_attrs_xml(ids@.subrange(0, 0)));
    }
    while i < ids.len()
        invariant
            i <= ids@.len(),
            out@ == old(out)@ + cat_attrs_xml(ids@.subrange(0, i as int)),
        decreases ids@.len() - i,
    {
        let ghost prev = ids@.subrange(0, i as int);
        out.append("<torznab:attr");
        crate::xml::append_attr(out, "name", "category");
        let v = crate::numbers::u32_to_string(ids[i]);
        crate::xml::append_attr(out, "value", v.as_str());
        out.append("/>");
        i = i + 1;
        proof {
            let step = ids@.subrange(0, i as int);
            assert(step.drop_last() =~= prev);
            assert(step.last() == ids@[i - 1]);
            assert(out@ =~= old(out)@ + cat_attrs_xml(step));
        }
    }
    proof {
        assert(ids@.subrange(0, ids@.len() as int) =~= ids@);
    }
}

fn append_extra_attrs(out: &mut String, ps: &Vec<(String, String)>)
    ensures
        final(out)@ == old(out)@ + extra_attrs_xml(ps@),
{
    let mut i: usize = 0;
    proof {
        assert(ps@.subrange(0, 0) =~= Seq::<(String, String)>::empty());
        assert(out@ =~= old(out)@ + extra_attrs_xml(ps@.subrange(0, 0)));
    }
    while i < ps.len()
        invariant
            i <= ps@.len(),
            out@ == old(out)@ + extra_attrs_xml(ps@.subrange(0, i as int)),
        decreases ps@.len() - i,
    {
        let ghost prev = ps@.subrange(0, i as int);
        if !crate::text::str_eq(ps[i].0.as_str(), "link") {
            out.append("<torznab:attr");
            crate::xml::append_attr(out, ps[i].0.as_str(), ps[i].1.as_str());
            out.append("/>");
        }
        i = i + 1;
        proof {
            let step = ps@.subrange(0, i as int);
            assert(step.drop_last() =~= prev);
            assert(step.last() == ps@[i - 1]);
            assert(out@ =~= old(out)@ + extra_attrs_xml(step));
        }
    }
    proof {
        assert(ps@.subrange(0, ps@.len() as int) =~= ps@);
    }
}

fn append_item_head(out: &mut String, t: &Torrent)
    ensures
        final(out)@ == old(out)@ + "<item>"@ + text_element_xml("title"@, t.title@)
            + description_xml(*t) + "<torznab:attr"@ + attr_xml("size"@, dec_str(t.size as nat))
            + "/>"@ + cat_attrs_xml(t.category_ids@),
{
    out.append("<item>");
    crate::xml::append_text_element(out, "title", t.title.as_str());
    out.append("<description>");
    match &t.description {
        Some(d) => {
            let e = crate::xml::escape_xml(d.as_str());
            out.append(e.as_str());
        },
        None => {},
    }
    out.append("</description>");
    proof {
        assert(out@ =~= old(out)@ + "<item>"@ + text_element_xml("title"@, t.title@)
            + description_xml(*t));
    }
    let ghost seg1 = out@;
    out.append("<torznab:attr");
    let sz = crate::numbers::u64_to_string(t.size);
    crate::xml::append_attr(out, "size", sz.as_str());
    out.append("/>");
    append_cat_attrs(out, &t.category_ids);
    proof {
        assert(out@ =~= seg1 + "<torznab:attr"@ + attr_xml("size"@, dec_str(t.size as nat))
            + "/>"@ + cat_attrs_xml(t.category_ids@));
    }
}

fn chosen_link_exec(t: &Torrent) -> (r: (String, &'static str))
    ensures
        r.0@ == chosen_link(*t),
        r.1@ == chosen_mime(*t),
{
    let attr_link: Option<String> = match &t.other_attributes {
        Some(v) => kv_get_exec(v, "link"),
        None => None,
    };
    match attr_link {
        Some(l) => {
            if crate::text::str_starts_with(l.as_str(), "magnet:") {
                (l, "application/x-bittorrent;x-scheme-handler/magnet")
            } else {
                (l, "application/x-bittorrent")
            }
        },
        None => match &t.torrent_file_url {
            Some(u) => (u.clone(), "application/x-bittorrent"),
            None => match &t.magnet_uri {
                Some(m) => (m.clone(), "application/x-bittorrent;x-scheme-handler/magnet"),
                None => (String::new(), "application/x-bittorrent;x-scheme-handler/magnet"),
            },
        },
    }
}

fn append_item_links(out: &mut String, t: &Torrent)
    ensures
        final(out)@ == old(out)@ + text_element_xml("link"@, chosen_link(*t)) + "<enclosure"@
            + attr_xml("url"@, chosen_link(*t)) + attr_xml("length"@, "0"@) + attr_xml(
            "type"@,
            chosen_mime(*t),
        ) + "/>"@,
{
    let pair = chosen_link_exec(t);
    let chosen = pair.0;
    let mime = pair.1;
    crate::xml::append_text_element(out, "link", chosen.as_str());
    out.append("<enclosure");
    crate::xml::append_attr(out, "url", chosen.as_str());
    crate::xml::append_attr(out, "length", "0");
    crate::xml::append_attr(out, "type", mime);
    out.append("/>");
    proof {
        assert(out@ =~= old(out)@ + text_element_xml("link"@, chosen_link(*t)) + "<enclosure"@
            + attr_xml("url"@, chosen_link(*t)) + attr_xml("length"@, "0"@) + attr_xml(
            "type"@,
            chosen_mime(*t),
        ) + "/>"@);
    }
}

fn append_item(out: &mut String, t: &Torrent)
    ensures
        final(out)@ == old(out)@ + item_xml(*t),
{
    append_item_head(out, t);
    append_item_links(out, t);
    match &t.other_attributes {
        Some(v) => {
            append_extra_attrs(out, v);
        },
        None => {},
    }
    out.append("</item>");
    proof {
        assert(out@ =~= old(out)@ + item_xml(*t));
    }
}

/// Renders the answer of one search request: the feed document listing the
/// records that carry a link when the search succeeded, the minimal error
/// document otherwise.
pub fn search_handler(conf: &Config, results: Result<Vec<Torrent>, String>) -> (r: RawXml<String>)
    ensures
        match results {
            Ok(items) => r.0@ == rss_xml(conf.caps, items@),
            Err(m) => r.0@ == error_xml("Search failed: "@ + m@),
        },
{
    match results {
        Ok(items) => {
            let mut out = String::from_str("<?xml version=\"1.0\" encoding=\"UTF-8\"?>");
            out.append("<rss");
            crate::xml::append_attr(&mut out, "version", "1.0");
            crate::xml::append_attr(&mut out, "xmlns:atom", "http://www.w3.org/2005/Atom");
            crate::xml::append_attr(
                &mut out,
                "xmlns:torznab",
                "http://torznab.com/schemas/2015/feed",
            );
            out.append(">");
            out.append("<channel>");
            out.append("<atom:link");
            crate::xml::append_attr(&mut out, "rel", "self");
            crate::xml::append_attr(&mut out, "type", "application/rss+xml");
            out.append("/>");
            let title: String = match &conf.caps.server_info {
                Some(ps) => match kv_get_exec(ps, "title") {
                    Some(t) => t,
                    None => String::from_str("Orionznab by iPromKnight"),
                },
                None => String::from_str("Orionznab by iPromKnight"),
            };
            crate::xml::append_text_element(&mut out, "title", title.as_str());
            proof {
                assert(out@ =~= rss_head_xml(conf.caps));
            }
            let ghost head = out@;
            let mut i: usize = 0;
            proof {
                assert(items@.subrange(0, 0) =~= Seq::<Torrent>::empty());
                assert(out@ =~= head + items_xml(items@.subrange(0, 0)));
            }
            while i < items.len()
                invariant
                    i <= items@.len(),
                    out@ == head + items_xml(items@.subrange(0, i as int)),
                decreases items@.len() - i,
            {
                let ghost prev = items@.subrange(0, i as int);
                let t = &items[i];
                let mut linked = false;
                match &t.torrent_file_url {
                    Some(u) => if !u.as_str().is_empty() {
                        linked = true;
                    },
                    None => {},
                }
                match &t.magnet_uri {
                    Some(m) => if !m.as_str().is_empty() {
                        linked = true;
                    },
                    None => {},
                }
                proof {
                    assert(linked == has_link(items@[i as int]));
                }
                if linked {
                    append_item(&mut out, t);
                }
                i = i + 1;
                proof {
                    let step = items@.subrange(0, i as int);
                    assert(step.drop_last() =~= prev);
                    assert(step.last() == items@[i - 1]);
                    assert(out@ =~= head + items_xml(step));
                }
            }
            out.append("</channel>");
            out.append("</rss>");
            proof {
                assert(items@.subrange(0, items@.len() as int) =~= items@);
                assert(out@ =~= rss_xml(conf.caps, items@));
            }
            RawXml(out)
        },
        Err(m) => {
            let mut out = String::from_str("<?xml version=\"1.0\" encoding=\"UTF-8\"?>");
            out.append("<error>");
            let mut msg = String::from_str("Search failed: ");
            msg.append(m.as_str());
            let e = crate::xml::escape_xml(msg.as_str());
            out.append(e.as_str());
            out.append("</error>");
            proof {
                assert(out@ =~= error_xml("Search failed: "@ + m@));
            }
            RawXml(out)
        },
    }
}

} // verus!
