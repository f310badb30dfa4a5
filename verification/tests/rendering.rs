use orionznab::api::setup_torznab_config;
use orionznab::categories::{categories, get_category_by_name};
use orionznab::responses::{caps, search_handler};
use orionznab::types::{Caps, Config, Limits, Torrent};
use orionznab::xml::escape_xml;

#[test]
fn a_fresh_capability_document_has_two_categories_and_three_search_types() {
    let conf = setup_torznab_config();
    assert_eq!(conf.caps.categories.len(), 2);
    assert_eq!(conf.caps.categories[0].id, 2000);
    assert_eq!(conf.caps.categories[1].id, 5000);
    assert_eq!(conf.caps.categories[0].subcategories.len(), 9);
    assert_eq!(conf.caps.categories[1].subcategories.len(), 9);
    assert_eq!(conf.caps.searching.len(), 3);
    assert_eq!(conf.caps.searching[0].search_type, "search");
    assert_eq!(conf.caps.searching[1].search_type, "movie-search");
    assert_eq!(conf.caps.searching[2].search_type, "tv-search");
}

#[test]
fn categories_are_found_by_name() {
    let cats = categories();
    assert_eq!(get_category_by_name(&cats, "Movies").unwrap().id, 2000);
    assert_eq!(get_category_by_name(&cats, "TV").unwrap().id, 5000);
    assert!(get_category_by_name(&cats, "Audio").is_none());
}

#[test]
fn escaping_replaces_every_markup_character() {
    assert_eq!(escape_xml("a<b>c&d\"e'f"), "a&lt;b&gt;c&amp;d&quot;e&apos;f");
    assert_eq!(escape_xml(""), "");
    assert_eq!(escape_xml("&&"), "&amp;&amp;");
    assert_eq!(escape_xml("plain"), "plain");
}

#[test]
fn rendered_text_nodes_never_expose_raw_markup() {
    let escaped = escape_xml("<script>\"&'");
    assert!(!escaped.contains('<'));
    assert!(!escaped.contains('>'));
    assert!(!escaped.contains('"'));
    assert!(!escaped.contains('\''));
}

#[test]
fn the_capability_document_renders_the_fixed_tables() {
    let conf = setup_torznab_config();
    let doc = caps(&conf).0;
    assert!(doc.starts_with("<?xml version=\"1.0\" encoding=\"UTF-8\"?><caps>"));
    assert!(doc.ends_with("</caps>"));
    assert!(doc.contains(
        "<server version=\"1.0.0\" url=\"https://github.com/ipromknight/orionznab\" title=\"Orionznab by iPromKnight\"/>"
    ));
    assert!(doc.contains("<limits max=\"1000\" default=\"50\"/>"));
    assert!(doc.contains("<search available=\"yes\" supportedParams=\"q\"/>"));
    assert!(doc.contains(
        "<movie-search available=\"yes\" supportedParams=\"q,imdbid\"/>"
    ));
    assert!(doc.contains(
        "<tv-search available=\"yes\" supportedParams=\"q,imdbid,season,ep\"/>"
    ));
    assert!(doc.contains("<category id=\"2000\" name=\"Movies\">"));
    assert!(doc.contains("<subcat id=\"2045\" name=\"Movies/UHD\"/>"));
    assert!(doc.contains("<category id=\"5000\" name=\"TV\">"));
    assert!(doc.contains("<subcat id=\"5080\" name=\"TV/Documentary\"/>"));
    assert!(!doc.contains("<genres>"));
    assert!(!doc.contains("<tags>"));
}

#[test]
fn a_minimal_capability_document_is_rendered_exactly() {
    let conf = Config {
        caps: Caps {
            server_info: None,
            limits: Limits { max: 100, default: 10 },
            searching: vec![],
            categories: vec![],
            genres: None,
            tags: None,
        },
    };
    assert_eq!(
        caps(&conf).0,
        "<?xml version=\"1.0\" encoding=\"UTF-8\"?><caps><server/><limits max=\"100\" default=\"10\"/><searching></searching><categories></categories></caps>"
    );
}

fn bare_torrent() -> Torrent {
    Torrent {
        title: "A Title".to_string(),
        description: None,
        result_type: "movie".to_string(),
        size: 999,
        category_ids: vec![2000],
        torrent_file_url: Some("http://host/a.torrent".to_string()),
        magnet_uri: None,
        other_attributes: Some(vec![("seeds".to_string(), "10".to_string())]),
    }
}

#[test]
fn a_successful_search_renders_one_item_per_linked_record() {
    let conf = setup_torznab_config();
    let doc = search_handler(&conf, Ok(vec![bare_torrent()])).0;
    assert!(doc.starts_with(
        "<?xml version=\"1.0\" encoding=\"UTF-8\"?><rss version=\"1.0\" xmlns:atom=\"http://www.w3.org/2005/Atom\" xmlns:torznab=\"http://torznab.com/schemas/2015/feed\"><channel>"
    ));
    assert!(doc.contains("<title>Orionznab by iPromKnight</title>"));
    assert!(doc.contains("<item><title>A Title</title><description></description>"));
    assert!(doc.contains("<torznab:attr size=\"999\"/>"));
    assert!(doc.contains("<torznab:attr name=\"category\" value=\"2000\"/>"));
    assert!(doc.contains("<link>http://host/a.torrent</link>"));
    assert!(doc.contains(
        "<enclosure url=\"http://host/a.torrent\" length=\"0\" type=\"application/x-bittorrent\"/>"
    ));
    assert!(doc.contains("<torznab:attr seeds=\"10\"/>"));
    assert!(doc.ends_with("</item></channel></rss>"));
}

#[test]
fn magnet_only_records_use_the_magnet_mime_type() {
    let conf = setup_torznab_config();
    let mut t = bare_torrent();
    t.torrent_file_url = None;
    t.magnet_uri = Some("magnet:?xt=u".to_string());
    let doc = search_handler(&conf, Ok(vec![t])).0;
    assert!(doc.contains("<link>magnet:?xt=u</link>"));
    assert!(doc.contains(
        "<enclosure url=\"magnet:?xt=u\" length=\"0\" type=\"application/x-bittorrent;x-scheme-handler/magnet\"/>"
    ));
}

#[test]
fn an_explicit_link_attribute_takes_precedence_and_is_not_repeated() {
    let conf = setup_torznab_config();
    let mut t = bare_torrent();
    t.other_attributes = Some(vec![
        ("link".to_string(), "http://mirror/x.torrent".to_string()),
        ("seeds".to_string(), "10".to_string()),
    ]);
    let doc = search_handler(&conf, Ok(vec![t])).0;
    assert!(doc.contains("<link>http://mirror/x.torrent</link>"));
    assert!(doc.contains("<enclosure url=\"http://mirror/x.torrent\""));
    assert!(!doc.contains("<torznab:attr link="));
}

#[test]
fn records_without_any_link_are_left_out_of_the_feed() {
    let conf = setup_torznab_config();
    let mut unlinked = bare_torrent();
    unlinked.torrent_file_url = Some("".to_string());
    unlinked.magnet_uri = None;
    let doc = search_handler(&conf, Ok(vec![unlinked, bare_torrent()])).0;
    assert_eq!(doc.matches("<item>").count(), 1);
}

#[test]
fn titles_with_markup_are_escaped_in_the_feed() {
    let conf = setup_torznab_config();
    let mut t = bare_torrent();
    t.title = "AC/DC <Live> & \"Loud\"".to_string();
    let doc = search_handler(&conf, Ok(vec![t])).0;
    assert!(doc.contains("<title>AC/DC &lt;Live&gt; &amp; &quot;Loud&quot;</title>"));
}

#[test]
fn a_failed_search_renders_the_minimal_error_document() {
    let conf = setup_torznab_config();
    let doc = search_handler(&conf, Err("boom & <bad>".to_string())).0;
    assert_eq!(
        doc,
        "<?xml version=\"1.0\" encoding=\"UTF-8\"?><error>Search failed: boom &amp; &lt;bad&gt;</error>"
    );
}
