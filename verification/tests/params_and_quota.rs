use orionznab::api::{classify_request, initialize_services, setup_torznab_config, RequestKind};
use orionznab::client::{AppConfig, ClientBuilder};
use orionznab::numbers::{parse_csv_u32, u32_to_padded2, u32_to_string, u64_to_string};
use orionznab::params::SearchForm;
use orionznab::rate_limit::{parse_quota, Quota, QuotaError, RateUnit};
use orionznab::types::SearchKind;

fn empty_form() -> SearchForm {
    SearchForm {
        t: None,
        q: None,
        apikey: None,
        cat: None,
        imdbid: None,
        season: None,
        ep: None,
        attrs: None,
        extended: None,
        offset: None,
        limit: None,
    }
}

#[test]
fn limit_above_maximum_is_clamped_to_maximum() {
    let conf = setup_torznab_config();
    let mut form = empty_form();
    form.limit = Some(5000);
    let p = form.to_parameters(&conf, SearchKind::Generic);
    assert_eq!(p.limit, 1000);
}

#[test]
fn limit_zero_is_raised_to_one() {
    let conf = setup_torznab_config();
    let mut form = empty_form();
    form.limit = Some(0);
    let p = form.to_parameters(&conf, SearchKind::Generic);
    assert_eq!(p.limit, 1);
}

#[test]
fn absent_limit_takes_the_default() {
    let conf = setup_torznab_config();
    let form = empty_form();
    let p = form.to_parameters(&conf, SearchKind::Movie);
    assert_eq!(p.limit, 50);
}

#[test]
fn in_range_limit_passes_through() {
    let conf = setup_torznab_config();
    let mut form = empty_form();
    form.limit = Some(123);
    let p = form.to_parameters(&conf, SearchKind::Tv);
    assert_eq!(p.limit, 123);
}

#[test]
fn non_numeric_category_tokens_are_dropped_in_order() {
    let conf = setup_torznab_config();
    let mut form = empty_form();
    form.cat = Some("2000,abc,5000".to_string());
    let p = form.to_parameters(&conf, SearchKind::Generic);
    assert_eq!(p.categories, Some(vec![2000, 5000]));
}

#[test]
fn category_csv_edge_cases() {
    assert_eq!(parse_csv_u32("2000,abc,5000"), vec![2000, 5000]);
    assert_eq!(parse_csv_u32(""), Vec::<u32>::new());
    assert_eq!(parse_csv_u32(",,"), Vec::<u32>::new());
    assert_eq!(parse_csv_u32("4294967295"), vec![4294967295]);
    assert_eq!(parse_csv_u32("4294967296"), Vec::<u32>::new());
    assert_eq!(parse_csv_u32("007,42"), vec![7, 42]);
    assert_eq!(parse_csv_u32("1,-2,3"), vec![1, 3]);
}

#[test]
fn attribute_names_are_kept_verbatim() {
    let conf = setup_torznab_config();
    let mut form = empty_form();
    form.attrs = Some("seeds,peers".to_string());
    let p = form.to_parameters(&conf, SearchKind::Generic);
    assert_eq!(p.attributes, Some(vec!["seeds".to_string(), "peers".to_string()]));
}

#[test]
fn extended_flag_only_set_for_one() {
    let conf = setup_torznab_config();
    let mut form = empty_form();
    form.extended = Some(1);
    assert_eq!(form.to_parameters(&conf, SearchKind::Generic).extended_attrs, Some(true));
    form.extended = Some(2);
    assert_eq!(form.to_parameters(&conf, SearchKind::Generic).extended_attrs, None);
    form.extended = None;
    assert_eq!(form.to_parameters(&conf, SearchKind::Generic).extended_attrs, None);
}

#[test]
fn pass_through_fields_survive_normalization() {
    let conf = setup_torznab_config();
    let mut form = empty_form();
    form.q = Some("flash".to_string());
    form.apikey = Some("k".to_string());
    form.imdbid = Some("tt123".to_string());
    form.season = Some(3);
    form.ep = Some(7);
    form.offset = Some(20);
    let p = form.to_parameters(&conf, SearchKind::Tv);
    assert_eq!(p.q, Some("flash".to_string()));
    assert_eq!(p.apikey, Some("k".to_string()));
    assert_eq!(p.imdbid, Some("tt123".to_string()));
    assert_eq!(p.season, Some(3));
    assert_eq!(p.ep, Some(7));
    assert_eq!(p.offset, Some(20));
    assert_eq!(p.search_type, SearchKind::Tv);
}

#[test]
fn quota_strings_parse_with_units_and_abbreviations() {
    assert_eq!(
        parse_quota("10/second"),
        Ok(Quota { amount: 10, unit: RateUnit::PerSecond })
    );
    assert_eq!(parse_quota("10/sec"), Ok(Quota { amount: 10, unit: RateUnit::PerSecond }));
    assert_eq!(parse_quota("5/minute"), Ok(Quota { amount: 5, unit: RateUnit::PerMinute }));
    assert_eq!(parse_quota("3/min"), Ok(Quota { amount: 3, unit: RateUnit::PerMinute }));
    assert_eq!(parse_quota("2/hour"), Ok(Quota { amount: 2, unit: RateUnit::PerHour }));
    assert_eq!(
        parse_quota("  10/second\n"),
        Ok(Quota { amount: 10, unit: RateUnit::PerSecond })
    );
}

#[test]
fn quota_failures_name_what_was_wrong() {
    assert_eq!(parse_quota("10"), Err(QuotaError::Format));
    assert_eq!(parse_quota("10/second/extra"), Err(QuotaError::Format));
    assert_eq!(parse_quota("x/second"), Err(QuotaError::Amount));
    assert_eq!(parse_quota("0/second"), Err(QuotaError::Zero));
    assert_eq!(parse_quota("10/day"), Err(QuotaError::Unit("day".to_string())));
}

#[test]
fn decimal_rendering_is_exact() {
    assert_eq!(u32_to_string(0), "0");
    assert_eq!(u32_to_string(12345), "12345");
    assert_eq!(u32_to_string(4294967295), "4294967295");
    assert_eq!(u64_to_string(18446744073709551615), "18446744073709551615");
    assert_eq!(u32_to_padded2(5), "05");
    assert_eq!(u32_to_padded2(42), "42");
    assert_eq!(u32_to_padded2(0), "00");
    assert_eq!(u32_to_padded2(123), "123");
}

#[test]
fn builder_requires_an_executor() {
    let b: ClientBuilder<u32> = Default::default();
    assert_eq!(b.base_url, "https://api.orionoid.com");
    let missing: ClientBuilder<u32> = Default::default();
    assert_eq!(missing.build(), Err("missing executor".to_string()));
    let b: ClientBuilder<u32> = Default::default();
    let c = b.with_executor(7).build().unwrap();
    assert_eq!(c.executor, 7);
    assert_eq!(c.base_url, "https://api.orionoid.com");
}

#[test]
fn services_initialize_from_a_valid_configuration() {
    let config = AppConfig {
        user_agent: "agent".to_string(),
        orionoid_rate_limit: "10/second".to_string(),
    };
    let services = initialize_services(&config).unwrap();
    assert_eq!(services.client.user_agent, "agent");
    assert_eq!(services.client.quota, Quota { amount: 10, unit: RateUnit::PerSecond });
    assert_eq!(services.client.base_url, "https://api.orionoid.com");
    assert_eq!(services.config.caps.limits.max, 1000);
    assert_eq!(services.config.caps.limits.default, 50);

    let bad = AppConfig {
        user_agent: "agent".to_string(),
        orionoid_rate_limit: "never".to_string(),
    };
    assert!(initialize_services(&bad).is_err());
}

#[test]
fn request_kinds_follow_the_t_parameter() {
    assert_eq!(classify_request(&Some("caps".to_string())), RequestKind::Caps);
    assert_eq!(classify_request(&Some("search".to_string())), RequestKind::Search);
    assert_eq!(classify_request(&Some("tvsearch".to_string())), RequestKind::TvSearch);
    assert_eq!(classify_request(&Some("movie".to_string())), RequestKind::MovieSearch);
    assert_eq!(classify_request(&Some("other".to_string())), RequestKind::Unknown);
    assert_eq!(classify_request(&None), RequestKind::Unknown);
}
