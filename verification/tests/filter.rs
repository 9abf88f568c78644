use fitgirl_torrent_scrap::filter::{text_mentions_adult, FilterType, UnknownFilter};

#[test]
fn filter_names_are_kebab_case() {
    assert_eq!(FilterType::parse("adult-only"), Some(FilterType::AdultOnly));
    assert_eq!(FilterType::parse("no-adult"), Some(FilterType::NoAdult));
    assert_eq!(FilterType::parse("none"), Some(FilterType::All));
}

#[test]
fn unknown_filter_names_are_rejected() {
    assert_eq!(FilterType::parse(""), None);
    assert_eq!(FilterType::parse("None"), None);
    assert_eq!(FilterType::parse("AdultOnly"), None);
    assert_eq!(FilterType::parse("adult_only"), None);
    assert_eq!(FilterType::parse("no-adult "), None);
}

#[test]
fn filter_reads_through_from_str() {
    assert_eq!("adult-only".parse::<FilterType>(), Ok(FilterType::AdultOnly));
    assert_eq!("no-adult".parse::<FilterType>(), Ok(FilterType::NoAdult));
    assert_eq!("none".parse::<FilterType>(), Ok(FilterType::All));
    assert_eq!("all".parse::<FilterType>(), Err(UnknownFilter));
}

#[test]
fn default_filter_keeps_everything() {
    assert_eq!(FilterType::default(), FilterType::All);
    assert!(FilterType::default().retains(true));
    assert!(FilterType::default().retains(false));
}

#[test]
fn adult_only_keeps_exactly_the_marked() {
    assert!(FilterType::AdultOnly.retains(true));
    assert!(!FilterType::AdultOnly.retains(false));
}

#[test]
fn no_adult_drops_exactly_the_marked() {
    assert!(!FilterType::NoAdult.retains(true));
    assert!(FilterType::NoAdult.retains(false));
}

#[test]
fn adult_marker_is_found_in_any_case() {
    assert!(text_mentions_adult("Adult"));
    assert!(text_mentions_adult("adult"));
    assert!(text_mentions_adult("ADULT"));
    assert!(text_mentions_adult("Some aDuLt Game"));
    assert!(text_mentions_adult("Unadulterated"));
}

#[test]
fn adult_marker_is_not_found_where_absent() {
    assert!(!text_mentions_adult(""));
    assert!(!text_mentions_adult("adul"));
    assert!(!text_mentions_adult("a d u l t"));
    assert!(!text_mentions_adult("Grown-up Game"));
}
