use catalog_crawler::magiceden::{
    listing_records, scrape_page, snapshot_text, spider_name, start_urls, CollectionsItem,
    SnapshotError, LISTING_URL,
};

#[test]
fn source_label_and_start_page() {
    assert_eq!(spider_name(), "magicspider");
    assert_eq!(start_urls(), vec![LISTING_URL.to_string()]);
    assert_eq!(LISTING_URL, "https://api-mainnet.magiceden.io/all_collections?nowait=true/");
}

#[test]
fn scrape_takes_trimmed_first_pre() {
    let html = "<html><body><pre>\n  {\"collections\":[]}  \n</pre><pre>second</pre></body></html>";
    let (items, follow_ups) = scrape_page(html);
    assert_eq!(items.len(), 1);
    assert_eq!(items[0].collections, "{\"collections\":[]}");
    assert!(follow_ups.is_empty());
}

#[test]
fn scrape_without_pre_has_no_records() {
    let (items, follow_ups) = scrape_page("<html><body><p>blocked</p></body></html>");
    assert!(items.is_empty());
    assert!(follow_ups.is_empty());
}

#[test]
fn listing_records_wraps_text() {
    let (items, _) = listing_records(Some("[1]".to_string()));
    assert_eq!(items[0].collections, "[1]");
    assert!(listing_records(None).0.is_empty());
}

#[test]
fn snapshot_is_indented_json() {
    let item = CollectionsItem { collections: "{\"a\":[1,2]}".to_string() };
    match snapshot_text(&item) {
        Ok(text) => assert_eq!(text, "{\n  \"a\": [\n    1,\n    2\n  ]\n}"),
        Err(_) => panic!("the listing is JSON"),
    }
}

#[test]
fn snapshot_of_malformed_listing() {
    let item = CollectionsItem { collections: "{not json".to_string() };
    assert!(matches!(snapshot_text(&item), Err(SnapshotError::Malformed)));
}

#[test]
fn scrape_trims_unicode_white_space() {
    let html = "<pre>\u{3000}\u{a0}\t [\"x y\"] \u{2028}\n</pre>";
    let (items, _) = scrape_page(html);
    assert_eq!(items.len(), 1);
    assert_eq!(items[0].collections, "[\"x y\"]");
}

#[test]
fn scrape_of_blank_pre_gives_empty_listing() {
    let (items, _) = scrape_page("<pre> \n </pre>");
    assert_eq!(items.len(), 1);
    assert_eq!(items[0].collections, "");
    assert!(matches!(snapshot_text(&items[0]), Err(SnapshotError::Malformed)));
}
