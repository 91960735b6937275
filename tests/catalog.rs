use catalog_crawler::filters::{CollectionItem, Collections};

fn entry(symbol: &str, total_items: Option<u32>, address: Option<&str>) -> CollectionItem {
    CollectionItem {
        image: format!("{}.png", symbol),
        name: symbol.to_uppercase(),
        symbol: symbol.to_string(),
        total_items,
        on_chain_collection_address: address.map(|a| a.to_string()),
    }
}

fn symbols(c: &Collections) -> Vec<String> {
    c.collections.iter().map(|i| i.symbol.clone()).collect()
}

#[test]
fn drop_empty_and_lookup() {
    let catalog = Collections {
        collections: vec![entry("x", Some(0), None), entry("y", Some(5), Some("ABC"))],
    };
    let kept = catalog.drop_empty_collections();
    assert_eq!(symbols(&kept), vec!["y".to_string()]);
    assert_eq!(kept.collections[0].total_items, Some(5));
    let again = Collections {
        collections: vec![entry("x", Some(0), None), entry("y", Some(5), Some("ABC"))],
    };
    assert_eq!(again.drop_empty_collections().get_address("y"), Some("ABC".to_string()));
    assert_eq!(kept.get_address("z"), None);
}

#[test]
fn drop_empty_twice_equals_once() {
    let catalog = Collections {
        collections: vec![
            entry("a", None, None),
            entry("b", Some(3), Some("B1")),
            entry("c", Some(0), Some("C1")),
            entry("d", Some(1), None),
        ],
    };
    let once = catalog.drop_empty_collections();
    let once_symbols = symbols(&once);
    assert_eq!(once_symbols, vec!["b".to_string(), "d".to_string()]);
    let twice = once.drop_empty_collections();
    assert_eq!(symbols(&twice), once_symbols);
}

#[test]
fn drop_empty_of_empty_catalog() {
    let catalog = Collections { collections: vec![] };
    assert!(catalog.drop_empty_collections().collections.is_empty());
}

#[test]
fn lookup_takes_first_match() {
    let catalog = Collections {
        collections: vec![entry("odes", Some(2), Some("first")), entry("odes", Some(2), Some("second"))],
    };
    assert_eq!(catalog.get_address("odes"), Some("first".to_string()));
}

#[test]
fn lookup_of_match_without_address_is_none() {
    let catalog = Collections {
        collections: vec![entry("k", Some(2), None), entry("k", Some(2), Some("later"))],
    };
    assert_eq!(catalog.get_address("k"), None);
}
