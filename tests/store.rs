use backend::{
    Error, ListedEntry, Product, ProductEntry, ProductFilter, ProductUpdate, Shop, ShopFilter,
    Store, Unit,
};

fn shop(id: u128, name: &str) -> Shop {
    Shop { id, name: name.to_string(), notes: None }
}

fn product(id: u128, name: &str, notes: &str, tags: &[&str]) -> Product {
    Product {
        id,
        name: name.to_string(),
        notes: Some(notes.to_string()),
        tags: Some(tags.iter().map(|t| t.to_string()).collect()),
    }
}

fn entry(id: u128, product_id: u128, price: i64, volume: Option<i64>, shop_id: Option<u128>, notes: &str) -> ProductEntry {
    ProductEntry {
        id,
        product_id,
        price,
        product_volume: volume,
        unit: Unit::Kg,
        shop_id,
        date: Some(1_700_000_000),
        notes: Some(notes.to_string()),
    }
}

fn names(ps: &[Product]) -> Vec<String> {
    let mut v: Vec<String> = ps.iter().map(|p| p.name.clone()).collect();
    v.sort();
    v
}

#[test]
fn add_shop_returns_its_id() {
    let mut store = Store::new();
    let id = store.add_shop(shop(7, "Test Shop")).expect("Failed to add shop");
    assert_eq!(id, 7);
    assert_eq!(store.get_shop_by_id(7).unwrap().name, "Test Shop");
}

#[test]
fn add_product_then_list() {
    let mut store = Store::new();
    store.add_shop(shop(1, "Test Shop")).unwrap();
    let id = store.add_product(product(2, "Test Product", "Test notes", &["tag1", "tag2"])).unwrap();
    assert_eq!(id, 2);
    assert!(store.get_products().iter().any(|p| p.id == id));
}

#[test]
fn create_then_get_round_trip() {
    let mut store = Store::new();
    store.add_product(product(9, "Apple", "Fresh apples", &["fruit", "red"])).unwrap();
    let got = store.get_product(9).unwrap();
    assert_eq!(got.name, "Apple");
    assert_eq!(got.notes.as_deref(), Some("Fresh apples"));
    assert_eq!(got.tags, Some(vec!["fruit".to_string(), "red".to_string()]));
    assert!(matches!(store.get_product(10), Err(Error::NotFound)));
}

#[test]
fn product_with_placeholder_name_is_refused() {
    let mut store = Store::new();
    assert!(matches!(store.add_product(product(1, "", "Some notes", &["tag1"])), Err(Error::Validation)));
    assert!(store.get_products().is_empty());
}

#[test]
fn duplicate_ids_are_refused_by_the_store() {
    let mut store = Store::new();
    store.add_product(product(1, "A", "n", &[])).unwrap();
    assert!(matches!(store.add_product(product(1, "B", "n", &[])), Err(Error::Store)));
    store.add_shop(shop(1, "S")).unwrap();
    assert!(matches!(store.add_shop(shop(1, "T")), Err(Error::Store)));
}

#[test]
fn delete_product_and_shop() {
    let mut store = Store::new();
    store.add_shop(shop(1, "Shop to Delete")).unwrap();
    store.add_product(product(2, "Product to Delete", "To be deleted", &["delete"])).unwrap();
    assert_eq!(store.delete_product(2), 1);
    assert!(!store.get_products().iter().any(|p| p.id == 2));
    assert_eq!(store.delete_shop(1), 1);
}

#[test]
fn deleting_a_missing_id_returns_zero() {
    let mut store = Store::new();
    store.add_product(product(2, "P", "n", &[])).unwrap();
    assert_eq!(store.delete_product(3), 0);
    assert_eq!(store.delete_shop(3), 0);
    assert_eq!(store.delete_product_entry(3), 0);
    assert_eq!(store.get_products().len(), 1);
}

#[test]
fn update_product_edge_cases() {
    let mut store = Store::new();
    store.add_shop(shop(1, "Update Shop")).unwrap();
    store.add_product(product(2, "EdgeCaseProduct", "Initial notes", &["tag1"])).unwrap();
    assert_eq!(store.update_product(2, &ProductUpdate::new()), Ok(0));
    let mut u = ProductUpdate::new();
    u.name = Some("UpdatedName".to_string());
    u.notes = Some("Updated notes".to_string());
    u.tags = Some(vec!["tag2".to_string()]);
    assert_eq!(store.update_product(2, &u), Ok(1));
    let updated = store.get_product(2).unwrap();
    assert_eq!(updated.name, "UpdatedName");
    assert_eq!(updated.notes.as_deref(), Some("Updated notes"));
    assert_eq!(updated.tags, Some(vec!["tag2".to_string()]));
    let mut u = ProductUpdate::new();
    u.name = Some(String::new());
    assert_eq!(store.update_product(2, &u), Ok(1));
    assert_eq!(store.get_product(2).unwrap().name, "");
    let long_name = "a".repeat(255);
    let long_notes = "b".repeat(1000);
    let mut u = ProductUpdate::new();
    u.name = Some(long_name.clone());
    u.notes = Some(long_notes.clone());
    assert_eq!(store.update_product(2, &u), Ok(1));
    let updated = store.get_product(2).unwrap();
    assert_eq!(updated.name, long_name);
    assert_eq!(updated.notes.as_deref(), Some(&long_notes[..]));
    assert_eq!(updated.tags, Some(vec!["tag2".to_string()]));
}

#[test]
fn empty_update_changes_nothing() {
    let mut store = Store::new();
    store.add_product(product(2, "P", "n", &["t"])).unwrap();
    assert_eq!(store.update_product(2, &ProductUpdate::new()), Ok(0));
    assert_eq!(store.update_product(99, &ProductUpdate::new()), Ok(0));
    assert_eq!(store.get_product(2).unwrap().name, "P");
}

#[test]
fn update_of_missing_product_returns_zero() {
    let mut store = Store::new();
    let mut u = ProductUpdate::new();
    u.name = Some("X".to_string());
    assert_eq!(store.update_product(5, &u), Ok(0));
}

#[test]
fn out_of_range_update_fails_and_keeps_the_product() {
    let mut store = Store::new();
    store.add_product(product(2, "P", "n", &[])).unwrap();
    for (price, volume) in [(Some(1_000_001), None), (Some(-1), None), (None, Some(-500)), (None, Some(1_000_001))] {
        let mut u = ProductUpdate::new();
        u.name = Some("Changed".to_string());
        u.price = price;
        u.product_volume = volume;
        assert_eq!(store.update_product(2, &u), Err(Error::OutOfRange));
        assert_eq!(store.get_product(2).unwrap().name, "P");
    }
}

#[test]
fn in_range_price_reaches_the_store() {
    let mut store = Store::new();
    store.add_product(product(2, "P", "n", &[])).unwrap();
    for price in [0, 1_000_000] {
        let mut u = ProductUpdate::new();
        u.price = Some(price);
        assert_eq!(store.update_product(2, &u), Err(Error::Store));
    }
    assert_eq!(store.get_product(2).unwrap().name, "P");
}

#[test]
fn dangling_shop_update_fails_and_keeps_the_product() {
    let mut store = Store::new();
    store.add_shop(shop(1, "S")).unwrap();
    store.add_product(product(2, "P", "n", &[])).unwrap();
    let mut u = ProductUpdate::new();
    u.name = Some("Changed".to_string());
    u.shop_id = Some(42);
    assert_eq!(store.update_product(2, &u), Err(Error::Reference));
    assert_eq!(store.get_product(2).unwrap().name, "P");
}

#[test]
fn add_product_entry_returns_its_id() {
    let mut store = Store::new();
    store.add_shop(shop(1, "Entry Shop")).unwrap();
    store.add_product(product(2, "Entry Product", "Entry notes", &["entry"])).unwrap();
    let e = entry(3, 2, 299, Some(100), Some(1), "Entry for test");
    assert_eq!(store.add_product_entry(e), Ok(3));
}

#[test]
fn entry_volume_boundary() {
    let mut store = Store::new();
    store.add_shop(shop(1, "Volume Shop")).unwrap();
    store.add_product(product(2, "Volume Product", "Test volume", &[])).unwrap();
    assert_eq!(store.add_product_entry(entry(3, 2, 100, Some(-500), Some(1), "Negative volume")), Err(Error::Validation));
    assert_eq!(store.add_product_entry(entry(4, 2, 100, Some(0), Some(1), "Zero volume")), Ok(4));
    assert_eq!(store.add_product_entry(entry(5, 2, 100, None, None, "No volume")), Ok(5));
    assert_eq!(store.get_product_entries_filtered(&ProductFilter::new()).len(), 2);
}

#[test]
fn entry_references_must_exist() {
    let mut store = Store::new();
    store.add_product(product(2, "P", "n", &[])).unwrap();
    assert_eq!(store.add_product_entry(entry(3, 9, 100, None, None, "x")), Err(Error::Reference));
    assert_eq!(store.add_product_entry(entry(3, 2, 100, None, Some(9), "x")), Err(Error::Reference));
    assert_eq!(store.add_product_entry(entry(3, 2, 100, None, None, "x")), Ok(3));
    assert_eq!(store.add_product_entry(entry(3, 2, 100, None, None, "x")), Err(Error::Store));
}

#[test]
fn shop_names_conflict_ignoring_case() {
    let mut store = Store::new();
    assert_eq!(store.add_shop(shop(1, "Tesco")), Ok(1));
    assert_eq!(store.add_shop(shop(2, "tesco")), Err(Error::Conflict));
    assert_eq!(store.add_shop(shop(3, "TESCO")), Err(Error::Conflict));
    assert_eq!(store.add_shop(shop(4, "Tesco Express")), Ok(4));
    assert!(store.get_shop_by_id(2).is_none());
}

#[test]
fn empty_filters_list_everything() {
    let mut store = Store::new();
    store.add_shop(shop(1, "S")).unwrap();
    store.add_product(product(2, "A", "n", &["x"])).unwrap();
    store.add_product(product(3, "B", "m", &[])).unwrap();
    store.add_product_entry(entry(4, 2, 100, None, Some(1), "e")).unwrap();
    assert_eq!(names(&store.get_products_filtered(&ProductFilter::new())), names(&store.get_products()));
    assert_eq!(store.get_shops_filtered(&ShopFilter::new()).len(), 1);
    assert_eq!(store.get_product_entries_filtered(&ProductFilter::new()).len(), 1);
}

fn fruit_store() -> Store {
    let mut store = Store::new();
    store.add_shop(shop(1, "Filter Shop")).unwrap();
    store.add_product(product(2, "Apple", "Fresh apples", &["fruit"])).unwrap();
    store.add_product(product(3, "Banana", "Yellow bananas", &["fruit"])).unwrap();
    store.add_product(product(4, "Milk", "Whole milk", &["dairy"])).unwrap();
    store
}

#[test]
fn products_filtered_by_name_and_tag() {
    let store = fruit_store();
    let mut f = ProductFilter::new();
    f.name = Some("Apple".to_string());
    let r = store.get_products_filtered(&f);
    assert_eq!(r.len(), 1);
    assert_eq!(r[0].name, "Apple");
    let mut f = ProductFilter::new();
    f.tag = Some("fruit".to_string());
    assert_eq!(names(&store.get_products_filtered(&f)), vec!["Apple".to_string(), "Banana".to_string()]);
    let mut f = ProductFilter::new();
    f.tag = Some("fru".to_string());
    assert!(store.get_products_filtered(&f).is_empty());
}

#[test]
fn product_filter_ignores_entry_fields() {
    let store = fruit_store();
    let mut f = ProductFilter::new();
    f.notes = Some("Fresh apples".to_string());
    assert_eq!(names(&store.get_products_filtered(&f)), vec!["Apple".to_string()]);
    let mut f = ProductFilter::new();
    f.unit = Some(Unit::Kg);
    f.shop_id = Some(1);
    f.min_price = Some(100);
    f.max_price = Some(1000);
    f.date = Some(0);
    assert_eq!(store.get_products_filtered(&f).len(), 3);
}

#[test]
fn entries_filtered_by_price_and_notes() {
    let mut store = Store::new();
    store.add_shop(shop(1, "EntryFilter Shop")).unwrap();
    store.add_product(product(2, "EntryFilterProduct", "Entry filter notes", &["entryfilter"])).unwrap();
    store.add_product_entry(entry(10, 2, 500, Some(100), Some(1), "Fresh batch")).unwrap();
    store.add_product_entry(entry(11, 2, 1000, Some(200), Some(1), "Old batch")).unwrap();
    let mut f = ProductFilter::new();
    f.product_id = Some(2);
    assert_eq!(store.get_product_entries_filtered(&f).len(), 2);
    f.min_price = Some(600);
    let r: Vec<ListedEntry> = store.get_product_entries_filtered(&f);
    assert_eq!(r.len(), 1);
    assert_eq!(r[0].entry.price, 1000);
    assert_eq!(r[0].shop_name.as_deref(), Some("EntryFilter Shop"));
    let mut f = ProductFilter::new();
    f.product_id = Some(2);
    f.notes = Some("Fresh batch".to_string());
    let r = store.get_product_entries_filtered(&f);
    assert_eq!(r.len(), 1);
    assert_eq!(r[0].entry.notes.as_deref(), Some("Fresh batch"));
}

#[test]
fn entry_of_deleted_shop_lists_without_shop_name() {
    let mut store = Store::new();
    store.add_shop(shop(1, "Gone")).unwrap();
    store.add_product(product(2, "P", "n", &[])).unwrap();
    store.add_product_entry(entry(3, 2, 100, None, Some(1), "x")).unwrap();
    assert_eq!(store.delete_shop(1), 1);
    let r = store.get_product_entries_filtered(&ProductFilter::new());
    assert_eq!(r.len(), 1);
    assert_eq!(r[0].entry.shop_id, Some(1));
    assert!(r[0].shop_name.is_none());
}

#[test]
fn shops_filtered_by_id_name_and_notes() {
    let mut store = Store::new();
    store.add_shop(shop(1, "Tesco")).unwrap();
    store.add_shop(shop(2, "Lidl")).unwrap();
    store.add_shop(Shop { id: 3, name: "Tesco Express".to_string(), notes: Some("small".to_string()) }).unwrap();
    let mut f = ShopFilter::new();
    f.name = Some("Tesco".to_string());
    let r = store.get_shops_filtered(&f);
    assert_eq!(r.len(), 1);
    assert_eq!(r[0].name, "Tesco");
    let mut f = ShopFilter::new();
    f.id = Some(2);
    let r = store.get_shops_filtered(&f);
    assert_eq!(r.len(), 1);
    assert_eq!(r[0].name, "Lidl");
    let mut f = ShopFilter::new();
    f.notes = Some("small".to_string());
    let r = store.get_shops_filtered(&f);
    assert_eq!(r.len(), 1);
    assert_eq!(r[0].name, "Tesco Express");
}

#[test]
fn entry_by_names_resolves_ids() {
    let mut store = Store::new();
    store.add_shop(shop(1, "Lidl")).unwrap();
    store.add_product(product(2, "Banana", "n", &[])).unwrap();
    let draft = entry(5, 0, 150, Some(100), None, "by name");
    assert_eq!(store.add_product_entry_by_names("Banana", "Lidl", draft), Ok(5));
    let r = store.get_product_entries_filtered(&ProductFilter::new());
    assert_eq!(r[0].entry.product_id, 2);
    assert_eq!(r[0].entry.shop_id, Some(1));
}

#[test]
fn entry_by_names_reports_missing_and_ambiguous_names() {
    let mut store = Store::new();
    store.add_shop(shop(1, "Lidl")).unwrap();
    store.add_product(product(2, "Banana", "n", &[])).unwrap();
    store.add_product(product(3, "Banana", "other", &[])).unwrap();
    assert_eq!(store.add_product_entry_by_names("Banana", "Aldi", entry(5, 0, 1, None, None, "x")), Err(Error::NotFound));
    assert_eq!(store.add_product_entry_by_names("Apple", "Lidl", entry(5, 0, 1, None, None, "x")), Err(Error::NotFound));
    assert_eq!(store.add_product_entry_by_names("Banana", "Lidl", entry(5, 0, 1, None, None, "x")), Err(Error::Conflict));
    assert_eq!(store.add_product_entry_by_names("Banana", "lidl", entry(5, 0, 1, None, None, "x")), Err(Error::NotFound));
    assert!(store.get_product_entries_filtered(&ProductFilter::new()).is_empty());
}

#[test]
fn product_by_name_takes_the_first_match() {
    let mut store = Store::new();
    store.add_product(product(2, "Banana", "first", &[])).unwrap();
    store.add_product(product(3, "Banana", "second", &[])).unwrap();
    assert_eq!(store.get_product_by_name("Banana").unwrap().id, 2);
    assert!(store.get_product_by_name("banana").is_none());
}
