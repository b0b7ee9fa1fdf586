use backend::filter::{entry_predicates, product_predicates, shop_predicates, Bind, Column, Op};
use backend::names::resolve_unique;
use backend::update::{plan_product_update, update_assignments, UpdatePlan};
use backend::{Error, ProductFilter, ProductUpdate, ShopFilter, Unit};

#[test]
fn unit_tags_round_trip() {
    for u in [Unit::Ks, Unit::Kg, Unit::L] {
        assert_eq!(Unit::from_tag(u.as_str()), Some(u));
    }
    assert_eq!(Unit::Kg.as_str(), "kg");
    assert_eq!(Unit::Ks.as_str(), "ks");
    assert_eq!(Unit::L.as_str(), "l");
    assert_eq!(Unit::from_tag("_"), None);
    assert_eq!(Unit::from_tag(""), None);
    assert_eq!(Unit::from_tag("KG"), None);
    assert_eq!(Unit::from_tag("kgs"), None);
}

#[test]
fn empty_filters_build_no_predicates() {
    assert!(product_predicates(&ProductFilter::new()).is_empty());
    assert!(entry_predicates(&ProductFilter::new()).is_empty());
    assert!(shop_predicates(&ShopFilter::new()).is_empty());
}

#[test]
fn product_predicates_follow_field_order() {
    let mut f = ProductFilter::new();
    f.tag = Some("fruit".to_string());
    f.name = Some("Apple".to_string());
    f.min_price = Some(100);
    let ps = product_predicates(&f);
    assert_eq!(ps.len(), 2);
    assert_eq!((ps[0].column, ps[0].op), (Column::Name, Op::Equals));
    assert!(matches!(&ps[0].value, Bind::Text(t) if t == "Apple"));
    assert_eq!((ps[1].column, ps[1].op), (Column::Tags, Op::HasElement));
    assert!(matches!(&ps[1].value, Bind::Text(t) if t == "fruit"));
}

#[test]
fn entry_predicates_bind_both_price_bounds() {
    let mut f = ProductFilter::new();
    f.notes = Some("Fresh batch".to_string());
    f.max_price = Some(1000);
    f.min_price = Some(600);
    f.product_id = Some(2);
    f.unit = Some(Unit::L);
    f.tag = Some("ignored".to_string());
    let ps = entry_predicates(&f);
    let shape: Vec<(Column, Op)> = ps.iter().map(|p| (p.column, p.op)).collect();
    assert_eq!(
        shape,
        vec![
            (Column::ProductId, Op::Equals),
            (Column::Price, Op::AtLeast),
            (Column::Price, Op::AtMost),
            (Column::Unit, Op::Equals),
            (Column::Notes, Op::Equals),
        ]
    );
    assert!(matches!(ps[1].value, Bind::Amount(600)));
    assert!(matches!(ps[2].value, Bind::Amount(1000)));
    assert!(matches!(ps[3].value, Bind::Unit(Unit::L)));
    assert_eq!(Column::ProductId.as_str(), "product_id");
}

#[test]
fn assignments_follow_field_order() {
    let mut u = ProductUpdate::new();
    u.tags = Some(vec!["a".to_string()]);
    u.name = Some("N".to_string());
    u.price = Some(5);
    let a = update_assignments(&u);
    let cols: Vec<Column> = a.iter().map(|x| x.column).collect();
    assert_eq!(cols, vec![Column::Name, Column::Price, Column::Tags]);
    assert!(matches!(&a[2].value, Bind::Texts(ts) if ts == &vec!["a".to_string()]));
}

#[test]
fn plan_checks_bounds_then_shop() {
    let mut u = ProductUpdate::new();
    u.price = Some(1_000_001);
    u.shop_id = Some(3);
    assert!(matches!(plan_product_update(&u, false), Err(Error::OutOfRange)));
    u.price = Some(1_000_000);
    assert!(matches!(plan_product_update(&u, false), Err(Error::Reference)));
    match plan_product_update(&u, true) {
        Ok(UpdatePlan::Apply(a)) => assert_eq!(a.len(), 2),
        _ => panic!("expected an update"),
    }
    assert!(matches!(plan_product_update(&ProductUpdate::new(), false), Ok(UpdatePlan::Nothing)));
}

#[test]
fn resolving_names_needs_exactly_one_id() {
    assert_eq!(resolve_unique(&vec![]), Err(Error::NotFound));
    assert_eq!(resolve_unique(&vec![7]), Ok(7));
    assert_eq!(resolve_unique(&vec![7, 8]), Err(Error::Conflict));
}
