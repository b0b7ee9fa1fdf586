use vstd::prelude::*;
use crate::filter::{
    agrees,
    product_matches, shop_matches, entry_matches, spec_entry_predicates, spec_product_predicates,
    spec_shop_predicates, Bind, BindView, Column, Op, Predicate, PredicateView, ProductFilterView,
    ShopFilterView,
};
use crate::model::{EntryView, Product, ProductEntry, ProductView, Shop, ShopView};

verus! {

/// Whether a predicate holds on a product row; a predicate on a column that the
/// products table lacks holds on no row.
pub open spec fn product_holds(p: PredicateView, r: ProductView) -> bool {
    match (p.column, p.op, p.value) {
        (Column::Id, Op::Equals, BindView::Id(v)) => r.id == v,
        (Column::Name, Op::Equals, BindView::Text(t)) => r.name == t,
        (Column::Notes, Op::Equals, BindView::Text(t)) => r.notes == Some(t),
        (Column::Tags, Op::HasElement, BindView::Text(t)) => r.tags matches Some(ts) && ts.contains(t),
        _ => false,
    }
}

/// Whether a predicate holds on a shop row.
pub open spec fn shop_holds(p: PredicateView, r: ShopView) -> bool {
    match (p.column, p.op, p.value) {
        (Column::Id, Op::Equals, BindView::Id(v)) => r.id == v,
        (Column::Name, Op::Equals, BindView::Text(t)) => r.name == t,
        (Column::Notes, Op::Equals, BindView::Text(t)) => r.notes == Some(t),
        _ => false,
    }
}

/// Whether a predicate holds on a product-entry row.
pub open spec fn entry_holds(p: PredicateView, r: EntryView) -> bool {
    match (p.column, p.op, p.value) {
        (Column::Id, Op::Equals, BindView::Id(v)) => r.id == v,
        (Column::ProductId, Op::Equals, BindView::Id(v)) => r.product_id == v,
        (Column::ShopId, Op::Equals, BindView::Id(v)) => r.shop_id == Some(v),
        (Column::Price, Op::AtLeast, BindView::Amount(a)) => r.price >= a,
        (Column::Price, Op::AtMost, BindView::Amount(a)) => r.price <= a,
        (Column::ProductVolume, Op::Equals, BindView::Amount(a)) => r.product_volume == Some(a),
        (Column::Unit, Op::Equals, BindView::Unit(u)) => r.unit == u,
        (Column::Date, Op::Equals, BindView::Time(d)) => r.date == Some(d),
        (Column::Notes, Op::Equals, BindView::Text(t)) => r.notes == Some(t),
        _ => false,
    }
}

pub open spec fn all_hold_product(ps: Seq<PredicateView>, r: ProductView) -> bool {
    forall|i: int| 0 <= i < ps.len() ==> product_holds(#[trigger] ps[i], r)
}

pub open spec fn all_hold_shop(ps: Seq<PredicateView>, r: ShopView) -> bool {
    forall|i: int| 0 <= i < ps.len() ==> shop_holds(#[trigger] ps[i], r)
}

pub open spec fn all_hold_entry(ps: Seq<PredicateView>, r: EntryView) -> bool {
    forall|i: int| 0 <= i < ps.len() ==> entry_holds(#[trigger] ps[i], r)
}

proof fn lemma_all_hold_concat_product(a: Seq<PredicateView>, b: Seq<PredicateView>, r: ProductView)
    ensures
        all_hold_product(a + b, r) == (all_hold_product(a, r) && all_hold_product(b, r)),
{
    if all_hold_product(a + b, r) {
        assert forall|i: int| 0 <= i < b.len() implies product_holds(b[i], r) by {
            assert((a + b)[a.len() + i] == b[i]);
        }
        assert forall|i: int| 0 <= i < a.len() implies product_holds(a[i], r) by {
            assert((a + b)[i] == a[i]);
        }
    }
}

proof fn lemma_all_hold_concat_shop(a: Seq<PredicateView>, b: Seq<PredicateView>, r: ShopView)
    ensures
        all_hold_shop(a + b, r) == (all_hold_shop(a, r) && all_hold_shop(b, r)),
{
    if all_hold_shop(a + b, r) {
        assert forall|i: int| 0 <= i < b.len() implies shop_holds(b[i], r) by {
            assert((a + b)[a.len() + i] == b[i]);
        }
        assert forall|i: int| 0 <= i < a.len() implies shop_holds(a[i], r) by {
            assert((a + b)[i] == a[i]);
        }
    }
}

proof fn lemma_all_hold_concat_entry(a: Seq<PredicateView>, b: Seq<PredicateView>, r: EntryView)
    ensures
        all_hold_entry(a + b, r) == (all_hold_entry(a, r) && all_hold_entry(b, r)),
{
    if all_hold_entry(a + b, r) {
        assert forall|i: int| 0 <= i < b.len() implies entry_holds(b[i], r) by {
            assert((a + b)[a.len() + i] == b[i]);
        }
        assert forall|i: int| 0 <= i < a.len() implies entry_holds(a[i], r) by {
            assert((a + b)[i] == a[i]);
        }
    }
}

/// The predicates built for a product filter hold on a product exactly when the
/// product matches the filter.
pub proof fn lemma_product_predicates_select(f: ProductFilterView, r: ProductView)
    ensures
        all_hold_product(spec_product_predicates(f), r) == product_matches(f, r),
{
    let ps = spec_product_predicates(f);
    let a = crate::filter::id_clause(Column::Id, f.id);
    let b = crate::filter::text_clause(Column::Name, Op::Equals, f.name);
    let c = crate::filter::text_clause(Column::Notes, Op::Equals, f.notes);
    let d = crate::filter::text_clause(Column::Tags, Op::HasElement, f.tag);
    lemma_all_hold_concat_product(a, b, r);
    lemma_all_hold_concat_product(a + b, c, r);
    lemma_all_hold_concat_product(a + b + c, d, r);
    if f.id is Some { assert(product_holds(a[0], r) == all_hold_product(a, r)); }
    if f.name is Some { assert(product_holds(b[0], r) == all_hold_product(b, r)); }
    if f.notes is Some { assert(product_holds(c[0], r) == all_hold_product(c, r)); }
    if f.tag is Some { assert(product_holds(d[0], r) == all_hold_product(d, r)); }
}

/// The predicates built for a shop filter hold on a shop exactly when the shop
/// matches the filter.
pub proof fn lemma_shop_predicates_select(f: ShopFilterView, r: ShopView)
    ensures
        all_hold_shop(spec_shop_predicates(f), r) == shop_matches(f, r),
{
    let a = crate::filter::id_clause(Column::Id, f.id);
    let b = crate::filter::text_clause(Column::Name, Op::Equals, f.name);
    let c = crate::filter::text_clause(Column::Notes, Op::Equals, f.notes);
    lemma_all_hold_concat_shop(a, b, r);
    lemma_all_hold_concat_shop(a + b, c, r);
    if f.id is Some { assert(shop_holds(a[0], r) == all_hold_shop(a, r)); }
    if f.name is Some { assert(shop_holds(b[0], r) == all_hold_shop(b, r)); }
    if f.notes is Some { assert(shop_holds(c[0], r) == all_hold_shop(c, r)); }
}

proof fn lemma_single_entry(p: Seq<PredicateView>, r: EntryView)
    requires
        p.len() <= 1,
    ensures
        all_hold_entry(p, r) == (p.len() == 1 ==> entry_holds(p[0], r)),
{
}

/// The predicates built for an entry filter hold on an entry exactly when the
/// entry matches the filter.
pub proof fn lemma_entry_predicates_select(f: ProductFilterView, r: EntryView)
    ensures
        all_hold_entry(spec_entry_predicates(f), r) == entry_matches(f, r),
{
    let by_id = crate::filter::id_clause(Column::Id, f.id);
    let by_product = crate::filter::id_clause(Column::ProductId, f.product_id);
    let by_shop = crate::filter::id_clause(Column::ShopId, f.shop_id);
    let by_min = crate::filter::amount_clause(Op::AtLeast, Column::Price, f.min_price);
    let by_max = crate::filter::amount_clause(Op::AtMost, Column::Price, f.max_price);
    let by_volume = crate::filter::amount_clause(Op::Equals, Column::ProductVolume, f.product_volume);
    let by_unit = match f.unit {
        Some(u) => crate::filter::clause(Column::Unit, Op::Equals, BindView::Unit(u)),
        None => seq![],
    };
    let by_date = match f.date {
        Some(d) => crate::filter::clause(Column::Date, Op::Equals, BindView::Time(d)),
        None => seq![],
    };
    let by_notes = crate::filter::text_clause(Column::Notes, Op::Equals, f.notes);
    let a2 = by_id + by_product;
    let a3 = a2 + by_shop;
    let a4 = a3 + by_min;
    let a5 = a4 + by_max;
    let a6 = a5 + by_volume;
    let a7 = a6 + by_unit;
    let a8 = a7 + by_date;
    let a9 = a8 + by_notes;
    assert(all_hold_entry(a2, r) == (agrees(f.id, Some(r.id)) && agrees(f.product_id, Some(r.product_id)))) by {
        lemma_all_hold_concat_entry(by_id, by_product, r);
        lemma_single_entry(by_id, r);
        lemma_single_entry(by_product, r);
    }
    assert(all_hold_entry(a3, r) == (all_hold_entry(a2, r) && agrees(f.shop_id, r.shop_id))) by {
        lemma_all_hold_concat_entry(a2, by_shop, r);
        lemma_single_entry(by_shop, r);
    }
    assert(all_hold_entry(a4, r) == (all_hold_entry(a3, r) && (f.min_price matches Some(m) ==> r.price >= m))) by {
        lemma_all_hold_concat_entry(a3, by_min, r);
        lemma_single_entry(by_min, r);
    }
    assert(all_hold_entry(a5, r) == (all_hold_entry(a4, r) && (f.max_price matches Some(m) ==> r.price <= m))) by {
        lemma_all_hold_concat_entry(a4, by_max, r);
        lemma_single_entry(by_max, r);
    }
    assert(all_hold_entry(a6, r) == (all_hold_entry(a5, r) && agrees(f.product_volume, r.product_volume))) by {
        lemma_all_hold_concat_entry(a5, by_volume, r);
        lemma_single_entry(by_volume, r);
    }
    assert(all_hold_entry(a7, r) == (all_hold_entry(a6, r) && agrees(f.unit, Some(r.unit)))) by {
        lemma_all_hold_concat_entry(a6, by_unit, r);
        lemma_single_entry(by_unit, r);
    }
    assert(all_hold_entry(a8, r) == (all_hold_entry(a7, r) && agrees(f.date, r.date))) by {
        lemma_all_hold_concat_entry(a7, by_date, r);
        lemma_single_entry(by_date, r);
    }
    assert(all_hold_entry(a9, r) == (all_hold_entry(a8, r) && agrees(f.notes, r.notes))) by {
        lemma_all_hold_concat_entry(a8, by_notes, r);
        lemma_single_entry(by_notes, r);
    }
    assert(spec_entry_predicates(f) == a9);
}

/// Whether a text equals the optional text of a row.
fn text_is(have: &Option<String>, want: &String) -> (r: bool)
    ensures
        r == (have.deep_view() == Some(want@)),
{
    match have {
        Some(h) => h.eq(want),
        None => false,
    }
}

/// Whether `want` is one of the texts of `list`.
pub fn texts_contain(list: &Vec<String>, want: &String) -> (r: bool)
    ensures
        r == list.deep_view().contains(want@),
{
    let mut i: usize = 0;
    while i < list.len()
        invariant
            i <= list.len(),
            forall|j: int| 0 <= j < i ==> list.deep_view()[j] != want@,
        decreases list.len() - i,
    {
        if list[i].eq(want) {
            assert(list.deep_view()[i as int] == want@);
            return true;
        }
        i = i + 1;
    }
    false
}

/// Whether `p` holds on the product row `row`.
pub fn product_holds_on(p: &Predicate, row: &Product) -> (r: bool)
    ensures
        r == product_holds(p@, row@),
{
    match (&p.column, &p.op, &p.value) {
        (Column::Id, Op::Equals, Bind::Id(v)) => row.id == *v,
        (Column::Name, Op::Equals, Bind::Text(t)) => row.name.eq(t),
        (Column::Notes, Op::Equals, Bind::Text(t)) => text_is(&row.notes, t),
        (Column::Tags, Op::HasElement, Bind::Text(t)) => match &row.tags {
            Some(ts) => texts_contain(ts, t),
            None => false,
        },
        _ => false,
    }
}

/// Whether `p` holds on the shop row `row`.
pub fn shop_holds_on(p: &Predicate, row: &Shop) -> (r: bool)
    ensures
        r == shop_holds(p@, row@),
{
    match (&p.column, &p.op, &p.value) {
        (Column::Id, Op::Equals, Bind::Id(v)) => row.id == *v,
        (Column::Name, Op::Equals, Bind::Text(t)) => row.name.eq(t),
        (Column::Notes, Op::Equals, Bind::Text(t)) => text_is(&row.notes, t),
        _ => false,
    }
}

/// Whether `p` holds on the product-entry row `row`.
pub fn entry_holds_on(p: &Predicate, row: &ProductEntry) -> (r: bool)
    ensures
        r == entry_holds(p@, row@),
{
    match (&p.column, &p.op, &p.value) {
        (Column::Id, Op::Equals, Bind::Id(v)) => row.id == *v,
        (Column::ProductId, Op::Equals, Bind::Id(v)) => row.product_id == *v,
        (Column::ShopId, Op::Equals, Bind::Id(v)) => row.shop_id == Some(*v),
        (Column::Price, Op::AtLeast, Bind::Amount(a)) => row.price >= *a,
        (Column::Price, Op::AtMost, Bind::Amount(a)) => row.price <= *a,
        (Column::ProductVolume, Op::Equals, Bind::Amount(a)) => row.product_volume == Some(*a),
        (Column::Unit, Op::Equals, Bind::Unit(u)) => row.unit == *u,
        (Column::Date, Op::Equals, Bind::Time(d)) => row.date == Some(*d),
        (Column::Notes, Op::Equals, Bind::Text(t)) => text_is(&row.notes, t),
        _ => false,
    }
}

} // verus!
