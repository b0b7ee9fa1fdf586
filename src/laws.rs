use vstd::prelude::*;
use crate::filter::{
    entry_matches, product_matches, shop_matches, ProductFilterView, ShopFilterView,
};
use crate::model::{EntryView, Error, Id, ProductView, ShopView};
use crate::names::same_name;
use crate::store::{update_outcome, updated_store, StoreView};
use crate::update::ProductUpdateView;

verus! {

proof fn lemma_filter_keeps_all<A>(s: Seq<A>, keep: spec_fn(A) -> bool)
    requires
        forall|i: int| 0 <= i < s.len() ==> keep(#[trigger] s[i]),
    ensures
        s.filter(keep) == s,
    decreases s.len(),
{
    reveal(Seq::filter);
    if s.len() > 0 {
        lemma_filter_keeps_all(s.drop_last(), keep);
        assert(s.drop_last().push(s.last()) =~= s);
    }
}

/// A filter that sets no field lists every product, every shop and every
/// product entry, as the unfiltered listings do.
pub proof fn law_empty_filter_lists_everything(s: StoreView, f: ProductFilterView, g: ShopFilterView)
    requires
        f.is_empty(),
        g.is_empty(),
    ensures
        s.products.filter(|p: ProductView| product_matches(f, p)) == s.products,
        s.shops.filter(|x: ShopView| shop_matches(g, x)) == s.shops,
        s.entries.filter(|e: EntryView| entry_matches(f, e)) == s.entries,
{
    lemma_filter_keeps_all(s.products, |p: ProductView| product_matches(f, p));
    lemma_filter_keeps_all(s.shops, |x: ShopView| shop_matches(g, x));
    lemma_filter_keeps_all(s.entries, |e: EntryView| entry_matches(f, e));
}

/// A product with a non-empty name and a fresh id is inserted, and a lookup by
/// its id then finds exactly the fields it was created with.
pub proof fn law_create_then_get(s: StoreView, p: ProductView)
    requires
        s.wf(),
        p.name.len() > 0,
        !s.has_product(p.id),
    ensures
        ({
            let after = StoreView { products: s.products.push(p), ..s };
            &&& after.wf()
            &&& after.has_product(p.id)
            &&& forall|i: int|
                0 <= i < after.products.len() && (#[trigger] after.products[i]).id == p.id
                    ==> after.products[i] == p
        }),
{
    let after = StoreView { products: s.products.push(p), ..s };
    assert(after.products[s.products.len() as int] == p);
    assert forall|i: int|
        0 <= i < after.products.len() && (#[trigger] after.products[i]).id == p.id implies after.products[i]
        == p by {
        if i < s.products.len() {
            assert(s.products[i] == after.products[i]);
        }
    }
}

/// An update that supplies no field returns 0 and changes nothing.
pub proof fn law_empty_update_changes_nothing(s: StoreView, id: Id, u: ProductUpdateView)
    requires
        u.is_empty(),
    ensures
        update_outcome(s, id, u) == Ok::<u64, Error>(0),
        updated_store(s, id, u) == s,
{
}

/// An update whose price or volume lies outside `[0, MAX_AMOUNT]` fails with
/// `OutOfRange` and changes nothing.
pub proof fn law_out_of_range_update_fails(s: StoreView, id: Id, u: ProductUpdateView)
    requires
        !u.in_bounds(),
    ensures
        update_outcome(s, id, u) == Err::<u64, Error>(Error::OutOfRange),
        updated_store(s, id, u) == s,
{
}

/// An update that names a shop id no shop has fails and changes nothing.
pub proof fn law_dangling_shop_update_fails(s: StoreView, id: Id, u: ProductUpdateView, sid: Id)
    requires
        u.shop_id == Some(sid),
        !s.has_shop(sid),
    ensures
        update_outcome(s, id, u) is Err,
        updated_store(s, id, u) == s,
{
}

/// An entry with a negative volume is refused with `Validation` and nothing is
/// inserted; one with volume zero whose product and shop exist and whose id is
/// fresh is inserted.
pub proof fn law_entry_volume_boundary(s: StoreView, e: EntryView, after: StoreView, r: Result<Id, Error>)
    requires
        s.add_entry_outcome(e, after, r),
    ensures
        e.product_volume matches Some(v) && v < 0 ==> r == Err::<Id, Error>(Error::Validation)
            && after == s,
        e.product_volume == Some(0i64) && s.has_product(e.product_id) && (e.shop_id matches Some(
            sid,
        ) ==> s.has_shop(sid)) && !s.has_entry(e.id) ==> r == Ok::<Id, Error>(e.id),
{
}

/// Once a shop is stored, a second shop whose name differs only in case finds
/// the name taken.
pub proof fn law_shop_names_ignore_case(s: StoreView, a: ShopView, b: ShopView)
    requires
        same_name(a.name, b.name),
    ensures
        (StoreView { shops: s.shops.push(a), ..s }).shop_name_taken(b.name),
{
    let after = StoreView { shops: s.shops.push(a), ..s };
    assert(after.shops[s.shops.len() as int] == a);
}

/// Filtering products by a tag keeps exactly those whose tag list holds it.
pub proof fn law_tag_filter_is_membership(f: ProductFilterView, p: ProductView, t: Seq<char>)
    requires
        f.tag == Some(t),
        f.id is None,
        f.name is None,
        f.notes is None,
    ensures
        product_matches(f, p) == (p.tags matches Some(ts) && ts.contains(t)),
{
}

/// Filtering entries by a minimum price alone keeps exactly those priced at
/// least that much.
pub proof fn law_min_price_filter(f: ProductFilterView, e: EntryView, m: i64)
    requires
        f.min_price == Some(m),
        f.id is None,
        f.product_id is None,
        f.shop_id is None,
        f.max_price is None,
        f.product_volume is None,
        f.unit is None,
        f.date is None,
        f.notes is None,
    ensures
        entry_matches(f, e) == (e.price >= m),
{
}

} // verus!
