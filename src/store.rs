use vstd::prelude::*;
use crate::model::{
    copy_text, copy_texts, validate_entry, validate_product, EntryView, Error, Id, Product,
    ProductEntry, ProductView, Shop, ShopView,
};
use crate::names::{resolve_unique, same_name, shop_name_taken};
use crate::update::{plan_product_update, ProductUpdate, ProductUpdateView, UpdatePlan};
use crate::filter::{
    product_matches, product_predicates, shop_matches, shop_predicates, spec_product_predicates,
    spec_shop_predicates, views_of, ProductFilter, ShopFilter, entry_matches, entry_predicates,
    spec_entry_predicates,
};
use crate::eval::{
    all_hold_product, all_hold_shop, lemma_product_predicates_select, lemma_shop_predicates_select,
    product_holds, product_holds_on, shop_holds, shop_holds_on, all_hold_entry, entry_holds,
    entry_holds_on, lemma_entry_predicates_select,
};
use vstd::string::StrSliceExecFns;

verus! {

/// Some element of `ns` is `name`.
pub open spec fn occurs(ns: Seq<Seq<char>>, name: Seq<char>) -> bool {
    exists|i: int| 0 <= i < ns.len() && ns[i] == name
}

/// `name` is at index `i` of `ns` and nowhere else.
pub open spec fn occurs_only_at(ns: Seq<Seq<char>>, name: Seq<char>, i: int) -> bool {
    &&& 0 <= i < ns.len()
    &&& ns[i] == name
    &&& forall|j: int| 0 <= j < ns.len() && ns[j] == name ==> j == i
}

/// `name` is at two indices of `ns`.
pub open spec fn occurs_twice(ns: Seq<Seq<char>>, name: Seq<char>) -> bool {
    exists|i: int, j: int| 0 <= i < j < ns.len() && ns[i] == name && ns[j] == name
}

/// `p` with the name, notes and tags that `u` supplies.
pub open spec fn apply_update(p: ProductView, u: ProductUpdateView) -> ProductView {
    ProductView {
        id: p.id,
        name: match u.name {
            Some(n) => n,
            None => p.name,
        },
        notes: match u.notes {
            Some(n) => Some(n),
            None => p.notes,
        },
        tags: match u.tags {
            Some(t) => Some(t),
            None => p.tags,
        },
    }
}

/// `u` sets only columns the products table holds: name, notes and tags.
pub open spec fn sets_product_columns_only(u: ProductUpdateView) -> bool {
    &&& u.price is None
    &&& u.product_volume is None
    &&& u.unit is None
    &&& u.shop_id is None
    &&& u.date is None
}

/// What updating product `id` of `s` with `u` returns.
pub open spec fn update_outcome(s: StoreView, id: Id, u: ProductUpdateView) -> Result<u64, Error> {
    if !u.in_bounds() {
        Err(Error::OutOfRange)
    } else if u.shop_id matches Some(sid) && !s.has_shop(sid) {
        Err(Error::Reference)
    } else if u.is_empty() {
        Ok(0)
    } else if !sets_product_columns_only(u) {
        Err(Error::Store)
    } else if !s.has_product(id) {
        Ok(0)
    } else {
        Ok(1)
    }
}

/// The store after updating product `id` of `s` with `u`: the product's row
/// takes the supplied name, notes and tags when the update succeeds on a row,
/// and nothing changes otherwise.
pub open spec fn updated_store(s: StoreView, id: Id, u: ProductUpdateView) -> StoreView {
    if update_outcome(s, id, u) == Ok::<u64, Error>(1) {
        let i = choose|i: int| 0 <= i < s.products.len() && (#[trigger] s.products[i]).id == id;
        StoreView { products: s.products.update(i, apply_update(s.products[i], u)), ..s }
    } else {
        s
    }
}

/// An in-process store of shops, products and product entries, one table each.
/// Rows keep the order in which they were inserted. A row of one table may name
/// an id of another that has since been deleted: deletes do not cascade, and a
/// dangling shop id shows as an absent shop name when entries are listed.
pub struct Store {
    shops: Vec<Shop>,
    products: Vec<Product>,
    entries: Vec<ProductEntry>,
}

pub struct StoreView {
    pub shops: Seq<ShopView>,
    pub products: Seq<ProductView>,
    pub entries: Seq<EntryView>,
}

/// A product entry as a listing shows it, with the name of its shop.
#[derive(Debug)]
pub struct ListedEntry {
    pub entry: ProductEntry,
    pub shop_name: Option<String>,
}

impl View for Store {
    type V = StoreView;

    closed spec fn view(&self) -> StoreView {
        StoreView {
            shops: self.shops@.map_values(|s: Shop| s@),
            products: self.products@.map_values(|p: Product| p@),
            entries: self.entries@.map_values(|e: ProductEntry| e@),
        }
    }
}

impl StoreView {
    pub open spec fn has_shop(self, id: Id) -> bool {
        exists|i: int| 0 <= i < self.shops.len() && (#[trigger] self.shops[i]).id == id
    }

    pub open spec fn has_product(self, id: Id) -> bool {
        exists|i: int| 0 <= i < self.products.len() && (#[trigger] self.products[i]).id == id
    }

    pub open spec fn has_entry(self, id: Id) -> bool {
        exists|i: int| 0 <= i < self.entries.len() && (#[trigger] self.entries[i]).id == id
    }

    /// Some shop's name is `name`, ignoring case.
    pub open spec fn shop_name_taken(self, name: Seq<char>) -> bool {
        exists|i: int| 0 <= i < self.shops.len() && same_name((#[trigger] self.shops[i]).name, name)
    }

    /// The name shown for shop id `sid`: the name of the shop with that id, or
    /// none when `sid` is absent or names no shop.
    pub open spec fn display_name(self, sid: Option<Id>) -> Option<Seq<char>> {
        match sid {
            Some(s) => if self.has_shop(s) {
                Some(
                    self.shops[choose|i: int|
                        0 <= i < self.shops.len() && (#[trigger] self.shops[i]).id == s].name,
                )
            } else {
                None
            },
            None => None,
        }
    }

    pub open spec fn shop_names(self) -> Seq<Seq<char>> {
        self.shops.map_values(|s: ShopView| s.name)
    }

    pub open spec fn product_names(self) -> Seq<Seq<char>> {
        self.products.map_values(|p: ProductView| p.name)
    }

    /// Ids are unique in each table, and shop names are unique ignoring case.
    pub open spec fn wf(self) -> bool {
        &&& forall|i: int, j: int|
            0 <= i < j < self.shops.len() ==> (#[trigger] self.shops[i]).id
                != (#[trigger] self.shops[j]).id && !same_name(
                self.shops[i].name,
                self.shops[j].name,
            )
        &&& forall|i: int, j: int|
            0 <= i < j < self.products.len() ==> (#[trigger] self.products[i]).id
                != (#[trigger] self.products[j]).id
        &&& forall|i: int, j: int|
            0 <= i < j < self.entries.len() ==> (#[trigger] self.entries[i]).id
                != (#[trigger] self.entries[j]).id
    }

    /// What inserting entry `e` into `self` gives: `Validation` for a negative
    /// volume, `Reference` for a product or shop id that names nothing, `Store`
    /// for an id already used, else the entry appended and its id returned.
    pub open spec fn add_entry_outcome(
        self,
        e: EntryView,
        after: StoreView,
        r: Result<Id, Error>,
    ) -> bool {
        if e.product_volume matches Some(v) && v < 0 {
            r == Err::<Id, Error>(Error::Validation) && after == self
        } else if !self.has_product(e.product_id) {
            r == Err::<Id, Error>(Error::Reference) && after == self
        } else if e.shop_id matches Some(s) && !self.has_shop(s) {
            r == Err::<Id, Error>(Error::Reference) && after == self
        } else if self.has_entry(e.id) {
            r == Err::<Id, Error>(Error::Store) && after == self
        } else {
            r == Ok::<Id, Error>(e.id) && after == StoreView {
                entries: self.entries.push(e),
                ..self
            }
        }
    }
}

impl Store {
    pub open spec fn wf(&self) -> bool {
        self@.wf()
    }

    /// An empty store.
    pub fn new() -> (r: Store)
        ensures
            r.wf(),
            r@.shops.len() == 0,
            r@.products.len() == 0,
            r@.entries.len() == 0,
    {
        let r = Store { shops: Vec::new(), products: Vec::new(), entries: Vec::new() };
        assert(r@.shops =~= Seq::<ShopView>::empty());
        r
    }

    fn find_shop(&self, id: Id) -> (r: Option<usize>)
        ensures
            r matches Some(i) ==> i < self@.shops.len() && self@.shops[i as int].id == id,
            r is None ==> !self@.has_shop(id),
    {
        let mut i: usize = 0;
        while i < self.shops.len()
            invariant
                i <= self.shops.len(),
                forall|j: int| 0 <= j < i ==> self.shops@[j].id != id,
            decreases self.shops.len() - i,
        {
            if self.shops[i].id == id {
                return Some(i);
            }
            i = i + 1;
        }
        None
    }

    fn find_product(&self, id: Id) -> (r: Option<usize>)
        ensures
            r matches Some(i) ==> i < self@.products.len() && self@.products[i as int].id == id,
            r is None ==> !self@.has_product(id),
    {
        let mut i: usize = 0;
        while i < self.products.len()
            invariant
                i <= self.products.len(),
                forall|j: int| 0 <= j < i ==> self.products@[j].id != id,
            decreases self.products.len() - i,
        {
            if self.products[i].id == id {
                return Some(i);
            }
            i = i + 1;
        }
        None
    }

    fn find_entry(&self, id: Id) -> (r: Option<usize>)
        ensures
            r matches Some(i) ==> i < self@.entries.len() && self@.entries[i as int].id == id,
            r is None ==> !self@.has_entry(id),
    {
        let mut i: usize = 0;
        while i < self.entries.len()
            invariant
                i <= self.entries.len(),
                forall|j: int| 0 <= j < i ==> self.entries@[j].id != id,
            decreases self.entries.len() - i,
        {
            if self.entries[i].id == id {
                return Some(i);
            }
            i = i + 1;
        }
        None
    }

    /// Inserts a shop. A shop whose name equals `shop.name` ignoring case makes
    /// it fail with `Conflict`; an id already used, with `Store`.
    pub fn add_shop(&mut self, shop: Shop) -> (r: Result<Id, Error>)
        requires
            old(self).wf(),
        ensures
            final(self).wf(),
            old(self)@.shop_name_taken(shop.name@) ==> r == Err::<Id, Error>(Error::Conflict)
                && final(self)@ == old(self)@,
            !old(self)@.shop_name_taken(shop.name@) && old(self)@.has_shop(shop.id) ==> r == Err::<
                Id,
                Error,
            >(Error::Store) && final(self)@ == old(self)@,
            !old(self)@.shop_name_taken(shop.name@) && !old(self)@.has_shop(shop.id) ==> r == Ok::<
                Id,
                Error,
            >(shop.id) && final(self)@ == (StoreView {
                shops: old(self)@.shops.push(shop@),
                ..old(self)@
            }),
    {
        if shop_name_taken(&self.shops, shop.name.as_str()) {
            proof {
                let i = choose|i: int|
                    0 <= i < self.shops.len() && same_name(#[trigger] self.shops@[i].name@, shop.name@);
                assert(self@.shops[i] == self.shops@[i]@);
            }
            return Err(Error::Conflict);
        }
        assert(!self@.shop_name_taken(shop.name@)) by {
            assert forall|i: int| 0 <= i < self@.shops.len() implies !same_name(
                #[trigger] self@.shops[i].name,
                shop.name@,
            ) by {
                assert(self@.shops[i] == self.shops@[i]@);
            }
        }
        if self.find_shop(shop.id).is_some() {
            return Err(Error::Store);
        }
        let id = shop.id;
        let ghost before = self@;
        self.shops.push(shop);
        assert(self@.shops =~= before.shops.push(shop@));
        assert(self@.products =~= before.products);
        assert(self@.entries =~= before.entries);
        Ok(id)
    }

    /// Inserts a product. An empty name makes it fail with `Validation`; an id
    /// already used, with `Store`.
    pub fn add_product(&mut self, product: Product) -> (r: Result<Id, Error>)
        requires
            old(self).wf(),
        ensures
            final(self).wf(),
            product.name@.len() == 0 ==> r == Err::<Id, Error>(Error::Validation) && final(self)@
                == old(self)@,
            product.name@.len() > 0 && old(self)@.has_product(product.id) ==> r == Err::<Id, Error>(
                Error::Store,
            ) && final(self)@ == old(self)@,
            product.name@.len() > 0 && !old(self)@.has_product(product.id) ==> r == Ok::<Id, Error>(
                product.id,
            ) && final(self)@ == (StoreView {
                products: old(self)@.products.push(product@),
                ..old(self)@
            }),
    {
        if let Err(e) = validate_product(&product) {
            return Err(e);
        }
        if self.find_product(product.id).is_some() {
            return Err(Error::Store);
        }
        let id = product.id;
        let ghost before = self@;
        self.products.push(product);
        assert(self@.products =~= before.products.push(product@));
        assert(self@.shops =~= before.shops);
        assert(self@.entries =~= before.entries);
        Ok(id)
    }

    /// Inserts a product entry; see `StoreView::add_entry_outcome`.
    pub fn add_product_entry(&mut self, entry: ProductEntry) -> (r: Result<Id, Error>)
        requires
            old(self).wf(),
        ensures
            final(self).wf(),
            old(self)@.add_entry_outcome(entry@, final(self)@, r),
    {
        if let Err(e) = validate_entry(&entry) {
            return Err(e);
        }
        if self.find_product(entry.product_id).is_none() {
            return Err(Error::Reference);
        }
        if let Some(s) = entry.shop_id {
            if self.find_shop(s).is_none() {
                return Err(Error::Reference);
            }
        }
        if self.find_entry(entry.id).is_some() {
            return Err(Error::Store);
        }
        let id = entry.id;
        let ghost before = self@;
        self.entries.push(entry);
        assert(self@.entries =~= before.entries.push(entry@));
        assert(self@.shops =~= before.shops);
        assert(self@.products =~= before.products);
        Ok(id)
    }

    /// The product with id `id`, or `NotFound`.
    pub fn get_product(&self, id: Id) -> (r: Result<Product, Error>)
        requires
            self.wf(),
        ensures
            match r {
                Ok(p) => exists|i: int|
                    0 <= i < self@.products.len() && self@.products[i].id == id && p@
                        == #[trigger] self@.products[i],
                Err(e) => e == Error::NotFound && !self@.has_product(id),
            },
    {
        match self.find_product(id) {
            Some(i) => {
                let p = self.products[i].copy();
                assert(p@ == self@.products[i as int]);
                Ok(p)
            },
            None => Err(Error::NotFound),
        }
    }

    /// The shop with id `id`, if any.
    pub fn get_shop_by_id(&self, id: Id) -> (r: Option<Shop>)
        requires
            self.wf(),
        ensures
            r is None <==> !self@.has_shop(id),
            r matches Some(s) ==> exists|i: int|
                0 <= i < self@.shops.len() && self@.shops[i].id == id && s@ == #[trigger] self@.shops[i],
    {
        match self.find_shop(id) {
            Some(i) => {
                let s = self.shops[i].copy();
                assert(s@ == self@.shops[i as int]);
                Some(s)
            },
            None => None,
        }
    }

    /// Every product, in insertion order.
    pub fn get_products(&self) -> (r: Vec<Product>)
        ensures
            r@.map_values(|p: Product| p@) == self@.products,
    {
        let mut r: Vec<Product> = Vec::new();
        let mut i: usize = 0;
        while i < self.products.len()
            invariant
                i <= self.products.len(),
                r@.map_values(|p: Product| p@) == self@.products.take(i as int),
            decreases self.products.len() - i,
        {
            let ghost before = r@.map_values(|p: Product| p@);
            let p = self.products[i].copy();
            r.push(p);
            assert(r@.map_values(|p: Product| p@) =~= before.push(self@.products[i as int]));
            i = i + 1;
            assert(self@.products.take(i as int) =~= self@.products.take(i - 1).push(
                self@.products[i - 1],
            ));
        }
        assert(self@.products.take(i as int) =~= self@.products);
        r
    }

    /// The first product, in insertion order, named exactly `name`, if any.
    pub fn get_product_by_name(&self, name: &str) -> (r: Option<Product>)
        ensures
            r is None <==> forall|i: int| 0 <= i < self@.products.len() ==> (#[trigger] self@.products[i]).name != name@,
            r matches Some(p) ==> exists|i: int|
                0 <= i < self@.products.len() && p@ == #[trigger] self@.products[i]
                    && self@.products[i].name == name@ && forall|j: int| 0 <= j < i ==> self@.products[j].name != name@,
    {
        let mut i: usize = 0;
        while i < self.products.len()
            invariant
                i <= self.products.len(),
                forall|j: int| 0 <= j < i ==> self@.products[j].name != name@,
            decreases self.products.len() - i,
        {
            assert(self@.products[i as int] == self.products@[i as int]@);
            if text_equals(self.products[i].name.as_str(), name) {
                let p = self.products[i].copy();
                return Some(p);
            }
            i = i + 1;
        }
        None
    }

    /// The products that match `filter`, in insertion order. The predicates of
    /// `product_predicates` decide which rows are kept.
    pub fn get_products_filtered(&self, filter: &ProductFilter) -> (r: Vec<Product>)
        ensures
            r@.map_values(|p: Product| p@) == self@.products.filter(
                |p: ProductView| product_matches(filter@, p),
            ),
    {
        let preds = product_predicates(filter);
        let ghost keep = |p: ProductView| product_matches(filter@, p);
        let mut r: Vec<Product> = Vec::new();
        let mut i: usize = 0;
        while i < self.products.len()
            invariant
                i <= self.products.len(),
                views_of(preds@) == spec_product_predicates(filter@),
                keep == (|p: ProductView| product_matches(filter@, p)),
                r@.map_values(|p: Product| p@) == self@.products.take(i as int).filter(keep),
            decreases self.products.len() - i,
        {
            let ghost before = r@.map_values(|p: Product| p@);
            let row = &self.products[i];
            let mut all = true;
            let mut k: usize = 0;
            while k < preds.len()
                invariant
                    k <= preds.len(),
                    all == (forall|m: int| 0 <= m < k ==> product_holds(preds@[m]@, row@)),
                decreases preds.len() - k,
            {
                let h = product_holds_on(&preds[k], row);
                all = all && h;
                k = k + 1;
            }
            proof {
                lemma_product_predicates_select(filter@, row@);
                assert(all == all_hold_product(views_of(preds@), row@)) by {
                    if all {
                        assert forall|m: int| 0 <= m < views_of(preds@).len() implies product_holds(
                            #[trigger] views_of(preds@)[m],
                            row@,
                        ) by {
                            assert(views_of(preds@)[m] == preds@[m]@);
                        }
                    } else {
                        let m = choose|m: int| 0 <= m < preds.len() && !product_holds(preds@[m]@, row@);
                        assert(views_of(preds@)[m] == preds@[m]@);
                    }
                }
                assert(self@.products.take(i + 1) =~= self@.products.take(i as int).push(row@));
                self@.products.take(i as int).lemma_filter_push(row@, keep);
            }
            if all {
                r.push(row.copy());
                assert(r@.map_values(|p: Product| p@) =~= before.push(row@));
            }
            i = i + 1;
        }
        assert(self@.products.take(i as int) =~= self@.products);
        r
    }

    /// The shops that match `filter`, in insertion order.
    pub fn get_shops_filtered(&self, filter: &ShopFilter) -> (r: Vec<Shop>)
        ensures
            r@.map_values(|s: Shop| s@) == self@.shops.filter(|s: ShopView| shop_matches(filter@, s)),
    {
        let preds = shop_predicates(filter);
        let ghost keep = |s: ShopView| shop_matches(filter@, s);
        let mut r: Vec<Shop> = Vec::new();
        let mut i: usize = 0;
        while i < self.shops.len()
            invariant
                i <= self.shops.len(),
                views_of(preds@) == spec_shop_predicates(filter@),
                keep == (|s: ShopView| shop_matches(filter@, s)),
                r@.map_values(|s: Shop| s@) == self@.shops.take(i as int).filter(keep),
            decreases self.shops.len() - i,
        {
            let ghost before = r@.map_values(|s: Shop| s@);
            let row = &self.shops[i];
            let mut all = true;
            let mut k: usize = 0;
            while k < preds.len()
                invariant
                    k <= preds.len(),
                    all == (forall|m: int| 0 <= m < k ==> shop_holds(preds@[m]@, row@)),
                decreases preds.len() - k,
            {
                let h = shop_holds_on(&preds[k], row);
                all = all && h;
                k = k + 1;
            }
            proof {
                lemma_shop_predicates_select(filter@, row@);
                assert(all == all_hold_shop(views_of(preds@), row@)) by {
                    if all {
                        assert forall|m: int| 0 <= m < views_of(preds@).len() implies shop_holds(
                            #[trigger] views_of(preds@)[m],
                            row@,
                        ) by {
                            assert(views_of(preds@)[m] == preds@[m]@);
                        }
                    } else {
                        let m = choose|m: int| 0 <= m < preds.len() && !shop_holds(preds@[m]@, row@);
                        assert(views_of(preds@)[m] == preds@[m]@);
                    }
                }
                assert(self@.shops.take(i + 1) =~= self@.shops.take(i as int).push(row@));
                self@.shops.take(i as int).lemma_filter_push(row@, keep);
            }
            if all {
                r.push(row.copy());
                assert(r@.map_values(|s: Shop| s@) =~= before.push(row@));
            }
            i = i + 1;
        }
        assert(self@.shops.take(i as int) =~= self@.shops);
        r
    }

    /// The name shown for shop id `sid`: the shop's name while the shop exists.
    fn shop_name_for(&self, sid: Option<Id>) -> (r: Option<String>)
        requires
            self.wf(),
        ensures
            r.deep_view() == self@.display_name(sid),
    {
        match sid {
            Some(s) => match self.find_shop(s) {
                Some(i) => {
                    proof {
                        let j = choose|j: int| 0 <= j < self@.shops.len() && (#[trigger] self@.shops[j]).id == s;
                        assert(self@.shops[i as int].id == self@.shops[j].id);
                        if i < j {
                            assert(self@.shops[i as int].id != self@.shops[j].id);
                        } else if j < i {
                            assert(self@.shops[j].id != self@.shops[i as int].id);
                        }
                        assert(self@.shops[i as int] == self.shops@[i as int]@);
                    }
                    Some(self.shops[i].name.clone())
                },
                None => None,
            },
            None => None,
        }
    }

    /// The product entries that match `filter`, in insertion order, each with the
    /// name of its shop; a shop that no longer exists leaves the name absent.
    pub fn get_product_entries_filtered(&self, filter: &ProductFilter) -> (r: Vec<ListedEntry>)
        requires
            self.wf(),
        ensures
            r@.map_values(|x: ListedEntry| x.entry@) == self@.entries.filter(
                |e: EntryView| entry_matches(filter@, e),
            ),
            forall|k: int|
                0 <= k < r.len() ==> (#[trigger] r@[k]).shop_name.deep_view() == self@.display_name(
                    r@[k].entry.shop_id,
                ),
    {
        let preds = entry_predicates(filter);
        let ghost keep = |e: EntryView| entry_matches(filter@, e);
        let mut r: Vec<ListedEntry> = Vec::new();
        let mut i: usize = 0;
        while i < self.entries.len()
            invariant
                self.wf(),
                i <= self.entries.len(),
                views_of(preds@) == spec_entry_predicates(filter@),
                keep == (|e: EntryView| entry_matches(filter@, e)),
                r@.map_values(|x: ListedEntry| x.entry@) == self@.entries.take(i as int).filter(keep),
                forall|k: int|
                    0 <= k < r.len() ==> (#[trigger] r@[k]).shop_name.deep_view()
                        == self@.display_name(r@[k].entry.shop_id),
            decreases self.entries.len() - i,
        {
            let ghost before = r@.map_values(|x: ListedEntry| x.entry@);
            let row = &self.entries[i];
            let mut all = true;
            let mut k: usize = 0;
            while k < preds.len()
                invariant
                    k <= preds.len(),
                    all == (forall|m: int| 0 <= m < k ==> entry_holds(preds@[m]@, row@)),
                decreases preds.len() - k,
            {
                let h = entry_holds_on(&preds[k], row);
                all = all && h;
                k = k + 1;
            }
            proof {
                lemma_entry_predicates_select(filter@, row@);
                assert(all == all_hold_entry(views_of(preds@), row@)) by {
                    if all {
                        assert forall|m: int| 0 <= m < views_of(preds@).len() implies entry_holds(
                            #[trigger] views_of(preds@)[m],
                            row@,
                        ) by {
                            assert(views_of(preds@)[m] == preds@[m]@);
                        }
                    } else {
                        let m = choose|m: int| 0 <= m < preds.len() && !entry_holds(preds@[m]@, row@);
                        assert(views_of(preds@)[m] == preds@[m]@);
                    }
                }
                assert(self@.entries[i as int] == row@);
                assert(self@.entries.take(i + 1) =~= self@.entries.take(i as int).push(row@));
                self@.entries.take(i as int).lemma_filter_push(row@, keep);
            }
            if all {
                let name = self.shop_name_for(row.shop_id);
                r.push(ListedEntry { entry: row.copy(), shop_name: name });
                assert(r@.map_values(|x: ListedEntry| x.entry@) =~= before.push(row@));
            }
            i = i + 1;
        }
        assert(self@.entries.take(i as int) =~= self@.entries);
        r
    }

    /// The ids of the shops named exactly `name`, in insertion order.
    fn shop_ids_named(&self, name: &str) -> (r: Vec<Id>)
        ensures
            r.len() == 0 <==> !occurs(self@.shop_names(), name@),
            r.len() == 1 ==> exists|i: int|
                occurs_only_at(self@.shop_names(), name@, i) && r@[0] == #[trigger] self@.shops[i].id,
            r.len() > 1 ==> occurs_twice(self@.shop_names(), name@),
    {
        let ghost ns = self@.shop_names();
        let mut r: Vec<Id> = Vec::new();
        let ghost mut idx: Seq<int> = Seq::empty();
        let mut i: usize = 0;
        while i < self.shops.len()
            invariant
                ns == self@.shop_names(),
                ns.len() == self.shops.len(),
                i <= self.shops.len(),
                idx.len() == r.len(),
                forall|k: int|
                    0 <= k < idx.len() ==> 0 <= #[trigger] idx[k] < i && ns[idx[k]] == name@ && r@[k]
                        == self@.shops[idx[k]].id,
                forall|k: int, l: int| 0 <= k < l < idx.len() ==> idx[k] < idx[l],
                forall|j: int| 0 <= j < i && ns[j] == name@ ==> idx.contains(j),
            decreases self.shops.len() - i,
        {
            assert(ns[i as int] == self.shops@[i as int].name@);
            let ghost old_idx = idx;
            let hit = text_equals(self.shops[i].name.as_str(), name);
            if hit {
                r.push(self.shops[i].id);
                proof {
                    idx = idx.push(i as int);
                }
            }
            proof {
                assert forall|j: int| 0 <= j <= i && ns[j] == name@ implies idx.contains(j) by {
                    if j < i {
                        let k = choose|k: int| 0 <= k < old_idx.len() && old_idx[k] == j;
                        assert(idx[k] == j);
                    } else {
                        assert(idx[idx.len() - 1] == j);
                    }
                }
            }
            i = i + 1;
        }
        proof {
            if r.len() == 1 {
                assert(occurs_only_at(ns, name@, idx[0]));
            }
            if r.len() > 1 {
                assert(idx[0] < idx[1]);
            }
            if r.len() == 0 && occurs(ns, name@) {
                let j = choose|j: int| 0 <= j < ns.len() && ns[j] == name@;
                assert(idx.contains(j));
            }
        }
        r
    }

    /// The ids of the products named exactly `name`, in insertion order.
    fn product_ids_named(&self, name: &str) -> (r: Vec<Id>)
        ensures
            r.len() == 0 <==> !occurs(self@.product_names(), name@),
            r.len() == 1 ==> exists|i: int|
                occurs_only_at(self@.product_names(), name@, i) && r@[0] == #[trigger] self@.products[i].id,
            r.len() > 1 ==> occurs_twice(self@.product_names(), name@),
    {
        let ghost ns = self@.product_names();
        let mut r: Vec<Id> = Vec::new();
        let ghost mut idx: Seq<int> = Seq::empty();
        let mut i: usize = 0;
        while i < self.products.len()
            invariant
                ns == self@.product_names(),
                ns.len() == self.products.len(),
                i <= self.products.len(),
                idx.len() == r.len(),
                forall|k: int|
                    0 <= k < idx.len() ==> 0 <= #[trigger] idx[k] < i && ns[idx[k]] == name@ && r@[k]
                        == self@.products[idx[k]].id,
                forall|k: int, l: int| 0 <= k < l < idx.len() ==> idx[k] < idx[l],
                forall|j: int| 0 <= j < i && ns[j] == name@ ==> idx.contains(j),
            decreases self.products.len() - i,
        {
            assert(ns[i as int] == self.products@[i as int].name@);
            let ghost old_idx = idx;
            let hit = text_equals(self.products[i].name.as_str(), name);
            if hit {
                r.push(self.products[i].id);
                proof {
                    idx = idx.push(i as int);
                }
            }
            proof {
                assert forall|j: int| 0 <= j <= i && ns[j] == name@ implies idx.contains(j) by {
                    if j < i {
                        let k = choose|k: int| 0 <= k < old_idx.len() && old_idx[k] == j;
                        assert(idx[k] == j);
                    } else {
                        assert(idx[idx.len() - 1] == j);
                    }
                }
            }
            i = i + 1;
        }
        proof {
            if r.len() == 1 {
                assert(occurs_only_at(ns, name@, idx[0]));
            }
            if r.len() > 1 {
                assert(idx[0] < idx[1]);
            }
            if r.len() == 0 && occurs(ns, name@) {
                let j = choose|j: int| 0 <= j < ns.len() && ns[j] == name@;
                assert(idx.contains(j));
            }
        }
        r
    }

    /// Inserts a product entry named by its product's and its shop's names.
    /// Each name must match exactly one row: none is `NotFound`, several is
    /// `Conflict`. The shop is resolved first, then the product; the entry then
    /// takes their ids and is inserted as by `add_product_entry`.
    pub fn add_product_entry_by_names(
        &mut self,
        product_name: &str,
        shop_name: &str,
        entry: ProductEntry,
    ) -> (r: Result<Id, Error>)
        requires
            old(self).wf(),
        ensures
            final(self).wf(),
            !occurs(old(self)@.shop_names(), shop_name@) ==> r == Err::<Id, Error>(Error::NotFound)
                && final(self)@ == old(self)@,
            occurs_twice(old(self)@.shop_names(), shop_name@) ==> r == Err::<Id, Error>(
                Error::Conflict,
            ) && final(self)@ == old(self)@,
            forall|i: int|
                #[trigger] occurs_only_at(old(self)@.shop_names(), shop_name@, i) ==> {
                    &&& !occurs(old(self)@.product_names(), product_name@) ==> r == Err::<Id, Error>(
                        Error::NotFound,
                    ) && final(self)@ == old(self)@
                    &&& occurs_twice(old(self)@.product_names(), product_name@) ==> r == Err::<
                        Id,
                        Error,
                    >(Error::Conflict) && final(self)@ == old(self)@
                    &&& forall|j: int|
                        #[trigger] occurs_only_at(old(self)@.product_names(), product_name@, j)
                            ==> old(self)@.add_entry_outcome(
                            EntryView {
                                product_id: old(self)@.products[j].id,
                                shop_id: Some(old(self)@.shops[i].id),
                                ..entry@
                            },
                            final(self)@,
                            r,
                        )
                },
    {
        let ghost ns = self@.shop_names();
        let ghost ps = self@.product_names();
        let sids = self.shop_ids_named(shop_name);
        proof {
            if sids.len() == 1 {
                assert(!occurs_twice(ns, shop_name@));
            }
            if sids.len() > 1 {
                assert forall|i: int| !occurs_only_at(ns, shop_name@, i) by {}
            }
        }
        let sid = match resolve_unique(&sids) {
            Ok(s) => s,
            Err(e) => return Err(e),
        };
        let pids = self.product_ids_named(product_name);
        proof {
            if pids.len() == 1 {
                assert(!occurs_twice(ps, product_name@));
            }
            if pids.len() > 1 {
                assert forall|j: int| !occurs_only_at(ps, product_name@, j) by {}
            }
        }
        let pid = match resolve_unique(&pids) {
            Ok(p) => p,
            Err(e) => return Err(e),
        };
        let e = ProductEntry {
            id: entry.id,
            product_id: pid,
            price: entry.price,
            product_volume: entry.product_volume,
            unit: entry.unit,
            shop_id: Some(sid),
            date: entry.date,
            notes: entry.notes,
        };
        self.add_product_entry(e)
    }

    /// Applies `u` to the product with id `id` and returns how many rows
    /// changed. Validation comes first and refuses the whole update:
    /// `OutOfRange` for a price or volume outside `[0, MAX_AMOUNT]`, then
    /// `Reference` for a shop id that names no shop. An update that supplies no
    /// field changes nothing and returns 0. The products table holds name,
    /// notes and tags only: an update that also sets price, volume, unit, shop
    /// or date is refused with `Store`. Otherwise 0 when no product has the id,
    /// else 1.
    pub fn update_product(&mut self, id: Id, u: &ProductUpdate) -> (r: Result<u64, Error>)
        requires
            old(self).wf(),
        ensures
            final(self).wf(),
            final(self)@ == updated_store(old(self)@, id, u@),
            r == update_outcome(old(self)@, id, u@),
    {
        let shop_exists = match u.shop_id {
            Some(s) => self.find_shop(s).is_some(),
            None => false,
        };
        match plan_product_update(u, shop_exists) {
            Err(e) => Err(e),
            Ok(UpdatePlan::Nothing) => Ok(0),
            Ok(UpdatePlan::Apply(_)) => {
                if u.price.is_some() || u.product_volume.is_some() || u.unit.is_some()
                    || u.shop_id.is_some() || u.date.is_some() {
                    return Err(Error::Store);
                }
                match self.find_product(id) {
                    None => Ok(0),
                    Some(i) => {
                        let old_p = &self.products[i];
                        let name = match &u.name {
                            Some(n) => n.clone(),
                            None => old_p.name.clone(),
                        };
                        let notes = match &u.notes {
                            Some(n) => Some(n.clone()),
                            None => copy_text(&old_p.notes),
                        };
                        let tags = match &u.tags {
                            Some(t) => Some(copy_texts(t)),
                            None => match &old_p.tags {
                                Some(t) => Some(copy_texts(t)),
                                None => None,
                            },
                        };
                        let p = Product { id: old_p.id, name, notes, tags };
                        let ghost before = self@;
                        assert(p@ == apply_update(before.products[i as int], u@));
                        proof {
                            let j = choose|j: int|
                                0 <= j < before.products.len() && (#[trigger] before.products[j]).id == id;
                            if i < j {
                                assert(before.products[i as int].id != before.products[j].id);
                            } else if j < i {
                                assert(before.products[j].id != before.products[i as int].id);
                            }
                        }
                        self.products[i] = p;
                        assert(self@.products =~= before.products.update(i as int, p@));
                        assert(self@.shops =~= before.shops);
                        assert(self@.entries =~= before.entries);
                        Ok(1)
                    },
                }
            },
        }
    }

    /// Deletes the product with id `id`; returns 1 if there was one, else 0.
    /// Entries that name the product are kept.
    pub fn delete_product(&mut self, id: Id) -> (r: u64)
        requires
            old(self).wf(),
        ensures
            final(self).wf(),
            r == (if old(self)@.has_product(id) { 1u64 } else { 0u64 }),
            r == 0 ==> final(self)@ == old(self)@,
            r == 1 ==> exists|i: int|
                0 <= i < old(self)@.products.len() && (#[trigger] old(self)@.products[i]).id == id
                    && final(self)@ == (StoreView {
                    products: old(self)@.products.remove(i),
                    ..old(self)@
                }),
    {
        match self.find_product(id) {
            None => 0,
            Some(i) => {
                let ghost before = self@;
                self.products.remove(i);
                assert(self@.products =~= before.products.remove(i as int));
                assert(self@.shops =~= before.shops);
                assert(self@.entries =~= before.entries);
                1
            },
        }
    }

    /// Deletes the shop with id `id`; returns 1 if there was one, else 0.
    /// Entries that name the shop are kept.
    pub fn delete_shop(&mut self, id: Id) -> (r: u64)
        requires
            old(self).wf(),
        ensures
            final(self).wf(),
            r == (if old(self)@.has_shop(id) { 1u64 } else { 0u64 }),
            r == 0 ==> final(self)@ == old(self)@,
            r == 1 ==> exists|i: int|
                0 <= i < old(self)@.shops.len() && (#[trigger] old(self)@.shops[i]).id == id
                    && final(self)@ == (StoreView { shops: old(self)@.shops.remove(i), ..old(self)@ }),
    {
        match self.find_shop(id) {
            None => 0,
            Some(i) => {
                let ghost before = self@;
                self.shops.remove(i);
                assert(self@.shops =~= before.shops.remove(i as int));
                assert(self@.products =~= before.products);
                assert(self@.entries =~= before.entries);
                1
            },
        }
    }

    /// Deletes the product entry with id `id`; returns 1 if there was one, else 0.
    pub fn delete_product_entry(&mut self, id: Id) -> (r: u64)
        requires
            old(self).wf(),
        ensures
            final(self).wf(),
            r == (if old(self)@.has_entry(id) { 1u64 } else { 0u64 }),
            r == 0 ==> final(self)@ == old(self)@,
            r == 1 ==> exists|i: int|
                0 <= i < old(self)@.entries.len() && (#[trigger] old(self)@.entries[i]).id == id
                    && final(self)@ == (StoreView {
                    entries: old(self)@.entries.remove(i),
                    ..old(self)@
                }),
    {
        match self.find_entry(id) {
            None => 0,
            Some(i) => {
                let ghost before = self@;
                self.entries.remove(i);
                assert(self@.entries =~= before.entries.remove(i as int));
                assert(self@.shops =~= before.shops);
                assert(self@.products =~= before.products);
                1
            },
        }
    }
}

/// Whether two texts have the same characters.
pub fn text_equals(a: &str, b: &str) -> (r: bool)
    ensures
        r == (a@ == b@),
{
    let n = a.unicode_len();
    if n != b.unicode_len() {
        return false;
    }
    let mut i: usize = 0;
    while i < n
        invariant
            n == a@.len() == b@.len(),
            i <= n,
            forall|j: int| 0 <= j < i ==> a@[j] == b@[j],
        decreases n - i,
    {
        if a.get_char(i) != b.get_char(i) {
            return false;
        }
        i = i + 1;
    }
    assert(a@ =~= b@);
    true
}

} // verus!
