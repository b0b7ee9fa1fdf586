use vstd::prelude::*;
use vstd::string::StrSliceExecFns;

verus! {

/// Identifier of a shop, a product or a product entry: the 128 bits of a UUID.
pub type Id = u128;

/// A money amount or a volume in fixed point, in hundredths (`1050` is `10.50`).
pub type Hundredths = i64;

/// A point in time, in whole seconds since 1970-01-01T00:00:00 (no time zone).
pub type Timestamp = i64;

/// Largest price or volume an update accepts: `10000.00`.
pub const MAX_AMOUNT: i64 = 1000000;

/// Unit in which a product entry's volume is measured.
#[derive(Debug, Clone, Copy, PartialEq, Eq, Structural)]
pub enum Unit {
    Ks,
    Kg,
    L,
}

impl Unit {
    /// The lowercase tag that stands for the unit on the wire and in storage.
    pub open spec fn spec_tag(self) -> Seq<char> {
        match self {
            Unit::Ks => seq!['k', 's'],
            Unit::Kg => seq!['k', 'g'],
            Unit::L => seq!['l'],
        }
    }

    pub fn as_str(&self) -> (r: &'static str)
        ensures
            r@ == self.spec_tag(),
    {
        proof {
            reveal_strlit("ks");
            reveal_strlit("kg");
            reveal_strlit("l");
        }
        match self {
            Unit::Ks => "ks",
            Unit::Kg => "kg",
            Unit::L => "l",
        }
    }

    /// The unit whose tag is exactly `s`, if any.
    pub fn from_tag(s: &str) -> (r: Option<Unit>)
        ensures
            r matches Some(u) ==> u.spec_tag() == s@,
            r is None ==> (forall|u: Unit| u.spec_tag() != s@),
    {
        let n = s.unicode_len();
        if n == 1 {
            if s.get_char(0) == 'l' {
                assert(s@ =~= Unit::L.spec_tag());
                return Some(Unit::L);
            }
        } else if n == 2 && s.get_char(0) == 'k' {
            let c = s.get_char(1);
            if c == 's' {
                assert(s@ =~= Unit::Ks.spec_tag());
                return Some(Unit::Ks);
            } else if c == 'g' {
                assert(s@ =~= Unit::Kg.spec_tag());
                return Some(Unit::Kg);
            }
        }
        assert forall|u: Unit| u.spec_tag() != s@ by {
            if u.spec_tag() == s@ {
                assert(s@.len() == u.spec_tag().len());
                assert(s@[0] == u.spec_tag()[0]);
                if n == 2 {
                    assert(s@[1] == u.spec_tag()[1]);
                }
            }
        }
        None
    }
}

/// Why an operation was refused.
#[derive(Debug, Clone, Copy, PartialEq, Eq, Structural)]
pub enum Error {
    /// A value lies outside the bounds an update accepts.
    OutOfRange,
    /// A value breaks a rule of the data model (negative volume, empty name).
    Validation,
    /// The value clashes with one already stored (shop name, ambiguous name).
    Conflict,
    /// No entity answers to the id or name given.
    NotFound,
    /// A shop or product id refers to nothing stored.
    Reference,
    /// The store refused the statement (duplicate id, unknown column).
    Store,
}

/// A shop; its name is unique among shops, ignoring case.
#[derive(Debug, Clone)]
pub struct Shop {
    pub id: Id,
    pub name: String,
    pub notes: Option<String>,
}

/// A catalog entry, independent of any price, shop or date.
#[derive(Debug, Clone)]
pub struct Product {
    pub id: Id,
    pub name: String,
    pub notes: Option<String>,
    pub tags: Option<Vec<String>>,
}

/// One priced observation of a product, possibly at a shop and on a date.
#[derive(Debug, Clone)]
pub struct ProductEntry {
    pub id: Id,
    pub product_id: Id,
    pub price: Hundredths,
    pub product_volume: Option<Hundredths>,
    pub unit: Unit,
    pub shop_id: Option<Id>,
    pub date: Option<Timestamp>,
    pub notes: Option<String>,
}

pub struct ShopView {
    pub id: Id,
    pub name: Seq<char>,
    pub notes: Option<Seq<char>>,
}

pub struct ProductView {
    pub id: Id,
    pub name: Seq<char>,
    pub notes: Option<Seq<char>>,
    pub tags: Option<Seq<Seq<char>>>,
}

pub struct EntryView {
    pub id: Id,
    pub product_id: Id,
    pub price: Hundredths,
    pub product_volume: Option<Hundredths>,
    pub unit: Unit,
    pub shop_id: Option<Id>,
    pub date: Option<Timestamp>,
    pub notes: Option<Seq<char>>,
}

impl View for Shop {
    type V = ShopView;

    open spec fn view(&self) -> ShopView {
        ShopView { id: self.id, name: self.name@, notes: self.notes.deep_view() }
    }
}

impl View for Product {
    type V = ProductView;

    open spec fn view(&self) -> ProductView {
        ProductView {
            id: self.id,
            name: self.name@,
            notes: self.notes.deep_view(),
            tags: self.tags.deep_view(),
        }
    }
}

impl View for ProductEntry {
    type V = EntryView;

    open spec fn view(&self) -> EntryView {
        EntryView {
            id: self.id,
            product_id: self.product_id,
            price: self.price,
            product_volume: self.product_volume,
            unit: self.unit,
            shop_id: self.shop_id,
            date: self.date,
            notes: self.notes.deep_view(),
        }
    }
}

/// Copies an optional text; the copy has the same characters.
pub fn copy_text(t: &Option<String>) -> (r: Option<String>)
    ensures
        r.deep_view() == t.deep_view(),
{
    match t {
        Some(s) => Some(s.clone()),
        None => None,
    }
}

/// Copies a list of texts; the copy holds the same texts in the same order.
pub fn copy_texts(v: &Vec<String>) -> (r: Vec<String>)
    ensures
        r.deep_view() == v.deep_view(),
{
    let mut r: Vec<String> = Vec::new();
    let mut i: usize = 0;
    while i < v.len()
        invariant
            i <= v.len(),
            r.deep_view() == v.deep_view().take(i as int),
        decreases v.len() - i,
    {
        let ghost before = r.deep_view();
        let s = v[i].clone();
        r.push(s);
        assert(r.deep_view() =~= before.push(v@[i as int]@));
        i = i + 1;
        assert(r.deep_view() =~= v.deep_view().take(i as int));
    }
    assert(v.deep_view().take(v.len() as int) =~= v.deep_view());
    r
}

impl Shop {
    pub fn copy(&self) -> (r: Shop)
        ensures
            r@ == self@,
    {
        Shop { id: self.id, name: self.name.clone(), notes: copy_text(&self.notes) }
    }
}

impl Product {
    pub fn copy(&self) -> (r: Product)
        ensures
            r@ == self@,
    {
        let tags = match &self.tags {
            Some(t) => Some(copy_texts(t)),
            None => None,
        };
        Product { id: self.id, name: self.name.clone(), notes: copy_text(&self.notes), tags }
    }
}

impl ProductEntry {
    pub fn copy(&self) -> (r: ProductEntry)
        ensures
            r@ == self@,
    {
        ProductEntry {
            id: self.id,
            product_id: self.product_id,
            price: self.price,
            product_volume: self.product_volume,
            unit: self.unit,
            shop_id: self.shop_id,
            date: self.date,
            notes: copy_text(&self.notes),
        }
    }
}

/// Checks the rule a new product must meet: its name is not empty (a name of
/// underscores has been emptied by sanitizing before it gets here).
pub fn validate_product(p: &Product) -> (r: Result<(), Error>)
    ensures
        p.name@.len() == 0 ==> r == Err::<(), Error>(Error::Validation),
        p.name@.len() > 0 ==> r is Ok,
{
    if p.name.as_str().unicode_len() == 0 {
        Err(Error::Validation)
    } else {
        Ok(())
    }
}

/// Checks the rule a new product entry must meet: its volume, when present, is
/// not negative.
pub fn validate_entry(e: &ProductEntry) -> (r: Result<(), Error>)
    ensures
        (e.product_volume matches Some(v) && v < 0) ==> r == Err::<(), Error>(Error::Validation),
        !(e.product_volume matches Some(v) && v < 0) ==> r is Ok,
{
    match e.product_volume {
        Some(v) => if v < 0 {
            Err(Error::Validation)
        } else {
            Ok(())
        },
        None => Ok(()),
    }
}

} // verus!
