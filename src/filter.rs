use vstd::prelude::*;
use crate::model::{EntryView, Hundredths, Id, ProductView, ShopView, Timestamp, Unit};

verus! {

/// Optional criteria on shops; an absent field puts no constraint.
pub struct ShopFilter {
    pub id: Option<Id>,
    pub name: Option<String>,
    pub notes: Option<String>,
}

/// Optional criteria on products and product entries; an absent field puts no
/// constraint. Product listings read `id`, `name`, `notes` and `tag`; entry
/// listings read every field but `name` and `tag`.
pub struct ProductFilter {
    pub id: Option<Id>,
    pub name: Option<String>,
    pub notes: Option<String>,
    pub tag: Option<String>,
    pub product_id: Option<Id>,
    pub min_price: Option<Hundredths>,
    pub max_price: Option<Hundredths>,
    pub product_volume: Option<Hundredths>,
    pub unit: Option<Unit>,
    pub shop_id: Option<Id>,
    pub date: Option<Timestamp>,
}

pub struct ShopFilterView {
    pub id: Option<Id>,
    pub name: Option<Seq<char>>,
    pub notes: Option<Seq<char>>,
}

pub struct ProductFilterView {
    pub id: Option<Id>,
    pub name: Option<Seq<char>>,
    pub notes: Option<Seq<char>>,
    pub tag: Option<Seq<char>>,
    pub product_id: Option<Id>,
    pub min_price: Option<Hundredths>,
    pub max_price: Option<Hundredths>,
    pub product_volume: Option<Hundredths>,
    pub unit: Option<Unit>,
    pub shop_id: Option<Id>,
    pub date: Option<Timestamp>,
}

impl View for ShopFilter {
    type V = ShopFilterView;

    open spec fn view(&self) -> ShopFilterView {
        ShopFilterView { id: self.id, name: self.name.deep_view(), notes: self.notes.deep_view() }
    }
}

impl View for ProductFilter {
    type V = ProductFilterView;

    open spec fn view(&self) -> ProductFilterView {
        ProductFilterView {
            id: self.id,
            name: self.name.deep_view(),
            notes: self.notes.deep_view(),
            tag: self.tag.deep_view(),
            product_id: self.product_id,
            min_price: self.min_price,
            max_price: self.max_price,
            product_volume: self.product_volume,
            unit: self.unit,
            shop_id: self.shop_id,
            date: self.date,
        }
    }
}

impl ShopFilterView {
    pub open spec fn is_empty(self) -> bool {
        self.id is None && self.name is None && self.notes is None
    }
}

impl ShopFilter {
    pub fn new() -> (r: ShopFilter)
        ensures
            r@.is_empty(),
    {
        ShopFilter { id: None, name: None, notes: None }
    }
}

impl ProductFilterView {
    pub open spec fn is_empty(self) -> bool {
        &&& self.id is None
        &&& self.name is None
        &&& self.notes is None
        &&& self.tag is None
        &&& self.product_id is None
        &&& self.min_price is None
        &&& self.max_price is None
        &&& self.product_volume is None
        &&& self.unit is None
        &&& self.shop_id is None
        &&& self.date is None
    }
}

impl ProductFilter {
    pub fn new() -> (r: ProductFilter)
        ensures
            r@.is_empty(),
    {
        ProductFilter {
            id: None,
            name: None,
            notes: None,
            tag: None,
            product_id: None,
            min_price: None,
            max_price: None,
            product_volume: None,
            unit: None,
            shop_id: None,
            date: None,
        }
    }
}

/// `want` puts no constraint when absent, else asks for that exact value.
pub open spec fn agrees<T>(want: Option<T>, have: Option<T>) -> bool {
    want matches Some(w) ==> have == Some(w)
}

pub open spec fn shop_matches(f: ShopFilterView, s: ShopView) -> bool {
    &&& agrees(f.id, Some(s.id))
    &&& agrees(f.name, Some(s.name))
    &&& agrees(f.notes, s.notes)
}

pub open spec fn product_matches(f: ProductFilterView, p: ProductView) -> bool {
    &&& agrees(f.id, Some(p.id))
    &&& agrees(f.name, Some(p.name))
    &&& agrees(f.notes, p.notes)
    &&& (f.tag matches Some(t) ==> (p.tags matches Some(ts) && ts.contains(t)))
}

pub open spec fn entry_matches(f: ProductFilterView, e: EntryView) -> bool {
    &&& agrees(f.id, Some(e.id))
    &&& agrees(f.product_id, Some(e.product_id))
    &&& agrees(f.shop_id, e.shop_id)
    &&& (f.min_price matches Some(m) ==> e.price >= m)
    &&& (f.max_price matches Some(m) ==> e.price <= m)
    &&& agrees(f.product_volume, e.product_volume)
    &&& agrees(f.unit, Some(e.unit))
    &&& agrees(f.date, e.date)
    &&& agrees(f.notes, e.notes)
}

/// A column of a stored table that a predicate or an assignment names.
#[derive(Debug, Clone, Copy, PartialEq, Eq, Structural)]
pub enum Column {
    Id,
    Name,
    Notes,
    Tags,
    ProductId,
    Price,
    ProductVolume,
    Unit,
    ShopId,
    Date,
}

impl Column {
    pub open spec fn spec_name(self) -> Seq<char> {
        match self {
            Column::Id => "id"@,
            Column::Name => "name"@,
            Column::Notes => "notes"@,
            Column::Tags => "tags"@,
            Column::ProductId => "product_id"@,
            Column::Price => "price"@,
            Column::ProductVolume => "product_volume"@,
            Column::Unit => "unit"@,
            Column::ShopId => "shop_id"@,
            Column::Date => "date"@,
        }
    }

    /// The column's name in the store's schema.
    pub fn as_str(&self) -> (r: &'static str)
        ensures
            r@ == self.spec_name(),
    {
        match self {
            Column::Id => "id",
            Column::Name => "name",
            Column::Notes => "notes",
            Column::Tags => "tags",
            Column::ProductId => "product_id",
            Column::Price => "price",
            Column::ProductVolume => "product_volume",
            Column::Unit => "unit",
            Column::ShopId => "shop_id",
            Column::Date => "date",
        }
    }
}

/// How a predicate compares a column with its bound value.
#[derive(Debug, Clone, Copy, PartialEq, Eq, Structural)]
pub enum Op {
    /// `column = value`
    Equals,
    /// `column >= value`
    AtLeast,
    /// `column <= value`
    AtMost,
    /// `value` is an element of the list held in `column`
    HasElement,
}

/// A value bound to a placeholder of a statement; it never enters the text.
#[derive(Debug, Clone)]
pub enum Bind {
    Id(Id),
    Text(String),
    Amount(Hundredths),
    Unit(Unit),
    Time(Timestamp),
    Texts(Vec<String>),
}

pub enum BindView {
    Id(Id),
    Text(Seq<char>),
    Amount(Hundredths),
    Unit(Unit),
    Time(Timestamp),
    Texts(Seq<Seq<char>>),
}

impl View for Bind {
    type V = BindView;

    open spec fn view(&self) -> BindView {
        match self {
            Bind::Id(v) => BindView::Id(*v),
            Bind::Text(t) => BindView::Text(t@),
            Bind::Amount(a) => BindView::Amount(*a),
            Bind::Unit(u) => BindView::Unit(*u),
            Bind::Time(t) => BindView::Time(*t),
            Bind::Texts(ts) => BindView::Texts(ts.deep_view()),
        }
    }
}

/// One clause of a WHERE: `column op placeholder`, with the placeholder's value.
#[derive(Debug, Clone)]
pub struct Predicate {
    pub column: Column,
    pub op: Op,
    pub value: Bind,
}

pub struct PredicateView {
    pub column: Column,
    pub op: Op,
    pub value: BindView,
}

impl View for Predicate {
    type V = PredicateView;

    open spec fn view(&self) -> PredicateView {
        PredicateView { column: self.column, op: self.op, value: self.value@ }
    }
}

pub open spec fn views_of(ps: Seq<Predicate>) -> Seq<PredicateView> {
    ps.map_values(|p: Predicate| p@)
}

pub open spec fn clause(column: Column, op: Op, value: BindView) -> Seq<PredicateView> {
    seq![PredicateView { column, op, value }]
}

pub open spec fn id_clause(column: Column, v: Option<Id>) -> Seq<PredicateView> {
    match v {
        Some(x) => clause(column, Op::Equals, BindView::Id(x)),
        None => seq![],
    }
}

pub open spec fn text_clause(column: Column, op: Op, v: Option<Seq<char>>) -> Seq<PredicateView> {
    match v {
        Some(x) => clause(column, op, BindView::Text(x)),
        None => seq![],
    }
}

pub open spec fn amount_clause(op: Op, column: Column, v: Option<Hundredths>) -> Seq<PredicateView> {
    match v {
        Some(x) => clause(column, op, BindView::Amount(x)),
        None => seq![],
    }
}

/// The predicates of a product listing: one per product field the filter sets,
/// in the order id, name, notes, tag.
pub open spec fn spec_product_predicates(f: ProductFilterView) -> Seq<PredicateView> {
    id_clause(Column::Id, f.id) + text_clause(Column::Name, Op::Equals, f.name) + text_clause(
        Column::Notes,
        Op::Equals,
        f.notes,
    ) + text_clause(Column::Tags, Op::HasElement, f.tag)
}

/// The predicates of a shop listing: one per field the filter sets, in the order
/// id, name, notes.
pub open spec fn spec_shop_predicates(f: ShopFilterView) -> Seq<PredicateView> {
    id_clause(Column::Id, f.id) + text_clause(Column::Name, Op::Equals, f.name) + text_clause(
        Column::Notes,
        Op::Equals,
        f.notes,
    )
}

/// The predicates of a product-entry listing: one per entry field the filter
/// sets, in the order id, product_id, shop_id, min_price, max_price,
/// product_volume, unit, date, notes.
pub open spec fn spec_entry_predicates(f: ProductFilterView) -> Seq<PredicateView> {
    id_clause(Column::Id, f.id) + id_clause(Column::ProductId, f.product_id) + id_clause(
        Column::ShopId,
        f.shop_id,
    ) + amount_clause(Op::AtLeast, Column::Price, f.min_price) + amount_clause(
        Op::AtMost,
        Column::Price,
        f.max_price,
    ) + amount_clause(Op::Equals, Column::ProductVolume, f.product_volume) + match f.unit {
        Some(u) => clause(Column::Unit, Op::Equals, BindView::Unit(u)),
        None => seq![],
    } + match f.date {
        Some(d) => clause(Column::Date, Op::Equals, BindView::Time(d)),
        None => seq![],
    } + text_clause(Column::Notes, Op::Equals, f.notes)
}

fn push_id(ps: &mut Vec<Predicate>, column: Column, v: Option<Id>)
    ensures
        views_of(final(ps)@) == views_of(old(ps)@) + id_clause(column, v),
{
    let ghost before = views_of(ps@);
    if let Some(x) = v {
        ps.push(Predicate { column, op: Op::Equals, value: Bind::Id(x) });
    }
    assert(views_of(ps@) =~= before + id_clause(column, v));
}

fn push_text(ps: &mut Vec<Predicate>, column: Column, op: Op, v: &Option<String>)
    ensures
        views_of(final(ps)@) == views_of(old(ps)@) + text_clause(column, op, v.deep_view()),
{
    let ghost before = views_of(ps@);
    if let Some(x) = v {
        ps.push(Predicate { column, op, value: Bind::Text(x.clone()) });
    }
    assert(views_of(ps@) =~= before + text_clause(column, op, v.deep_view()));
}

fn push_amount(ps: &mut Vec<Predicate>, op: Op, column: Column, v: Option<Hundredths>)
    ensures
        views_of(final(ps)@) == views_of(old(ps)@) + amount_clause(op, column, v),
{
    let ghost before = views_of(ps@);
    if let Some(x) = v {
        ps.push(Predicate { column, op, value: Bind::Amount(x) });
    }
    assert(views_of(ps@) =~= before + amount_clause(op, column, v));
}

/// Predicates that select the products `filter` asks for.
pub fn product_predicates(filter: &ProductFilter) -> (r: Vec<Predicate>)
    ensures
        views_of(r@) == spec_product_predicates(filter@),
{
    let mut ps: Vec<Predicate> = Vec::new();
    assert(views_of(ps@) =~= seq![]);
    push_id(&mut ps, Column::Id, filter.id);
    push_text(&mut ps, Column::Name, Op::Equals, &filter.name);
    push_text(&mut ps, Column::Notes, Op::Equals, &filter.notes);
    push_text(&mut ps, Column::Tags, Op::HasElement, &filter.tag);
    assert(spec_product_predicates(filter@) =~= seq![] + id_clause(Column::Id, filter.id)
        + text_clause(Column::Name, Op::Equals, filter@.name) + text_clause(
        Column::Notes,
        Op::Equals,
        filter@.notes,
    ) + text_clause(Column::Tags, Op::HasElement, filter@.tag));
    ps
}

/// Predicates that select the shops `filter` asks for.
pub fn shop_predicates(filter: &ShopFilter) -> (r: Vec<Predicate>)
    ensures
        views_of(r@) == spec_shop_predicates(filter@),
{
    let mut ps: Vec<Predicate> = Vec::new();
    assert(views_of(ps@) =~= seq![]);
    push_id(&mut ps, Column::Id, filter.id);
    push_text(&mut ps, Column::Name, Op::Equals, &filter.name);
    push_text(&mut ps, Column::Notes, Op::Equals, &filter.notes);
    assert(spec_shop_predicates(filter@) =~= seq![] + id_clause(Column::Id, filter.id)
        + text_clause(Column::Name, Op::Equals, filter@.name) + text_clause(
        Column::Notes,
        Op::Equals,
        filter@.notes,
    ));
    ps
}

/// Predicates that select the product entries `filter` asks for.
pub fn entry_predicates(filter: &ProductFilter) -> (r: Vec<Predicate>)
    ensures
        views_of(r@) == spec_entry_predicates(filter@),
{
    let mut ps: Vec<Predicate> = Vec::new();
    let ghost s0 = views_of(ps@);
    assert(s0 =~= seq![]);
    push_id(&mut ps, Column::Id, filter.id);
    push_id(&mut ps, Column::ProductId, filter.product_id);
    push_id(&mut ps, Column::ShopId, filter.shop_id);
    push_amount(&mut ps, Op::AtLeast, Column::Price, filter.min_price);
    push_amount(&mut ps, Op::AtMost, Column::Price, filter.max_price);
    push_amount(&mut ps, Op::Equals, Column::ProductVolume, filter.product_volume);
    let ghost s6 = views_of(ps@);
    if let Some(u) = filter.unit {
        ps.push(Predicate { column: Column::Unit, op: Op::Equals, value: Bind::Unit(u) });
    }
    let ghost s7 = views_of(ps@);
    if let Some(d) = filter.date {
        ps.push(Predicate { column: Column::Date, op: Op::Equals, value: Bind::Time(d) });
    }
    let ghost s8 = views_of(ps@);
    push_text(&mut ps, Column::Notes, Op::Equals, &filter.notes);
    proof {
        let f = filter@;
        let u_part = match f.unit {
            Some(u) => clause(Column::Unit, Op::Equals, BindView::Unit(u)),
            None => seq![],
        };
        let d_part = match f.date {
            Some(d) => clause(Column::Date, Op::Equals, BindView::Time(d)),
            None => seq![],
        };
        assert(s7 =~= s6 + u_part);
        assert(s8 =~= s7 + d_part);
        assert(spec_entry_predicates(f) =~= s0 + id_clause(Column::Id, f.id) + id_clause(
            Column::ProductId,
            f.product_id,
        ) + id_clause(Column::ShopId, f.shop_id) + amount_clause(
            Op::AtLeast,
            Column::Price,
            f.min_price,
        ) + amount_clause(Op::AtMost, Column::Price, f.max_price) + amount_clause(
            Op::Equals,
            Column::ProductVolume,
            f.product_volume,
        ) + u_part + d_part + text_clause(Column::Notes, Op::Equals, f.notes));
    }
    ps
}

} // verus!
