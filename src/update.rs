use vstd::prelude::*;
use crate::filter::{Bind, BindView, Column};
use crate::model::{copy_texts, Error, Hundredths, Id, Timestamp, Unit, MAX_AMOUNT};

verus! {

/// The fields a product update supplies; an absent field is left as it is.
pub struct ProductUpdate {
    pub name: Option<String>,
    pub price: Option<Hundredths>,
    pub product_volume: Option<Hundredths>,
    pub unit: Option<Unit>,
    pub shop_id: Option<Id>,
    pub date: Option<Timestamp>,
    pub notes: Option<String>,
    pub tags: Option<Vec<String>>,
}

pub struct ProductUpdateView {
    pub name: Option<Seq<char>>,
    pub price: Option<Hundredths>,
    pub product_volume: Option<Hundredths>,
    pub unit: Option<Unit>,
    pub shop_id: Option<Id>,
    pub date: Option<Timestamp>,
    pub notes: Option<Seq<char>>,
    pub tags: Option<Seq<Seq<char>>>,
}

impl View for ProductUpdate {
    type V = ProductUpdateView;

    open spec fn view(&self) -> ProductUpdateView {
        ProductUpdateView {
            name: self.name.deep_view(),
            price: self.price,
            product_volume: self.product_volume,
            unit: self.unit,
            shop_id: self.shop_id,
            date: self.date,
            notes: self.notes.deep_view(),
            tags: self.tags.deep_view(),
        }
    }
}

impl ProductUpdate {
    /// An update that supplies no field.
    pub fn new() -> (r: ProductUpdate)
        ensures
            r@.is_empty(),
    {
        ProductUpdate {
            name: None,
            price: None,
            product_volume: None,
            unit: None,
            shop_id: None,
            date: None,
            notes: None,
            tags: None,
        }
    }
}

impl ProductUpdateView {
    pub open spec fn is_empty(self) -> bool {
        &&& self.name is None
        &&& self.price is None
        &&& self.product_volume is None
        &&& self.unit is None
        &&& self.shop_id is None
        &&& self.date is None
        &&& self.notes is None
        &&& self.tags is None
    }

    /// Price and volume, where supplied, lie in `[0, MAX_AMOUNT]`.
    pub open spec fn in_bounds(self) -> bool {
        &&& amount_in_bounds(self.price)
        &&& amount_in_bounds(self.product_volume)
    }
}

pub open spec fn amount_in_bounds(a: Option<Hundredths>) -> bool {
    a matches Some(x) ==> 0 <= x <= MAX_AMOUNT
}

/// One `column = placeholder` of an UPDATE, with the placeholder's value.
#[derive(Debug, Clone)]
pub struct Assignment {
    pub column: Column,
    pub value: Bind,
}

pub struct AssignmentView {
    pub column: Column,
    pub value: BindView,
}

impl View for Assignment {
    type V = AssignmentView;

    open spec fn view(&self) -> AssignmentView {
        AssignmentView { column: self.column, value: self.value@ }
    }
}

pub open spec fn assignment_views(a: Seq<Assignment>) -> Seq<AssignmentView> {
    a.map_values(|x: Assignment| x@)
}

pub open spec fn set_one(column: Column, value: BindView) -> Seq<AssignmentView> {
    seq![AssignmentView { column, value }]
}

pub open spec fn set_text(column: Column, v: Option<Seq<char>>) -> Seq<AssignmentView> {
    match v {
        Some(x) => set_one(column, BindView::Text(x)),
        None => seq![],
    }
}

pub open spec fn set_amount(column: Column, v: Option<Hundredths>) -> Seq<AssignmentView> {
    match v {
        Some(x) => set_one(column, BindView::Amount(x)),
        None => seq![],
    }
}

/// The assignments of an update: one per supplied field, in the order name,
/// price, product_volume, unit, shop_id, date, notes, tags.
pub open spec fn spec_assignments(u: ProductUpdateView) -> Seq<AssignmentView> {
    set_text(Column::Name, u.name) + set_amount(Column::Price, u.price) + set_amount(
        Column::ProductVolume,
        u.product_volume,
    ) + match u.unit {
        Some(x) => set_one(Column::Unit, BindView::Unit(x)),
        None => seq![],
    } + match u.shop_id {
        Some(x) => set_one(Column::ShopId, BindView::Id(x)),
        None => seq![],
    } + match u.date {
        Some(x) => set_one(Column::Date, BindView::Time(x)),
        None => seq![],
    } + set_text(Column::Notes, u.notes) + match u.tags {
        Some(x) => set_one(Column::Tags, BindView::Texts(x)),
        None => seq![],
    }
}

fn push_assignment(a: &mut Vec<Assignment>, column: Column, value: Bind)
    ensures
        assignment_views(final(a)@) == assignment_views(old(a)@) + set_one(column, value@),
{
    a.push(Assignment { column, value });
    assert(assignment_views(final(a)@) =~= assignment_views(old(a)@) + set_one(column, value@));
}

/// The assignments that carry out `u`, one per supplied field.
pub fn update_assignments(u: &ProductUpdate) -> (r: Vec<Assignment>)
    ensures
        assignment_views(r@) == spec_assignments(u@),
{
    let mut a: Vec<Assignment> = Vec::new();
    let ghost v = u@;
    let ghost s0 = assignment_views(a@);
    if let Some(x) = &u.name {
        push_assignment(&mut a, Column::Name, Bind::Text(x.clone()));
    }
    let ghost s1 = assignment_views(a@);
    if let Some(x) = u.price {
        push_assignment(&mut a, Column::Price, Bind::Amount(x));
    }
    let ghost s2 = assignment_views(a@);
    if let Some(x) = u.product_volume {
        push_assignment(&mut a, Column::ProductVolume, Bind::Amount(x));
    }
    let ghost s3 = assignment_views(a@);
    if let Some(x) = u.unit {
        push_assignment(&mut a, Column::Unit, Bind::Unit(x));
    }
    let ghost s4 = assignment_views(a@);
    if let Some(x) = u.shop_id {
        push_assignment(&mut a, Column::ShopId, Bind::Id(x));
    }
    let ghost s5 = assignment_views(a@);
    if let Some(x) = u.date {
        push_assignment(&mut a, Column::Date, Bind::Time(x));
    }
    let ghost s6 = assignment_views(a@);
    if let Some(x) = &u.notes {
        push_assignment(&mut a, Column::Notes, Bind::Text(x.clone()));
    }
    let ghost s7 = assignment_views(a@);
    if let Some(x) = &u.tags {
        push_assignment(&mut a, Column::Tags, Bind::Texts(copy_texts(x)));
    }
    let ghost s8 = assignment_views(a@);
    proof {
        let set_name = set_text(Column::Name, v.name);
        let set_price = set_amount(Column::Price, v.price);
        let set_volume = set_amount(Column::ProductVolume, v.product_volume);
        let set_unit = match v.unit {
            Some(x) => set_one(Column::Unit, BindView::Unit(x)),
            None => seq![],
        };
        let set_shop = match v.shop_id {
            Some(x) => set_one(Column::ShopId, BindView::Id(x)),
            None => seq![],
        };
        let set_date = match v.date {
            Some(x) => set_one(Column::Date, BindView::Time(x)),
            None => seq![],
        };
        let set_notes = set_text(Column::Notes, v.notes);
        let set_tags = match v.tags {
            Some(x) => set_one(Column::Tags, BindView::Texts(x)),
            None => seq![],
        };
        assert(s0 =~= seq![]);
        assert(s1 =~= s0 + set_name);
        assert(s2 =~= s1 + set_price);
        assert(s3 =~= s2 + set_volume);
        assert(s4 =~= s3 + set_unit);
        assert(s5 =~= s4 + set_shop);
        assert(s6 =~= s5 + set_date);
        assert(s7 =~= s6 + set_notes);
        assert(s8 =~= s7 + set_tags);
        assert(spec_assignments(v) =~= s0 + set_name + set_price + set_volume + set_unit + set_shop + set_date + set_notes + set_tags);
    }
    a
}

/// What an update asks of the store once it has passed validation.
#[derive(Debug)]
pub enum UpdatePlan {
    /// No field was supplied: nothing reaches the store and no row changes.
    Nothing,
    /// One UPDATE of the product's row, setting these columns.
    Apply(Vec<Assignment>),
}

/// Whether an optional price or volume lies in `[0, MAX_AMOUNT]`.
pub fn amount_ok(a: Option<Hundredths>) -> (r: bool)
    ensures
        r == amount_in_bounds(a),
{
    match a {
        Some(x) => 0 <= x && x <= MAX_AMOUNT,
        None => true,
    }
}

/// Validates `u` and turns it into what the store must do. `shop_exists` is the
/// store's answer to whether a shop has the id `u.shop_id`; it is read only when
/// `u.shop_id` is supplied. Bounds are checked first, then the shop reference.
pub fn plan_product_update(u: &ProductUpdate, shop_exists: bool) -> (r: Result<UpdatePlan, Error>)
    ensures
        !u@.in_bounds() ==> r == Err::<UpdatePlan, Error>(Error::OutOfRange),
        u@.in_bounds() && u.shop_id is Some && !shop_exists ==> r == Err::<UpdatePlan, Error>(
            Error::Reference,
        ),
        u@.in_bounds() && (u.shop_id is None || shop_exists) ==> match r {
            Ok(UpdatePlan::Nothing) => u@.is_empty(),
            Ok(UpdatePlan::Apply(a)) => !u@.is_empty() && assignment_views(a@) == spec_assignments(
                u@,
            ),
            Err(_) => false,
        },
{
    if !amount_ok(u.price) || !amount_ok(u.product_volume) {
        return Err(Error::OutOfRange);
    }
    if u.shop_id.is_some() && !shop_exists {
        return Err(Error::Reference);
    }
    let a = update_assignments(u);
    if a.len() == 0 {
        assert(u@.is_empty()) by {
            assert(spec_assignments(u@).len() == 0);
        }
        Ok(UpdatePlan::Nothing)
    } else {
        Ok(UpdatePlan::Apply(a))
    }
}

} // verus!
