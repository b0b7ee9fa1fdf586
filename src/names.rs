use vstd::prelude::*;
use crate::eval::texts_contain;
use crate::model::{Error, Id, Shop};

verus! {

/// The lowercase form of a text, as Unicode case mapping gives it.
pub uninterp spec fn lower_of(s: Seq<char>) -> Seq<char>;

/// Relies on `str::to_lowercase`: the lowercase form depends on the characters
/// alone.
#[verifier::external_body]
fn lowercase(s: &str) -> (r: String)
    ensures
        r@ == lower_of(s@),
{
    s.to_lowercase()
}

/// Two names are the same name when their lowercase forms are equal.
pub open spec fn same_name(a: Seq<char>, b: Seq<char>) -> bool {
    lower_of(a) == lower_of(b)
}

/// Whether some shop of `shops` has `name`, ignoring case.
pub fn shop_name_taken(shops: &Vec<Shop>, name: &str) -> (r: bool)
    ensures
        r == exists|i: int| 0 <= i < shops.len() && same_name(#[trigger] shops@[i].name@, name@),
{
    let mut folded: Vec<String> = Vec::new();
    let mut i: usize = 0;
    while i < shops.len()
        invariant
            i <= shops.len(),
            folded.len() == i,
            forall|j: int| 0 <= j < i ==> (#[trigger] folded@[j])@ == lower_of(shops@[j].name@),
        decreases shops.len() - i,
    {
        folded.push(lowercase(shops[i].name.as_str()));
        i = i + 1;
    }
    let wanted = lowercase(name);
    let r = texts_contain(&folded, &wanted);
    proof {
        if r {
            let k = choose|k: int| 0 <= k < folded.len() && folded.deep_view()[k] == wanted@;
            assert(same_name(shops@[k].name@, name@));
        } else {
            assert forall|k: int| 0 <= k < shops.len() implies !same_name(
                #[trigger] shops@[k].name@,
                name@,
            ) by {
                assert(folded.deep_view()[k] == folded@[k]@);
            }
        }
    }
    r
}

/// Picks the one id a name resolved to: none is `NotFound`, more than one is
/// `Conflict`.
pub fn resolve_unique(ids: &Vec<Id>) -> (r: Result<Id, Error>)
    ensures
        ids.len() == 0 ==> r == Err::<Id, Error>(Error::NotFound),
        ids.len() == 1 ==> r == Ok::<Id, Error>(ids@[0]),
        ids.len() > 1 ==> r == Err::<Id, Error>(Error::Conflict),
{
    if ids.len() == 0 {
        Err(Error::NotFound)
    } else if ids.len() == 1 {
        Ok(ids[0])
    } else {
        Err(Error::Conflict)
    }
}

} // verus!
