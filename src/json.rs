use vstd::prelude::*;
use vstd::string::StrSliceExecFns;

verus! {

broadcast use vstd::std_specs::vec::group_vec_axioms;

/// A JSON document as it arrives from a client, before typed decoding.
#[derive(Debug, PartialEq)]
pub enum JsonValue {
    Null,
    Bool(bool),
    /// A number, as the literal text that spelled it.
    Number(String),
    Str(String),
    Array(Vec<JsonValue>),
    /// The members of an object, in the order they were written.
    Object(Vec<Member>),
}

/// One `key: value` member of a JSON object.
#[derive(Debug, PartialEq)]
pub struct Member {
    pub key: String,
    pub value: JsonValue,
}

/// A placeholder: one or more underscores and nothing else.
pub open spec fn is_placeholder(s: Seq<char>) -> bool {
    s.len() > 0 && forall|i: int| 0 <= i < s.len() ==> s[i] == '_'
}

/// What a string becomes under sanitizing.
pub open spec fn sanitized_text(s: Seq<char>) -> Seq<char> {
    if is_placeholder(s) {
        Seq::empty()
    } else {
        s
    }
}

/// `b` is `a` with every placeholder string, at any depth, replaced by the
/// empty string; keys, numbers, booleans, nulls and the shape are kept.
pub open spec fn sanitized(a: JsonValue, b: JsonValue) -> bool
    decreases a,
{
    match a {
        JsonValue::Null => b is Null,
        JsonValue::Bool(x) => b == JsonValue::Bool(x),
        JsonValue::Number(n) => b matches JsonValue::Number(m) && m@ == n@,
        JsonValue::Str(s) => b matches JsonValue::Str(t) && t@ == sanitized_text(s@),
        JsonValue::Array(xs) => b matches JsonValue::Array(ys) && ys.len() == xs.len() && (
        forall|i: int|
            #![trigger ys@[i]]
            0 <= i < xs.len() ==> sanitized(xs@[i], ys@[i])),
        JsonValue::Object(ms) => b matches JsonValue::Object(ns) && ns.len() == ms.len() && (
        forall|i: int|
            #![trigger ns@[i]]
            0 <= i < ms.len() ==> ns@[i].key@ == ms@[i].key@ && sanitized(
                ms@[i].value,
                ns@[i].value,
            )),
    }
}

/// Whether `s` is a placeholder.
pub fn is_placeholder_text(s: &str) -> (r: bool)
    ensures
        r == is_placeholder(s@),
{
    let n = s.unicode_len();
    if n == 0 {
        return false;
    }
    let mut i: usize = 0;
    while i < n
        invariant
            n == s@.len(),
            i <= n,
            forall|j: int| 0 <= j < i ==> s@[j] == '_',
        decreases n - i,
    {
        if s.get_char(i) != '_' {
            return false;
        }
        i = i + 1;
    }
    true
}

/// Replaces every string of `value` that holds only underscores, at any depth,
/// with the empty string. The empty string stays as it is.
pub fn sanitize_underscores_to_empty(value: JsonValue) -> (r: JsonValue)
    ensures
        sanitized(value, r),
{
    sanitized_copy(&value)
}

fn sanitized_copy(value: &JsonValue) -> (r: JsonValue)
    ensures
        sanitized(*value, r),
    decreases value,
{
    match value {
        JsonValue::Null => JsonValue::Null,
        JsonValue::Bool(x) => JsonValue::Bool(*x),
        JsonValue::Number(n) => JsonValue::Number(n.clone()),
        JsonValue::Str(s) => {
            if is_placeholder_text(s.as_str()) {
                JsonValue::Str(String::new())
            } else {
                JsonValue::Str(s.clone())
            }
        },
        JsonValue::Array(xs) => {
            let mut ys: Vec<JsonValue> = Vec::new();
            let mut i: usize = 0;
            while i < xs.len()
                invariant
                    *value == JsonValue::Array(*xs),
                    i <= xs.len(),
                    ys.len() == i,
                    forall|j: int| 0 <= j < i ==> sanitized(#[trigger] xs@[j], ys@[j]),
                decreases xs.len() - i,
            {
                proof {
                    assert(decreases_to!(*value => (*value)->Array_0));
                    assert(decreases_to!(*xs => xs@));
                    assert(decreases_to!(xs@ => xs@[i as int]));
                }
                let y = sanitized_copy(&xs[i]);
                ys.push(y);
                i = i + 1;
            }
            JsonValue::Array(ys)
        },
        JsonValue::Object(ms) => {
            let mut ns: Vec<Member> = Vec::new();
            let mut i: usize = 0;
            while i < ms.len()
                invariant
                    *value == JsonValue::Object(*ms),
                    i <= ms.len(),
                    ns.len() == i,
                    forall|j: int|
                        0 <= j < i ==> (#[trigger] ns@[j]).key@ == ms@[j].key@ && sanitized(
                            ms@[j].value,
                            ns@[j].value,
                        ),
                decreases ms.len() - i,
            {
                proof {
                    assert(decreases_to!(*value => (*value)->Object_0));
                    assert(decreases_to!(*ms => ms@));
                    assert(decreases_to!(ms@ => ms@[i as int]));
                    assert(decreases_to!(ms@[i as int] => ms@[i as int].value));
                }
                let v = sanitized_copy(&ms[i].value);
                ns.push(Member { key: ms[i].key.clone(), value: v });
                i = i + 1;
            }
            JsonValue::Object(ns)
        },
    }
}

} // verus!
