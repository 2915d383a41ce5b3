//! Looking up one member of a JSON object.
//!
//! `serde_json` parses the document; what a member holds comes back as a
//! plain value of the library, `JsonMember`, which the callers read the
//! way a typed `Deserialize` would: a string, an unsigned integer, or a
//! list of strings, with an absent or `null` member as "not given".

use vstd::prelude::*;

use crate::text::{opt_view, strings_view};

verus! {

/// One member of a JSON object, as far as this library reads it.
#[derive(Debug)]
pub enum JsonMember {
    /// The object has no member of that name.
    Absent,
    /// The member is `null`.
    Null,
    /// The member is a string.
    Text(String),
    /// The member is a number: its value when it is an unsigned integer
    /// that fits in `u64`, else `None`.
    Number(Option<u64>),
    /// The member is an array: each element's text when it is a string.
    List(Vec<Option<String>>),
    /// The member is a boolean or an object.
    Other,
}

/// `JsonMember` with its strings taken as characters.
pub enum MemberValue {
    Absent,
    Null,
    Text(Seq<char>),
    Number(Option<u64>),
    List(Seq<Option<Seq<char>>>),
    Other,
}

pub open spec fn opt_texts_view(v: Seq<Option<String>>) -> Seq<Option<Seq<char>>> {
    v.map_values(|o: Option<String>| opt_view(o))
}

impl JsonMember {
    pub open spec fn value(&self) -> MemberValue {
        match self {
            JsonMember::Absent => MemberValue::Absent,
            JsonMember::Null => MemberValue::Null,
            JsonMember::Text(s) => MemberValue::Text(s@),
            JsonMember::Number(n) => MemberValue::Number(*n),
            JsonMember::List(v) => MemberValue::List(opt_texts_view(v@)),
            JsonMember::Other => MemberValue::Other,
        }
    }
}

pub open spec fn opt_member_value(m: Option<JsonMember>) -> Option<MemberValue> {
    match m {
        Some(v) => Some(v.value()),
        None => None,
    }
}

/// What `serde_json` finds under `key` in the JSON document `doc`: `None`
/// when `doc` is not valid JSON. A document that is not an object has no
/// members.
pub uninterp spec fn parsed_member(doc: Seq<char>, key: Seq<char>) -> Option<MemberValue>;

/// `serde_json::from_str::<serde_json::Value>(doc)` and `Value::get(key)`,
/// the member read back by its variant (`Number::as_u64` for a number,
/// `Value::as_str` for each element of an array). Claimed: the result is
/// `parsed_member(doc, key)`.
#[verifier::external_body]
pub(crate) fn json_member(doc: &str, key: &str) -> (r: Option<JsonMember>)
    ensures
        opt_member_value(r) == parsed_member(doc@, key@),
{
    let v = serde_json::from_str::<serde_json::Value>(doc).ok()?;
    Some(
        match v.get(key) {
            None => JsonMember::Absent,
            Some(serde_json::Value::Null) => JsonMember::Null,
            Some(serde_json::Value::String(s)) => JsonMember::Text(s.clone()),
            Some(serde_json::Value::Number(n)) => JsonMember::Number(n.as_u64()),
            Some(serde_json::Value::Array(a)) => JsonMember::List(
                a.iter().map(|x| x.as_str().map(String::from)).collect(),
            ),
            Some(_) => JsonMember::Other,
        },
    )
}

/// An optional string member (`Option<String>` with a default): absent or
/// `null` gives `Some(None)`, a string gives its text; anything else (and
/// a document that does not parse) gives `None`.
pub open spec fn opt_text_member(m: Option<MemberValue>) -> Option<Option<Seq<char>>> {
    match m {
        Some(MemberValue::Absent) => Some(None),
        Some(MemberValue::Null) => Some(None),
        Some(MemberValue::Text(t)) => Some(Some(t)),
        _ => None,
    }
}

/// A required string member.
pub open spec fn text_member(m: Option<MemberValue>) -> Option<Seq<char>> {
    match m {
        Some(MemberValue::Text(t)) => Some(t),
        _ => None,
    }
}

/// A required unsigned integer member.
pub open spec fn u64_member(m: Option<MemberValue>) -> Option<u64> {
    match m {
        Some(MemberValue::Number(Some(n))) => Some(n),
        _ => None,
    }
}

/// An optional unsigned integer member.
pub open spec fn opt_u64_member(m: Option<MemberValue>) -> Option<Option<u64>> {
    match m {
        Some(MemberValue::Absent) => Some(None),
        Some(MemberValue::Null) => Some(None),
        Some(MemberValue::Number(Some(n))) => Some(Some(n)),
        _ => None,
    }
}

/// Every element of a list is a string.
pub open spec fn all_texts(l: Seq<Option<Seq<char>>>) -> bool {
    forall|i: int| 0 <= i < l.len() ==> l[i] is Some
}

/// The strings of a list whose elements all are strings.
pub open spec fn unwrap_texts(l: Seq<Option<Seq<char>>>) -> Seq<Seq<char>> {
    l.map_values(|o: Option<Seq<char>>| o->0)
}

/// A required list-of-strings member.
pub open spec fn texts_member(m: Option<MemberValue>) -> Option<Seq<Seq<char>>> {
    match m {
        Some(MemberValue::List(l)) => if all_texts(l) {
            Some(unwrap_texts(l))
        } else {
            None
        },
        _ => None,
    }
}

/// An optional list-of-strings member.
pub open spec fn opt_texts_member(m: Option<MemberValue>) -> Option<Option<Seq<Seq<char>>>> {
    match m {
        Some(MemberValue::Absent) => Some(None),
        Some(MemberValue::Null) => Some(None),
        Some(MemberValue::List(l)) => if all_texts(l) {
            Some(Some(unwrap_texts(l)))
        } else {
            None
        },
        _ => None,
    }
}

/// The strings of a list member whose elements all are strings, else
/// `None`.
pub fn member_texts(list: Vec<Option<String>>) -> (r: Option<Vec<String>>)
    ensures
        match r {
            Some(v) => all_texts(opt_texts_view(list@)) && strings_view(v@) == unwrap_texts(
                opt_texts_view(list@),
            ),
            None => !all_texts(opt_texts_view(list@)),
        },
{
    let mut out: Vec<String> = Vec::new();
    let n = list.len();
    let mut i: usize = 0;
    while i < n
        invariant
            n == list.len(),
            i <= n,
            out.len() == i,
            forall|j: int| 0 <= j < i ==> (#[trigger] opt_texts_view(list@)[j]) is Some,
            forall|j: int| 0 <= j < i ==> #[trigger] out@[j]@ == opt_texts_view(list@)[j]->0,
        decreases n - i,
    {
        match &list[i] {
            Some(s) => {
                out.push(s.clone());
            },
            None => {
                assert(opt_texts_view(list@)[i as int] is None);
                return None;
            },
        }
        i = i + 1;
    }
    assert(strings_view(out@) =~= unwrap_texts(opt_texts_view(list@)));
    Some(out)
}

pub open spec fn opt_opt_view(o: Option<Option<String>>) -> Option<Option<Seq<char>>> {
    match o {
        Some(t) => Some(opt_view(t)),
        None => None,
    }
}

/// An optional string member, read as `opt_text_member` says.
pub fn opt_text_value(m: Option<JsonMember>) -> (r: Option<Option<String>>)
    ensures
        opt_opt_view(r) == opt_text_member(opt_member_value(m)),
{
    match m {
        Some(JsonMember::Absent) => Some(None),
        Some(JsonMember::Null) => Some(None),
        Some(JsonMember::Text(t)) => Some(Some(t)),
        _ => None,
    }
}

/// An optional unsigned integer member, read as `opt_u64_member` says.
pub fn opt_u64_value(m: Option<JsonMember>) -> (r: Option<Option<u64>>)
    ensures
        r == opt_u64_member(opt_member_value(m)),
{
    match m {
        Some(JsonMember::Absent) => Some(None),
        Some(JsonMember::Null) => Some(None),
        Some(JsonMember::Number(Some(n))) => Some(Some(n)),
        _ => None,
    }
}

pub open spec fn opt_strings_view(o: Option<Vec<String>>) -> Option<Seq<Seq<char>>> {
    match o {
        Some(v) => Some(strings_view(v@)),
        None => None,
    }
}

/// An optional list-of-strings member, read as `opt_texts_member` says.
pub fn opt_texts_value(m: Option<JsonMember>) -> (r: Option<Option<Vec<String>>>)
    ensures
        match r {
            Some(o) => opt_texts_member(opt_member_value(m)) == Some(opt_strings_view(o)),
            None => opt_texts_member(opt_member_value(m)) is None,
        },
{
    match m {
        Some(JsonMember::Absent) => Some(None),
        Some(JsonMember::Null) => Some(None),
        Some(JsonMember::List(l)) => match member_texts(l) {
            Some(v) => Some(Some(v)),
            None => None,
        },
        _ => None,
    }
}

} // verus!
