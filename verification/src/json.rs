//! JSON, as far as a response needs it: the members of an object, each with
//! the text of its value, and the value of a string.
//!
//! The reading itself is `serde_json`'s. What this module proves is the
//! search through what was read.

use std::collections::BTreeMap;
use vstd::prelude::*;
use vstd::string::StringSliceAdditionalSpecFns;

use crate::text::lemma_encoding_injective;

verus! {

/// The members of a JSON object: each name with the JSON text of its value.
pub type Members = Vec<(String, String)>;

/// What `serde_json` reads in `text` as a JSON object: each member's name
/// with the JSON text of its value, in ascending order of the names; nothing
/// where `text` is not one JSON object.
pub uninterp spec fn json_members(text: Seq<u8>) -> Option<Seq<(Seq<char>, Seq<char>)>>;

/// What `serde_json` reads in `text` as a JSON string: the characters that
/// the string stands for; nothing where `text` is not one JSON string.
pub uninterp spec fn json_string(text: Seq<u8>) -> Option<Seq<char>>;

/// The names and value texts of `members`, as characters.
pub open spec fn members_view(members: Seq<(String, String)>) -> Seq<(Seq<char>, Seq<char>)> {
    Seq::new(members.len(), |i: int| (members[i].0@, members[i].1@))
}

/// Whether `i` is the place of the first member of `members` named `name`.
pub open spec fn is_first_member(members: Seq<(Seq<char>, Seq<char>)>, name: Seq<char>, i: int) -> bool {
    &&& 0 <= i < members.len()
    &&& members[i].0 == name
    &&& forall|j: int| 0 <= j < i ==> (#[trigger] members[j]).0 != name
}

/// The value text of the first member of `members` named `name`.
pub open spec fn member_spec(members: Seq<(Seq<char>, Seq<char>)>, name: Seq<char>) -> Option<Seq<char>> {
    if exists|i: int| is_first_member(members, name, i) {
        Some(members[choose|i: int| is_first_member(members, name, i)].1)
    } else {
        None
    }
}

/// `serde_json::from_slice`, asked for a map from `String` to `RawValue`:
/// the members of the JSON object `text`, each value as its own JSON text.
#[verifier::external_body]
pub(crate) fn read_members(text: &[u8]) -> (r: Option<Members>)
    ensures
        match r {
            Some(members) => json_members(text@) == Some(members_view(members@)),
            None => json_members(text@) is None,
        },
{
    let map: BTreeMap<String, Box<serde_json::value::RawValue>> = serde_json::from_slice(text).ok()?;
    Some(map.into_iter().map(|(name, value)| (name, String::from(Box::<str>::from(value)))).collect())
}

/// `serde_json::from_slice`, asked for a `String`: the value of the JSON
/// string `text`.
#[verifier::external_body]
pub(crate) fn read_string(text: &[u8]) -> (r: Option<String>)
    ensures
        match r {
            Some(value) => json_string(text@) == Some(value@),
            None => json_string(text@) is None,
        },
{
    serde_json::from_slice::<String>(text).ok()
}

/// Tells whether two byte strings are equal.
pub fn bytes_eq(a: &[u8], b: &[u8]) -> (r: bool)
    ensures
        r == (a@ == b@),
{
    if a.len() != b.len() {
        return false;
    }
    let n = a.len();
    let mut i: usize = 0;
    while i < n
        invariant
            i <= n,
            n == a@.len(),
            n == b@.len(),
            forall|j: int| 0 <= j < i ==> a@[j] == b@[j],
        decreases n - i,
    {
        if a[i] != b[i] {
            return false;
        }
        i += 1;
    }
    assert(a@ =~= b@);
    true
}

/// Tells whether two texts are equal.
pub fn text_eq(a: &str, b: &str) -> (r: bool)
    ensures
        r == (a@ == b@),
{
    let r = bytes_eq(a.as_bytes(), b.as_bytes());
    proof {
        if r {
            lemma_encoding_injective(a@, b@);
        }
    }
    r
}

/// Finds the value text of the first member named `name`.
pub fn member<'a>(members: &'a Members, name: &str) -> (r: Option<&'a String>)
    ensures
        match r {
            Some(value) => member_spec(members_view(members@), name@) == Some(value@),
            None => member_spec(members_view(members@), name@) is None,
        },
{
    let ghost view = members_view(members@);
    let n = members.len();
    let mut i: usize = 0;
    while i < n
        invariant
            i <= n,
            n == members@.len(),
            view == members_view(members@),
            forall|j: int| 0 <= j < i ==> (#[trigger] view[j]).0 != name@,
        decreases n - i,
    {
        if text_eq(members[i].0.as_str(), name) {
            proof {
                assert(view[i as int].0 == name@);
                assert(is_first_member(view, name@, i as int));
                let k = choose|k: int| is_first_member(view, name@, k);
                assert(is_first_member(view, name@, k));
                if k < i {
                    assert(view[k].0 != name@);
                }
                if i < k {
                    assert(view[i as int].0 != name@);
                }
                assert(k == i);
            }
            return Some(&members[i].1);
        }
        i += 1;
    }
    proof {
        assert forall|k: int| !is_first_member(view, name@, k) by {
            if 0 <= k < view.len() {
                assert(view[k].0 != name@);
            }
        }
    }
    None
}

} // verus!
