//! What the operations of the library promise, in terms of what goes in and what comes out.
//!
//! Each law takes the arguments and the result of one call, or of several, and says how they
//! relate. That a result came out of a call is written `call_ensures`.

use crate::fields;
use crate::text;
use vstd::prelude::*;

pub mod requests;
pub mod responses;
pub mod serving;
pub mod settings;
pub mod texts;

verus! {

/// Two characters that are the same, or the two cases of one ASCII letter.
pub open spec fn same_letter(a: char, b: char) -> bool {
    ||| a == b
    ||| 'A' <= a <= 'Z' && b as int == a as int + 32
    ||| 'A' <= b <= 'Z' && a as int == b as int + 32
}

/// Two texts that are the same, but for the case of ASCII letters.
pub open spec fn alike(a: Seq<char>, b: Seq<char>) -> bool {
    a.len() == b.len() && forall|i: int| 0 <= i < a.len() ==> #[trigger] same_letter(a[i], b[i])
}

/// The names and values in a list of pairs.
pub open spec fn pairs(list: Seq<(String, String)>) -> Seq<(Seq<char>, Seq<char>)> {
    Seq::new(list.len(), |i: int| (list[i].0@, list[i].1@))
}

/// The texts in a list.
pub open spec fn texts_in(list: Seq<&str>) -> Seq<Seq<char>> {
    Seq::new(list.len(), |i: int| list[i]@)
}

/// The characters of a text that may be missing.
pub open spec fn chars(value: Option<String>) -> Option<Seq<char>> {
    match value {
        Some(value) => Some(value@),
        None => None,
    }
}

pub(crate) proof fn lemma_pairs(list: Seq<(String, String)>)
    ensures
        fields::listed(list) == pairs(list),
{
    assert(fields::listed(list) =~= pairs(list));
}

pub(crate) proof fn lemma_texts_in(list: Seq<&str>)
    ensures
        fields::texts(list) == texts_in(list),
{
    assert(fields::texts(list) =~= texts_in(list));
}

pub(crate) proof fn lemma_alike(a: Seq<char>, b: Seq<char>)
    ensures
        text::same_ignoring_case(a, b) == alike(a, b),
{
    if text::same_ignoring_case(a, b) {
        assert forall|i: int| 0 <= i < a.len() implies #[trigger] same_letter(a[i], b[i]) by {
            assert(text::lowered(a[i]) == text::lowered(b[i]));
        }
    }
    if alike(a, b) {
        assert forall|i: int| 0 <= i < a.len() implies text::lowered(#[trigger] a[i])
            == text::lowered(b[i]) by {
            assert(same_letter(a[i], b[i]));
        }
    }
}

} // verus!
