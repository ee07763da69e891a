//! Ordered lists of named values: headers and query parameters.

use crate::text;
use vstd::prelude::*;

verus! {

/// A named value.
pub type Field = (Seq<char>, Seq<char>);

/// The named values that a list of string pairs holds.
pub open spec fn listed(fields: Seq<(String, String)>) -> Seq<Field> {
    fields.map_values(|field: (String, String)| (field.0@, field.1@))
}

/// The named values that a list of borrowed pairs holds.
pub open spec fn borrowed(fields: Seq<(&str, &str)>) -> Seq<Field> {
    fields.map_values(|field: (&str, &str)| (field.0@, field.1@))
}

/// The texts that a list of strings holds.
pub open spec fn texts(values: Seq<&str>) -> Seq<Seq<char>> {
    values.map_values(|value: &str| value@)
}

/// The value of a field that has the given name, whatever the case of its letters.
pub open spec fn if_named(name: Seq<char>) -> spec_fn(Field) -> Option<Seq<char>> {
    |field: Field|
        if text::same_ignoring_case(field.0, name) {
            Some(field.1)
        } else {
            None
        }
}

/// The value of a field that has exactly the given name.
pub open spec fn if_exactly_named(name: Seq<char>) -> spec_fn(Field) -> Option<Seq<char>> {
    |field: Field|
        if field.0 == name {
            Some(field.1)
        } else {
            None
        }
}

/// A field that has another name than the given one, whatever the case of its letters.
pub open spec fn if_not_named(name: Seq<char>) -> spec_fn(Field) -> Option<Field> {
    |field: Field|
        if text::same_ignoring_case(field.0, name) {
            None
        } else {
            Some(field)
        }
}

/// Every value under a header name, in order. The case of letters does not matter.
pub open spec fn header_values(fields: Seq<Field>, name: Seq<char>) -> Seq<Seq<char>> {
    fields.filter_map(if_named(name))
}

/// Every value under the name of a query parameter, in order.
pub open spec fn parameter_values(fields: Seq<Field>, name: Seq<char>) -> Seq<Seq<char>> {
    fields.filter_map(if_exactly_named(name))
}

/// The fields with other header names than the given one, in order.
pub open spec fn other_headers(fields: Seq<Field>, name: Seq<char>) -> Seq<Field> {
    fields.filter_map(if_not_named(name))
}

/// The first of some values.
pub open spec fn first(values: Seq<Seq<char>>) -> Option<Seq<char>> {
    if values.len() > 0 {
        Some(values[0])
    } else {
        None
    }
}

/// What is picked out of a list joined of two is what is picked out of each, in order.
pub proof fn lemma_filter_map_concat<A, B>(a: Seq<A>, b: Seq<A>, pick: spec_fn(A) -> Option<B>)
    ensures
        (a + b).filter_map(pick) == a.filter_map(pick) + b.filter_map(pick),
    decreases b.len(),
{
    if b.len() == 0 {
        assert(a + b =~= a);
        assert(b.filter_map(pick) =~= Seq::<B>::empty());
        assert(a.filter_map(pick) + b.filter_map(pick) =~= a.filter_map(pick));
    } else {
        lemma_filter_map_concat(a, b.drop_last(), pick);
        assert((a + b).drop_last() =~= a + b.drop_last());
        assert((a + b).filter_map(pick) =~= a.filter_map(pick) + b.filter_map(pick));
    }
}

/// Picking out of a list that grew by one item.
pub proof fn lemma_filter_map_push<A, B>(a: Seq<A>, item: A, pick: spec_fn(A) -> Option<B>)
    ensures
        a.push(item).filter_map(pick) == (match pick(item) {
            Some(picked) => a.filter_map(pick).push(picked),
            None => a.filter_map(pick),
        }),
{
    assert(a.push(item).drop_last() =~= a);
    match pick(item) {
        Some(picked) => {
            assert(a.filter_map(pick) + seq![picked] =~= a.filter_map(pick).push(picked));
        },
        None => {},
    }
}

/// A header is found under its name in any case.
pub proof fn law_header_case(fields: Seq<Field>, name: Seq<char>, other: Seq<char>)
    requires
        text::same_ignoring_case(name, other),
    ensures
        header_values(fields, name) == header_values(fields, other),
    decreases fields.len(),
{
    if fields.len() > 0 {
        law_header_case(fields.drop_last(), name, other);
        text::law_case_is_ignored(name, other, fields.last().0);
        text::law_case_is_ignored(name, fields.last().0, name);
        text::law_case_is_ignored(other, fields.last().0, other);
    }
}

/// What a look-up finds among the fields with other names than a given one.
pub proof fn lemma_other_headers(fields: Seq<Field>, name: Seq<char>, looked_up: Seq<char>)
    ensures
        header_values(other_headers(fields, name), looked_up) == (if text::same_ignoring_case(
            name,
            looked_up,
        ) {
            seq![]
        } else {
            header_values(fields, looked_up)
        }),
    decreases fields.len(),
{
    if fields.len() > 0 {
        let shorter = fields.drop_last();
        let last = fields.last();
        lemma_other_headers(shorter, name, looked_up);
        text::law_case_is_ignored(name, looked_up, last.0);
        text::law_case_is_ignored(name, last.0, looked_up);
        text::law_case_is_ignored(looked_up, last.0, name);
        assert(fields =~= shorter.push(last));
        lemma_filter_map_push(shorter, last, if_not_named(name));
        lemma_filter_map_push(shorter, last, if_named(looked_up));
        lemma_filter_map_push(other_headers(shorter, name), last, if_named(looked_up));
    }
}

/// Collects every value under a header name.
pub fn collect_header_values<'a>(fields: &'a Vec<(String, String)>, name: &str) -> (result: Vec<
    &'a str,
>)
    ensures
        texts(result@) == header_values(listed(fields@), name@),
{
    let mut result: Vec<&'a str> = Vec::new();
    let mut i: usize = 0;
    while i < fields.len()
        invariant
            i <= fields@.len(),
            texts(result@) == header_values(listed(fields@).take(i as int), name@),
        decreases fields@.len() - i,
    {
        let ghost done = listed(fields@).take(i as int);
        let ghost before = result@;
        proof {
            let item = listed(fields@)[i as int];
            lemma_filter_map_push(done, item, if_named(name@));
            assert(listed(fields@).take(i + 1) =~= done.push(item));
        }
        if text::eq_ignore_ascii_case(fields[i].0.as_str(), name) {
            result.push(fields[i].1.as_str());
            assert(texts(result@) =~= texts(before).push(fields@[i as int].1@));
        }
        i += 1;
    }
    assert(listed(fields@).take(i as int) =~= listed(fields@));
    result
}

/// Collects every value under the name of a query parameter.
pub fn collect_parameter_values<'a>(
    fields: &'a Vec<(String, String)>,
    name: &str,
) -> (result: Vec<&'a str>)
    ensures
        texts(result@) == parameter_values(listed(fields@), name@),
{
    let wanted = name.to_owned();
    let mut result: Vec<&'a str> = Vec::new();
    let mut i: usize = 0;
    while i < fields.len()
        invariant
            i <= fields@.len(),
            wanted@ == name@,
            texts(result@) == parameter_values(listed(fields@).take(i as int), name@),
        decreases fields@.len() - i,
    {
        let ghost done = listed(fields@).take(i as int);
        let ghost before = result@;
        proof {
            let item = listed(fields@)[i as int];
            lemma_filter_map_push(done, item, if_exactly_named(name@));
            assert(listed(fields@).take(i + 1) =~= done.push(item));
        }
        if fields[i].0 == wanted {
            result.push(fields[i].1.as_str());
            assert(texts(result@) =~= texts(before).push(fields@[i as int].1@));
        }
        i += 1;
    }
    assert(listed(fields@).take(i as int) =~= listed(fields@));
    result
}

/// Copies a list of named values.
pub fn copy(fields: &Vec<(String, String)>) -> (result: Vec<(String, String)>)
    ensures
        listed(result@) == listed(fields@),
{
    let mut result: Vec<(String, String)> = Vec::new();
    let mut i: usize = 0;
    while i < fields.len()
        invariant
            i <= fields@.len(),
            result@ == fields@.take(i as int),
        decreases fields@.len() - i,
    {
        result.push((fields[i].0.clone(), fields[i].1.clone()));
        i += 1;
    }
    assert(result@ =~= fields@);
    result
}

/// Takes the first of some values.
pub fn first_of<'a>(values: Vec<&'a str>) -> (result: Option<&'a str>)
    ensures
        text::optional_str(result) == first(texts(values@)),
{
    if values.len() > 0 {
        Some(values[0])
    } else {
        None
    }
}

/// Removes the fields that have a given header name.
pub fn remove_header(fields: Vec<(String, String)>, name: &str) -> (result: Vec<(String, String)>)
    ensures
        listed(result@) == other_headers(listed(fields@), name@),
{
    let ghost all = listed(fields@);
    let mut result: Vec<(String, String)> = Vec::new();
    for field in rest: fields
        invariant
            all == listed(rest.seq()),
            listed(result@) == other_headers(all.take(rest.index() as int), name@),
    {
        let ghost done = all.take(rest.index() as int);
        let ghost before = result@;
        proof {
            let item = all[rest.index() as int];
            lemma_filter_map_push(done, item, if_not_named(name@));
            assert(all.take(rest.index() + 1) =~= done.push(item));
        }
        if !text::eq_ignore_ascii_case(field.0.as_str(), name) {
            result.push(field);
            assert(listed(result@) =~= listed(before).push((field.0@, field.1@)));
        }
    }
    assert(all.take(all.len() as int) =~= all);
    result
}

} // verus!
