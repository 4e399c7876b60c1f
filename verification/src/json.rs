//! Reading strings out of JSON documents.
//!
//! Parsing is done by `serde_json`. A parsed document is opaque here; what
//! the crate reads from it are the strings it holds, each addressed by the
//! object keys that lead to it, and the arrays it holds, addressed in the
//! same way. The trusted items of this module say how the calls into
//! `serde_json` act on those two tables.

use crate::sites::{slice_text_of, text_of};
use vstd::prelude::*;
use vstd::string::*;

verus! {

/// Trusted: declares `serde_json::Value` as a type whose inside is not
/// looked at. What the crate knows of such a value it knows through
/// [`json_strings`] and [`json_lists`].
#[verifier::external_type_specification]
#[verifier::external_body]
pub struct ExValue(serde_json::Value);

/// A table of strings by path. A path names nested objects by their keys,
/// outermost first.
pub type StringTable = Map<Seq<Seq<char>>, Seq<char>>;

/// A table of arrays by path; of each element of an array it holds the
/// table of strings.
pub type ListTable = Map<Seq<Seq<char>>, Seq<Map<Seq<Seq<char>>, Seq<char>>>>;

/// The strings a JSON value holds. A value that is itself a string holds
/// that string at the empty path; an object holds, below each of its keys,
/// what the member at that key holds; every other value (null, a boolean, a
/// number, an array) holds nothing.
pub uninterp spec fn json_strings(value: serde_json::Value) -> StringTable;

/// The arrays a JSON value holds. A value that is itself an array holds, at
/// the empty path, the string tables of its elements in order; an object
/// holds, below each of its keys, what the member at that key holds; every
/// other value holds nothing.
pub uninterp spec fn json_lists(value: serde_json::Value) -> ListTable;

/// The strings of the document that `text` spells, or `None` where `text` is
/// not one JSON value.
pub uninterp spec fn json_document(text: Seq<char>) -> Option<StringTable>;

/// The arrays of the document that `text` spells; of no meaning where
/// `text` is not one JSON value.
pub uninterp spec fn json_document_lists(text: Seq<char>) -> ListTable;

/// The part of a table of strings below `key`, with `key` taken off the
/// paths.
pub open spec fn below(table: StringTable, key: Seq<char>) -> StringTable {
    Map::new(
        |path: Seq<Seq<char>>| table.dom().contains(seq![key] + path),
        |path: Seq<Seq<char>>| table[seq![key] + path],
    )
}

/// The part of a table of arrays below `key`, with `key` taken off the
/// paths.
pub open spec fn lists_below(table: ListTable, key: Seq<char>) -> ListTable {
    Map::new(
        |path: Seq<Seq<char>>| table.dom().contains(seq![key] + path),
        |path: Seq<Seq<char>>| table[seq![key] + path],
    )
}

/// The string at `path`, if the table holds one there.
pub open spec fn string_at(table: StringTable, path: Seq<Seq<char>>) -> Option<Seq<char>> {
    if table.dom().contains(path) {
        Some(table[path])
    } else {
        None
    }
}

/// The array at `path`, if the table holds one there.
pub open spec fn list_at(table: ListTable, path: Seq<Seq<char>>) -> Option<Seq<StringTable>> {
    if table.dom().contains(path) {
        Some(table[path])
    } else {
        None
    }
}

/// The string tables of a list of values, in order.
pub open spec fn element_tables(items: Seq<serde_json::Value>) -> Seq<StringTable> {
    Seq::new(items.len(), |i: int| json_strings(items[i]))
}

/// Trusted: calls `serde_json::from_str` for a `Value`. The result depends on
/// the text alone: a value, whose strings and arrays are those of the
/// document, when the text is one JSON value; an error when it is not. Of
/// the error only its message is kept, and nothing is claimed about what
/// the message says.
#[verifier::external_body]
pub(crate) fn parse(text: &str) -> (r: Result<serde_json::Value, String>)
    ensures
        match r {
            Ok(value) => json_document(text@) == Some(json_strings(value)) && json_document_lists(
                text@,
            ) == json_lists(value),
            Err(_) => json_document(text@) is None,
        },
{
    match serde_json::from_str::<serde_json::Value>(text) {
        Ok(value) => Ok(value),
        Err(e) => Err(e.to_string()),
    }
}

/// Trusted: calls `serde_json::Value::get` with a string index. It returns
/// the member at `key` where `value` is an object that has one: the member
/// then holds what `value` holds below `key`. Where it returns nothing,
/// `value` is no object or has no such member, and so holds nothing below
/// `key`.
#[verifier::external_body]
pub(crate) fn member<'a>(value: &'a serde_json::Value, key: &str) -> (r: Option<
    &'a serde_json::Value,
>)
    ensures
        match r {
            Some(found) => json_strings(*found) == below(json_strings(*value), key@) && json_lists(
                *found,
            ) == lists_below(json_lists(*value), key@),
            None => below(json_strings(*value), key@) == Map::<Seq<Seq<char>>, Seq<char>>::empty()
                && lists_below(json_lists(*value), key@) == Map::<
                Seq<Seq<char>>,
                Seq<Map<Seq<Seq<char>>, Seq<char>>>,
            >::empty(),
        },
{
    value.get(key)
}

/// Trusted: `serde_json::Value::as_str` returns the text of a value that is
/// a string, which is what the value holds at the empty path, and nothing
/// for any other value.
pub assume_specification<'a>[ serde_json::Value::as_str ](value: &'a serde_json::Value) -> (r:
    Option<&'a str>)
    ensures
        slice_text_of(r) == string_at(json_strings(*value), Seq::<Seq<char>>::empty()),
;

/// Trusted: `serde_json::Value::as_array` returns the elements of a value
/// that is an array, which are what the value holds at the empty path of
/// its table of arrays, and nothing for any other value.
pub assume_specification<'a>[ serde_json::Value::as_array ](value: &'a serde_json::Value) -> (r:
    Option<&'a Vec<serde_json::Value>>)
    ensures
        list_at(json_lists(*value), Seq::<Seq<char>>::empty()) == match r {
            Some(items) => Some(element_tables(items@)),
            None => None,
        },
;

/// The string at `key` in a parsed value.
pub(crate) fn string_member(value: &serde_json::Value, key: &str) -> (r: Option<String>)
    ensures
        text_of(r) == string_at(json_strings(*value), seq![key@]),
{
    proof {
        assert(seq![key@] + Seq::<Seq<char>>::empty() =~= seq![key@]);
    }
    match member(value, key) {
        None => {
            assert(!below(json_strings(*value), key@).dom().contains(Seq::<Seq<char>>::empty()));
            None
        },
        Some(entry) => match entry.as_str() {
            Some(text) => Some(text.to_string()),
            None => None,
        },
    }
}

/// The string at `outer`/`inner` in a parsed document.
pub(crate) fn nested_string(document: &serde_json::Value, outer: &str, inner: &str) -> (r:
    Option<String>)
    ensures
        text_of(r) == string_at(json_strings(*document), seq![outer@, inner@]),
{
    let ghost table = json_strings(*document);
    proof {
        assert(seq![outer@] + seq![inner@] =~= seq![outer@, inner@]);
    }
    match member(document, outer) {
        None => {
            assert(!below(table, outer@).dom().contains(seq![inner@]));
            None
        },
        Some(section) => string_member(section, inner),
    }
}

/// The array at `outer`/`inner` in a parsed document.
pub(crate) fn nested_list<'a>(document: &'a serde_json::Value, outer: &str, inner: &str) -> (r:
    Option<&'a Vec<serde_json::Value>>)
    ensures
        list_at(json_lists(*document), seq![outer@, inner@]) == match r {
            Some(items) => Some(element_tables(items@)),
            None => None,
        },
{
    let ghost table = json_lists(*document);
    proof {
        assert(seq![outer@] + seq![inner@] =~= seq![outer@, inner@]);
        assert(seq![inner@] + Seq::<Seq<char>>::empty() =~= seq![inner@]);
    }
    match member(document, outer) {
        None => {
            assert(!lists_below(table, outer@).dom().contains(seq![inner@]));
            None
        },
        Some(section) => match member(section, inner) {
            None => {
                assert(!lists_below(lists_below(table, outer@), inner@).dom().contains(
                    Seq::<Seq<char>>::empty(),
                ));
                None
            },
            Some(entry) => entry.as_array(),
        },
    }
}

} // verus!
