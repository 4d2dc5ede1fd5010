//! Access to property-list values, as decoded by the `plist` crate.
//!
//! A `plist::Value` stays opaque here: what the decoder reads of it is named by
//! the spec functions below, one for each accessor of the crate that it calls.

use vstd::prelude::*;

verus! {

#[verifier::external_type_specification]
#[verifier::external_body]
pub struct ExValue(plist::Value);

#[verifier::external_type_specification]
#[verifier::external_body]
pub struct ExDictionary(plist::Dictionary);

/// The value that a property-list document (in any of its encodings) decodes to.
pub uninterp spec fn parsed_plist(b: Seq<u8>) -> Option<plist::Value>;

/// The dictionary held by a value, if the value is a dictionary.
pub uninterp spec fn dictionary_of(v: plist::Value) -> Option<plist::Dictionary>;

/// The elements held by a value, if the value is an array.
pub uninterp spec fn array_of(v: plist::Value) -> Option<Seq<plist::Value>>;

/// The text held by a value, if the value is a string.
pub uninterp spec fn string_of(v: plist::Value) -> Option<Seq<char>>;

/// The value stored under a key in a dictionary, if any.
pub uninterp spec fn entry_of(d: plist::Dictionary, key: Seq<char>) -> Option<plist::Value>;

/// Relies on plist::Value::from_reader: decodes a document held in memory,
/// `None` where it is not a property list.
#[verifier::external_body]
pub(crate) fn parse_plist(bytes: &[u8]) -> (r: Option<plist::Value>)
    ensures
        r == parsed_plist(bytes@),
{
    plist::Value::from_reader(std::io::Cursor::new(bytes)).ok()
}

/// Relies on plist::Value::as_dictionary: the dictionary of a dictionary value.
#[verifier::external_body]
pub(crate) fn as_dictionary(v: &plist::Value) -> (r: Option<&plist::Dictionary>)
    ensures
        r.is_some() == dictionary_of(*v).is_some(),
        r matches Some(d) ==> dictionary_of(*v) == Some(*d),
{
    v.as_dictionary()
}

/// Relies on plist::Value::as_array: the elements of an array value.
#[verifier::external_body]
pub(crate) fn as_array(v: &plist::Value) -> (r: Option<&Vec<plist::Value>>)
    ensures
        r.is_some() == array_of(*v).is_some(),
        r matches Some(a) ==> array_of(*v) == Some(a@),
{
    v.as_array()
}

/// Relies on plist::Value::as_string: the text of a string value.
#[verifier::external_body]
pub(crate) fn as_string(v: &plist::Value) -> (r: Option<&str>)
    ensures
        r.is_some() == string_of(*v).is_some(),
        r matches Some(s) ==> string_of(*v) == Some(s@),
{
    v.as_string()
}

/// Relies on plist::Dictionary::get: the value stored under `key`.
#[verifier::external_body]
pub(crate) fn get_entry<'a>(d: &'a plist::Dictionary, key: &str) -> (r: Option<&'a plist::Value>)
    ensures
        r.is_some() == entry_of(*d, key@).is_some(),
        r matches Some(v) ==> entry_of(*d, key@) == Some(*v),
{
    d.get(key)
}

} // verus!
