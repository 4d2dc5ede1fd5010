//! Reading the mount point and device node out of the utility's answer to an
//! attach.
//!
//! The answer is a property list whose root dictionary holds, under
//! `system-entities`, an array of dictionaries. The first of them that has a
//! `mount-point` describes the attached volume; it must also have a
//! `dev-entry`.

use vstd::prelude::*;
use crate::command::{Error, ErrorView};
use crate::property::{
    array_of, as_array, as_dictionary, as_string, dictionary_of, entry_of, get_entry,
    parse_plist, parsed_plist, string_of,
};

verus! {

/// Data associated with an attached disk image.
#[derive(Debug, Clone, PartialEq, Eq)]
pub struct Info {
    /// Path at which the disk image is mounted.
    pub mount_point: String,
    /// Device node path for this disk image.
    pub device: String,
}

impl View for Info {
    /// The mount point and the device node.
    type V = (Seq<char>, Seq<char>);

    open spec fn view(&self) -> (Seq<char>, Seq<char>) {
        (self.mount_point@, self.device@)
    }
}

/// The view of a decoding result.
pub open spec fn info_view(r: Result<Info, Error>) -> Result<(Seq<char>, Seq<char>), ErrorView> {
    match r {
        Ok(i) => Ok(i@),
        Err(e) => Err(e@),
    }
}

/// A found pair as a result, and a missing one as the error that reports it.
pub open spec fn found_or_missing(o: Option<(Seq<char>, Seq<char>)>) -> Result<
    (Seq<char>, Seq<char>),
    ErrorView,
> {
    match o {
        Some(p) => Ok(p),
        None => Err(ErrorView::MissingProperty),
    }
}

/// Whether an entity is a dictionary without a mount point, which the scan passes over.
pub open spec fn passed_over(e: plist::Value) -> bool {
    dictionary_of(e) matches Some(d) && entry_of(d, "mount-point"@) is None
}

/// Whether an entity is a dictionary with a mount point.
pub open spec fn has_mount_point(e: plist::Value) -> bool {
    dictionary_of(e) matches Some(d) && entry_of(d, "mount-point"@) is Some
}

/// What a dictionary with a mount point gives: its mount point and device node,
/// where both are strings.
pub open spec fn entity_info(d: plist::Dictionary) -> Option<(Seq<char>, Seq<char>)> {
    match entry_of(d, "mount-point"@) {
        Some(mp) => match (string_of(mp), entry_of(d, "dev-entry"@)) {
            (Some(m), Some(dev)) => match string_of(dev) {
                Some(dv) => Some((m, dv)),
                None => None,
            },
            _ => None,
        },
        None => None,
    }
}

/// The scan of the entities from index `i` on: the first one that is not passed
/// over decides. It gives the pair where it is a dictionary with a mount point
/// and a device node, both strings, and nothing otherwise; nothing too where
/// every remaining entity is passed over.
pub open spec fn entities_info(es: Seq<plist::Value>, i: int) -> Option<(Seq<char>, Seq<char>)>
    decreases es.len() - i,
{
    if i < 0 || i >= es.len() {
        None
    } else if passed_over(es[i]) {
        entities_info(es, i + 1)
    } else {
        match dictionary_of(es[i]) {
            Some(d) => entity_info(d),
            None => None,
        }
    }
}

/// The entities of a response: the array under `system-entities` of the root dictionary.
pub open spec fn entities_of(root: plist::Value) -> Option<Seq<plist::Value>> {
    match dictionary_of(root) {
        Some(d) => match entry_of(d, "system-entities"@) {
            Some(e) => array_of(e),
            None => None,
        },
        None => None,
    }
}

/// The mount point and device node that a decoded response holds, if it holds them.
pub open spec fn response_info(root: plist::Value) -> Option<(Seq<char>, Seq<char>)> {
    match entities_of(root) {
        Some(es) => entities_info(es, 0),
        None => None,
    }
}

/// What the bytes of a response decode to.
pub open spec fn decoded_response(b: Seq<u8>) -> Result<(Seq<char>, Seq<char>), ErrorView> {
    match parsed_plist(b) {
        Some(root) => found_or_missing(response_info(root)),
        None => Err(ErrorView::ResponseUnparseable),
    }
}

/// Extracts the mount point and device node from a decoded response.
pub fn decode_plist(root: &plist::Value) -> (r: Result<Info, Error>)
    ensures
        info_view(r) == found_or_missing(response_info(*root)),
{
    let dict = match as_dictionary(root) {
        Some(d) => d,
        None => return Err(Error::MissingProperty),
    };
    let listed = match get_entry(dict, "system-entities") {
        Some(v) => v,
        None => return Err(Error::MissingProperty),
    };
    let entities = match as_array(listed) {
        Some(a) => a,
        None => return Err(Error::MissingProperty),
    };
    assert(entities_of(*root) == Some(entities@));
    let mut i: usize = 0;
    while i < entities.len()
        invariant
            0 <= i <= entities.len(),
            response_info(*root) == entities_info(entities@, i as int),
        decreases entities.len() - i,
    {
        let properties = match as_dictionary(&entities[i]) {
            Some(d) => d,
            None => return Err(Error::MissingProperty),
        };
        if let Some(mount_point) = get_entry(properties, "mount-point") {
            let mount_point = match as_string(mount_point) {
                Some(s) => s,
                None => return Err(Error::MissingProperty),
            };
            let device = match get_entry(properties, "dev-entry") {
                Some(v) => v,
                None => return Err(Error::MissingProperty),
            };
            let device = match as_string(device) {
                Some(s) => s,
                None => return Err(Error::MissingProperty),
            };
            return Ok(Info { mount_point: mount_point.to_owned(), device: device.to_owned() });
        }
        i = i + 1;
    }
    Err(Error::MissingProperty)
}

/// Decodes the bytes of the utility's answer to an attach.
pub fn decode_response(stdout: &[u8]) -> (r: Result<Info, Error>)
    ensures
        info_view(r) == decoded_response(stdout@),
{
    match parse_plist(stdout) {
        Some(root) => decode_plist(&root),
        None => Err(Error::ResponseUnparseable),
    }
}

/// Entities that are all passed over leave the scan to what follows them.
proof fn lemma_scan_skips(es: Seq<plist::Value>, i: int, k: int)
    requires
        0 <= i <= k <= es.len(),
        forall|j: int| i <= j < k ==> passed_over(#[trigger] es[j]),
    ensures
        entities_info(es, i) == entities_info(es, k),
    decreases k - i,
{
    if i < k {
        lemma_scan_skips(es, i + 1, k);
    }
}

/// Decoding one response twice gives equal results: where the response holds a
/// mount point and a device node, both results hold the same ones.
pub proof fn lemma_decode_twice(b: Seq<u8>, first: Result<Info, Error>, second: Result<Info, Error>)
    requires
        info_view(first) == decoded_response(b),
        info_view(second) == decoded_response(b),
    ensures
        info_view(first) == info_view(second),
        decoded_response(b) is Ok ==> (first matches Ok(x) && second matches Ok(y) && x@ == y@),
{
}

/// A response whose first entity with a mount point has no `dev-entry` is
/// refused as missing a property, whatever follows that entity.
pub proof fn lemma_no_device_refused(root: plist::Value, k: int, d: plist::Dictionary)
    requires
        entities_of(root) matches Some(es) && 0 <= k < es.len() && (forall|j: int|
            0 <= j < k ==> passed_over(#[trigger] es[j])) && dictionary_of(es[k]) == Some(d),
        entry_of(d, "mount-point"@) is Some,
        entry_of(d, "dev-entry"@) is None,
    ensures
        found_or_missing(response_info(root)) == Err::<(Seq<char>, Seq<char>), ErrorView>(
            ErrorView::MissingProperty,
        ),
{
    let es = entities_of(root).unwrap();
    lemma_scan_skips(es, 0, k);
}

/// A response whose entities include no dictionary with a mount point is
/// refused as missing a property.
pub proof fn lemma_no_mount_point_refused(root: plist::Value)
    requires
        entities_of(root) matches Some(es) && forall|j: int|
            0 <= j < es.len() ==> !has_mount_point(#[trigger] es[j]),
    ensures
        found_or_missing(response_info(root)) == Err::<(Seq<char>, Seq<char>), ErrorView>(
            ErrorView::MissingProperty,
        ),
{
    let es = entities_of(root).unwrap();
    lemma_none_from(es, 0);
}

/// The scan finds nothing among entities none of which has a mount point.
proof fn lemma_none_from(es: Seq<plist::Value>, i: int)
    requires
        0 <= i <= es.len(),
        forall|j: int| 0 <= j < es.len() ==> !has_mount_point(#[trigger] es[j]),
    ensures
        entities_info(es, i) is None,
    decreases es.len() - i,
{
    if i < es.len() {
        lemma_none_from(es, i + 1);
        assert(!has_mount_point(es[i]));
    }
}

} // verus!
