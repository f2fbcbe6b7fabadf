//! Header maps and the subset test between them.
//!
//! A header map is hyper's `HeaderMap`. What it holds is read as a sequence
//! of (name, value) pairs of bytes; the test itself works on such pairs.

use hyper::header::HeaderValue;
use hyper::HeaderMap;
use vstd::prelude::*;

verus! {

/// One header as bytes: the name, then the value.
pub type HeaderPair = (Vec<u8>, Vec<u8>);

/// One header as sequences of bytes: the name, then the value.
pub type HeaderEntry = (Seq<u8>, Seq<u8>);

/// hyper's `HeaderMap`. What a map holds is known through `header_entries`.
#[verifier::external_type_specification]
#[verifier::external_body]
#[verifier::reject_recursive_types(T)]
pub struct ExHeaderMap<T>(HeaderMap<T>);

/// hyper's `HeaderValue`, the kind of value that a `HeaderMap` holds.
#[verifier::external_type_specification]
#[verifier::external_body]
pub struct ExHeaderValue(HeaderValue);

/// The headers that a map holds, one entry for each value, in the order in
/// which the map's iterator yields them: the name as the bytes of
/// `HeaderName::as_str`, the value as `HeaderValue::as_bytes`.
pub uninterp spec fn header_entries(headers: HeaderMap) -> Seq<HeaderEntry>;

/// `HeaderMap::clone`. Nothing is claimed of the copy.
pub assume_specification<T: Clone>[ <HeaderMap<T> as Clone>::clone ](
    headers: &HeaderMap<T>,
) -> (copy: HeaderMap<T>)
;

/// `HeaderMap::new`: the map it makes holds no header.
#[verifier::external_body]
pub(crate) fn no_headers() -> (headers: HeaderMap)
    ensures
        header_entries(headers) == Seq::<HeaderEntry>::empty(),
{
    HeaderMap::new()
}

/// `HeaderMap::iter`, each item turned into bytes: the pairs that come out
/// are the map's entries.
#[verifier::external_body]
pub(crate) fn header_pairs(headers: &HeaderMap) -> (pairs: Vec<HeaderPair>)
    ensures
        pair_views(pairs@) == header_entries(*headers),
{
    headers.iter().map(
        |(name, value)| (name.as_str().as_bytes().to_vec(), value.as_bytes().to_vec()),
    ).collect()
}

/// The pairs as sequences of bytes.
pub open spec fn pair_views(pairs: Seq<HeaderPair>) -> Seq<HeaderEntry> {
    pairs.map_values(|pair: HeaderPair| (pair.0@, pair.1@))
}

/// Whether `carried` holds the header `wanted`: same name, same value.
pub open spec fn carries(carried: Seq<HeaderEntry>, wanted: HeaderEntry) -> bool {
    exists|i: int| 0 <= i < carried.len() && carried[i] == wanted
}

/// Whether every header of `required` is among `carried`. Headers of
/// `carried` that `required` does not name play no part.
pub open spec fn carries_all(carried: Seq<HeaderEntry>, required: Seq<HeaderEntry>) -> bool {
    forall|j: int| 0 <= j < required.len() ==> carries(carried, #[trigger] required[j])
}

/// Whether two byte strings are the same.
pub fn bytes_equal(left: &Vec<u8>, right: &Vec<u8>) -> (same: bool)
    ensures
        same == (left@ == right@),
{
    if left.len() != right.len() {
        return false;
    }
    let mut i: usize = 0;
    while i < left.len()
        invariant
            left@.len() == right@.len(),
            i <= left@.len(),
            forall|k: int| 0 <= k < i ==> left@[k] == right@[k],
        decreases left@.len() - i,
    {
        if left[i] != right[i] {
            return false;
        }
        i = i + 1;
    }
    assert(left@ =~= right@);
    true
}

/// Whether `carried` holds a header with the name and the value of `wanted`.
pub fn contains_pair(carried: &Vec<HeaderPair>, wanted: &HeaderPair) -> (found: bool)
    ensures
        found == carries(pair_views(carried@), (wanted.0@, wanted.1@)),
{
    let mut i: usize = 0;
    while i < carried.len()
        invariant
            i <= carried@.len(),
            forall|k: int| 0 <= k < i ==> pair_views(carried@)[k] != (wanted.0@, wanted.1@),
        decreases carried@.len() - i,
    {
        if bytes_equal(&carried[i].0, &wanted.0) && bytes_equal(&carried[i].1, &wanted.1) {
            assert(pair_views(carried@)[i as int] == (wanted.0@, wanted.1@));
            return true;
        }
        i = i + 1;
    }
    false
}

/// Whether the headers of a request, `reference`, hold every header of
/// `to_be_contained`.
pub fn contains_pairs(
    reference: &Vec<HeaderPair>,
    to_be_contained: &Vec<HeaderPair>,
) -> (all: bool)
    ensures
        all == carries_all(pair_views(reference@), pair_views(to_be_contained@)),
{
    let mut j: usize = 0;
    while j < to_be_contained.len()
        invariant
            j <= to_be_contained@.len(),
            forall|k: int|
                0 <= k < j ==> carries(
                    pair_views(reference@),
                    #[trigger] pair_views(to_be_contained@)[k],
                ),
        decreases to_be_contained@.len() - j,
    {
        if !contains_pair(reference, &to_be_contained[j]) {
            assert(!carries(pair_views(reference@), pair_views(to_be_contained@)[j as int]));
            return false;
        }
        j = j + 1;
    }
    true
}

/// Whether the request headers `reference` hold every header of
/// `to_be_contained`, both read from their maps.
pub fn contains_headers(reference: &HeaderMap, to_be_contained: &HeaderMap) -> (all: bool)
    ensures
        all == carries_all(header_entries(*reference), header_entries(*to_be_contained)),
{
    let required = header_pairs(to_be_contained);
    if required.len() == 0 {
        return true;
    }
    let carried = header_pairs(reference);
    contains_pairs(&carried, &required)
}

} // verus!
