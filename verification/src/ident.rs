//! Correlation ids and the names derived from them. Ids are 128-bit numbers
//! here; reading, writing and drawing them is the work of the `uuid` crate.

use vstd::prelude::*;
use uuid::Uuid;
use crate::hls::joined;
use crate::storage::upload_prefix;

verus! {

/// The id that a text spells in one of the accepted ways of writing a UUID,
/// as `Uuid::parse_str` reads it; `None` for any other text.
pub uninterp spec fn parsed_uuid(text: Seq<char>) -> Option<u128>;

/// The character that writes a number below sixteen in hexadecimal, in lower
/// case.
pub open spec fn hex_digit(n: nat) -> char {
    if n == 0 {
        '0'
    } else if n == 1 {
        '1'
    } else if n == 2 {
        '2'
    } else if n == 3 {
        '3'
    } else if n == 4 {
        '4'
    } else if n == 5 {
        '5'
    } else if n == 6 {
        '6'
    } else if n == 7 {
        '7'
    } else if n == 8 {
        '8'
    } else if n == 9 {
        '9'
    } else if n == 10 {
        'a'
    } else if n == 11 {
        'b'
    } else if n == 12 {
        'c'
    } else if n == 13 {
        'd'
    } else if n == 14 {
        'e'
    } else {
        'f'
    }
}

/// A number without the last `places` of its hexadecimal digits.
pub open spec fn without_low_digits(n: nat, places: nat) -> nat
    decreases places,
{
    if places == 0 {
        n
    } else {
        without_low_digits(n / 16, (places - 1) as nat)
    }
}

/// The hexadecimal digit of `id` at place `k`, counted from the most
/// significant of its thirty-two digits.
pub open spec fn hex_place(id: u128, k: int) -> nat
    recommends
        0 <= k < 32,
{
    without_low_digits(id as nat, (31 - k) as nat) % 16
}

/// The number of hyphens that stand before position `p` of a written id.
pub open spec fn hyphens_before(p: int) -> int {
    (if p > 8 {
        1int
    } else {
        0
    }) + (if p > 13 {
        1int
    } else {
        0
    }) + (if p > 18 {
        1int
    } else {
        0
    }) + (if p > 23 {
        1int
    } else {
        0
    })
}

/// An id as it is written: its thirty-two hexadecimal digits in lower case,
/// the most significant first, in groups of eight, four, four, four and
/// twelve with a hyphen between two groups.
pub open spec fn hyphenated(id: u128) -> Seq<char> {
    Seq::new(
        36,
        |p: int|
            if p == 8 || p == 13 || p == 18 || p == 23 {
                '-'
            } else {
                hex_digit(hex_place(id, p - hyphens_before(p)))
            },
    )
}

/// Read an id with `Uuid::parse_str`. The result is named, not described:
/// the accepted ways of writing an id are the crate's.
#[verifier::external_body]
fn parse_uuid(text: &str) -> (r: Option<u128>)
    ensures
        r == parsed_uuid(text@),
{
    Uuid::parse_str(text).ok().map(|id| id.as_u128())
}

/// Draw a random id with `Uuid::new_v4`. Nothing is promised of it.
#[verifier::external_body]
fn fresh_uuid() -> u128 {
    Uuid::new_v4().as_u128()
}

/// Write an id as `Uuid` displays it: in the hyphenated form, in lower case,
/// the digits being those of the id's sixteen bytes from the first to the
/// last.
#[verifier::external_body]
fn uuid_text(id: u128) -> (r: String)
    ensures
        r@ == hyphenated(id),
{
    Uuid::from_u128(id).to_string()
}

/// The stem of a file name as `Path::file_stem` gives it, where it is text.
/// Which part of a name its stem is differs between platforms, with what
/// separates the components of a path. On every platform a stem is a file
/// name or what stands in it before its last `.`, and never empty.
#[verifier::external_body]
fn file_stem(filename: &str) -> (r: Option<String>)
    ensures
        r matches Some(stem) ==> stem@.len() > 0,
{
    std::path::Path::new(filename).file_stem().and_then(|stem| stem.to_str()).map(String::from)
}

/// The id that a header spells, if there is a header and it spells one.
pub open spec fn supplied_id(header: Option<&str>) -> Option<u128> {
    match header {
        Some(text) => parsed_uuid(text@),
        None => None,
    }
}

/// The id of an upload, given the header by which the caller may have
/// supplied one: that id where the header spells one, and otherwise, and only
/// then, a random id drawn for it.
pub fn resolve_upload_id(header: Option<&str>) -> (r: u128)
    ensures
        supplied_id(header) is Some ==> Some(r) == supplied_id(header),
{
    let supplied = match header {
        Some(text) => parse_uuid(text),
        None => None,
    };
    match supplied {
        Some(id) => id,
        None => fresh_uuid(),
    }
}

/// Read an id from a text, as the address of a progress stream gives it.
pub fn read_upload_id(text: &str) -> (r: Option<u128>)
    ensures
        r == parsed_uuid(text@),
{
    parse_uuid(text)
}

/// Write an id.
pub fn write_upload_id(id: u128) -> (r: String)
    ensures
        r@ == hyphenated(id),
{
    uuid_text(id)
}

/// A text is the key prefix of a package: a stem that is not empty, a
/// separator, and an id as it is written.
pub open spec fn is_package_prefix(prefix: Seq<char>) -> bool {
    exists|stem: Seq<char>, id: u128| stem.len() > 0 && prefix == joined(stem, hyphenated(id))
}

/// The stem under which a package is stored: the given one, or `audio` where
/// there is none.
pub open spec fn stem_or_default(stem: Option<String>) -> Seq<char> {
    match stem {
        Some(s) => s@,
        None => "audio"@,
    }
}

/// The key prefix for a package: the given stem, or `audio` where there is
/// none, then the unique part.
pub fn prefix_for(stem: Option<String>, unique: &str) -> (r: String)
    ensures
        r@ == joined(stem_or_default(stem), unique@),
{
    match stem {
        Some(s) => upload_prefix(s.as_str(), unique),
        None => upload_prefix("audio", unique),
    }
}

/// A key prefix for the package of the file `filename`: the stem of the name,
/// or `audio` where it has none, then a separator and a random id as it is
/// written. Which stem and which id is not said; the stem is not empty.
pub fn new_prefix(filename: &str) -> (r: String)
    ensures
        is_package_prefix(r@),
{
    let stem = file_stem(filename);
    let id = fresh_uuid();
    let unique = uuid_text(id);
    let ghost stem_text = stem_or_default(stem);
    let prefix = prefix_for(stem, unique.as_str());
    proof {
        reveal_strlit("audio");
        assert(stem_text.len() > 0);
        assert(prefix@ == joined(stem_text, hyphenated(id)));
    }
    prefix
}

} // verus!
