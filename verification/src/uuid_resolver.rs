//! Resolution of the agent identifier from the raw `agent_uuid` setting. A
//! malformed identifier never aborts startup: it is replaced by a freshly
//! generated one.

use vstd::prelude::*;
use vstd::string::StringExecFns;
use crate::strutil::{str_eq, is_hex_char};

verus! {

/// A canonical agent UUID: 36 characters, hyphens at the four fixed
/// positions, lowercase hexadecimal digits everywhere else.
pub open spec fn is_canonical_uuid(s: Seq<char>) -> bool {
    s.len() == 36 && forall|i: int|
        0 <= i < 36 ==> (if i == 8 || i == 13 || i == 18 || i == 23 {
            s[i] == '-'
        } else {
            is_hex_char(#[trigger] s[i])
        })
}

/// A hexadecimal digit of either case.
pub open spec fn is_hex_or_upper(c: char) -> bool {
    is_hex_char(c) || ('A' <= c && c <= 'F')
}

/// A hyphenated UUID of either case: the textual form whose parse is owed.
pub open spec fn is_hyphenated_uuid(s: Seq<char>) -> bool {
    s.len() == 36 && forall|i: int|
        0 <= i < 36 ==> (if i == 8 || i == 13 || i == 18 || i == 23 {
            s[i] == '-'
        } else {
            is_hex_or_upper(#[trigger] s[i])
        })
}

/// ASCII-lowercases the six uppercase hexadecimal digits, leaving every other
/// character unchanged.
pub open spec fn lower_hex_char(c: char) -> char {
    if c == 'A' {
        'a'
    } else if c == 'B' {
        'b'
    } else if c == 'C' {
        'c'
    } else if c == 'D' {
        'd'
    } else if c == 'E' {
        'e'
    } else if c == 'F' {
        'f'
    } else {
        c
    }
}

/// Character-wise hexadecimal lowercasing.
pub open spec fn lower_hex(s: Seq<char>) -> Seq<char> {
    s.map_values(|c: char| lower_hex_char(c))
}

/// The canonical lowercase hyphenated form of the UUID a string denotes, or
/// nothing when the string parses as no UUID.
pub uninterp spec fn uuid_canon_of(s: Seq<char>) -> Option<Seq<char>>;

/// Relies on `uuid::Uuid::parse_str`, which reads hexadecimal digits with
/// optional hyphens case-insensitively, and on `uuid::Uuid`'s `Display`,
/// which renders the canonical lowercase hyphenated form; in particular a
/// hyphenated UUID of either case parses to its own lowercase form.
#[verifier::external_body]
fn uuid_parse(s: &str) -> (r: Option<String>)
    ensures
        r is Some <==> uuid_canon_of(s@) is Some,
        r matches Some(c) ==> Some(c@) == uuid_canon_of(s@) && is_canonical_uuid(c@),
        r is None ==> !is_hyphenated_uuid(s@),
        r matches Some(c) ==> (is_hyphenated_uuid(s@) ==> c@ == lower_hex(s@)),
{
    match uuid::Uuid::parse_str(s) {
        Ok(u) => Some(u.to_string()),
        Err(_) => None,
    }
}

/// Relies on `uuid::Uuid::new_v4` and `Display`: a freshly generated random
/// UUID rendered in canonical lowercase hyphenated form. Nothing is assumed
/// about which UUID comes back.
#[verifier::external_body]
fn uuid_generate() -> (r: String)
    ensures
        is_canonical_uuid(r@),
{
    uuid::Uuid::new_v4().to_string()
}

/// How the agent identifier relates to the raw configuration value: the tags
/// `openstack` and `hash_ek` pass through; `generate` and any unparseable
/// value yield some canonical UUID; a parseable value yields its canonical
/// lowercase form.
pub open spec fn uuid_resolution(raw: Seq<char>, out: Seq<char>) -> bool {
    if raw == "openstack"@ {
        out == raw
    } else if raw == "hash_ek"@ {
        out == raw
    } else if raw == "generate"@ {
        is_canonical_uuid(out)
    } else {
        match uuid_canon_of(raw) {
            Some(c) => out == c && is_canonical_uuid(out),
            None => is_canonical_uuid(out),
        }
    }
}

/// Turns the raw `agent_uuid` setting into the agent identifier. This never
/// fails: a malformed identifier is replaced by a fresh random UUID.
pub fn get_uuid(agent_uuid_config: &str) -> (r: String)
    ensures
        uuid_resolution(agent_uuid_config@, r@),
{
    if str_eq(agent_uuid_config, "openstack") {
        return String::from_str("openstack");
    }
    if str_eq(agent_uuid_config, "hash_ek") {
        return String::from_str("hash_ek");
    }
    if str_eq(agent_uuid_config, "generate") {
        return uuid_generate();
    }
    match uuid_parse(agent_uuid_config) {
        Some(canon) => canon,
        None => uuid_generate(),
    }
}

} // verus!
