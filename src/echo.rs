//! Self-address probe: reads the caller's public address out of the reply
//! of an address-echo service, or falls back to the `"Unknown"` sentinel.

use vstd::prelude::*;

verus! {

/// What serde_json finds under `key` when it reads `text` as one JSON
/// value: the member's text where the value is an object whose member `key`
/// is a JSON string, and `None` otherwise (text that is not JSON, another
/// kind of value, a missing member, a member that is not a string).
pub uninterp spec fn json_string_member(text: Seq<char>, key: Seq<char>) -> Option<Seq<char>>;

/// Relies on serde_json::from_str (reads the text as one JSON value),
/// serde_json::Value::get with a `&str` key (the member of an object of that
/// name; `None` for a missing member or for any value but an object) and
/// serde_json::Value::as_str (the text of a JSON string; `None` for any other
/// value). The result depends on the two texts alone.
#[verifier::external_body]
fn string_member(text: &str, key: &str) -> (r: Option<String>)
    ensures
        json_string_member(text@, key@) == opt_text(r),
{
    match serde_json::from_str::<serde_json::Value>(text) {
        Ok(value) => match value.get(key) {
            Some(member) => member.as_str().map(String::from),
            None => None,
        },
        Err(_) => None,
    }
}

/// The text of an optional string.
pub open spec fn opt_text(s: Option<String>) -> Option<Seq<char>> {
    match s {
        Some(t) => Some(t@),
        None => None,
    }
}

/// The address reported when the lookup fails.
pub open spec fn unknown_address() -> Seq<char> {
    "Unknown"@
}

/// The member of the echo payload that holds the address.
pub open spec fn address_key() -> Seq<char> {
    "origin"@
}

/// An HTTP status in the success class.
pub open spec fn is_success(status: u16) -> bool {
    200 <= status < 300
}

/// The address read from the payload's address member, or the sentinel.
pub open spec fn address_or_sentinel(member: Option<Seq<char>>) -> Seq<char> {
    match member {
        Some(a) => a,
        None => unknown_address(),
    }
}

/// The public address that a reply (status and body) reports, where a reply
/// came at all.
pub open spec fn external_address_of(reply: Option<(u16, Seq<char>)>) -> Seq<char> {
    match reply {
        Some((status, body)) => if is_success(status) {
            address_or_sentinel(json_string_member(body, address_key()))
        } else {
            unknown_address()
        },
        None => unknown_address(),
    }
}

/// A reply of the address-echo service: its HTTP status and its body.
pub struct EchoReply {
    pub status: u16,
    pub body: String,
}

/// Status and body text of a reply, where there is one.
pub open spec fn reply_view(reply: Option<EchoReply>) -> Option<(u16, Seq<char>)> {
    match reply {
        Some(r) => Some((r.status, r.body@)),
        None => None,
    }
}

/// The address read from the payload's address member, or `"Unknown"`
/// where there is none.
pub fn address_or_unknown(member: Option<String>) -> (r: String)
    ensures
        r@ == address_or_sentinel(opt_text(member)),
{
    match member {
        Some(a) => a,
        None => "Unknown".to_owned(),
    }
}

/// The caller's public address as the echo service reported it.
///
/// `reply` is `None` where the request failed in transport. A reply whose
/// status is not a success, whose body is not JSON, or whose `origin` member
/// is missing or not a string gives `"Unknown"`; otherwise the member's text
/// is returned unvalidated.
pub fn external_address(reply: Option<EchoReply>) -> (r: String)
    ensures
        r@ == external_address_of(reply_view(reply)),
{
    match reply {
        Some(rep) => {
            if 200 <= rep.status && rep.status < 300 {
                address_or_unknown(string_member(rep.body.as_str(), "origin"))
            } else {
                "Unknown".to_owned()
            }
        },
        None => "Unknown".to_owned(),
    }
}

} // verus!
