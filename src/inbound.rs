//! Inbound datagrams: decoded as UTF-8 and trimmed, for the diagnostic log.
use vstd::prelude::*;
use vstd::utf8::{decode_utf8, valid_utf8};

verus! {

/// What `str::trim` leaves of a text.
pub uninterp spec fn trim_of(s: Seq<char>) -> Seq<char>;

/// Relies on `core::str::from_utf8`: it accepts exactly the valid UTF-8 byte
/// sequences and then views them as the text they encode.
#[verifier::external_body]
fn utf8_text(bytes: &[u8]) -> (r: Option<&str>)
    ensures
        r is Some <==> valid_utf8(bytes@),
        r matches Some(t) ==> t@ == decode_utf8(bytes@),
{
    core::str::from_utf8(bytes).ok()
}

/// Relies on `str::trim`: leading and trailing whitespace removed; the empty
/// text stays empty.
#[verifier::external_body]
fn trimmed(s: &str) -> (r: &str)
    ensures
        r@ == trim_of(s@),
        s@.len() == 0 ==> r@.len() == 0,
{
    s.trim()
}

/// The text an inbound datagram carries, trimmed of surrounding whitespace;
/// `None` when the bytes are not valid UTF-8.
pub fn packet_text(bytes: &[u8]) -> (r: Option<String>)
    ensures
        r is Some <==> valid_utf8(bytes@),
        r matches Some(t) ==> t@ == trim_of(decode_utf8(bytes@)),
{
    match utf8_text(bytes) {
        Some(t) => {
            let s = trimmed(t);
            Some(s.to_owned())
        },
        None => None,
    }
}

} // verus!
