//! Environment identifiers: random 128-bit values, stored as their canonical
//! text.

use vstd::prelude::*;

verus! {

/// The canonical text of an identifier, as `uuid::Uuid`'s `Display` writes
/// it: lower-case hexadecimal digits in five hyphenated groups.
pub uninterp spec fn uuid_text(uuid: u128) -> Seq<char>;

/// The identifier that `uuid::Uuid::parse_str` reads from a text, or `None`
/// where it rejects the text.
pub uninterp spec fn uuid_parse(text: Seq<char>) -> Option<u128>;

/// Calls `uuid::Uuid::new_v4`. The value is random: nothing is claimed of it.
#[verifier::external_body]
pub(crate) fn fresh_uuid() -> u128 {
    uuid::Uuid::new_v4().as_u128()
}

/// Calls `to_string` on the `uuid::Uuid` of the given value. Trusted: the
/// text depends on the value alone, and `parse_str` reads the same value
/// back from it.
#[verifier::external_body]
pub(crate) fn uuid_to_text(uuid: u128) -> (r: String)
    ensures
        r@ == uuid_text(uuid),
        uuid_parse(r@) == Some(uuid),
{
    uuid::Uuid::from_u128(uuid).to_string()
}

/// Calls `uuid::Uuid::parse_str`, and hands out the parser's message where
/// it rejects the text. Trusted: whether the text is accepted, and the value
/// read, depend on the text alone. Nothing is claimed of the message.
#[verifier::external_body]
pub(crate) fn parse_uuid(text: &str) -> (r: Result<u128, String>)
    ensures
        r matches Ok(uuid) ==> uuid_parse(text@) == Some(uuid),
        r is Err ==> uuid_parse(text@) is None,
{
    match uuid::Uuid::parse_str(text) {
        Ok(uuid) => Ok(uuid.as_u128()),
        Err(error) => Err(error.to_string()),
    }
}

} // verus!
