//! Identifiers of connections and rooms: random UUIDs, kept as their 128-bit
//! value and written in the canonical hyphenated form.

use vstd::prelude::*;

verus! {

/// Whether `value` has the shape of a random (version 4) UUID: version nibble
/// 4 and variant bits `10`.
pub open spec fn is_random_uuid(value: u128) -> bool {
    (value >> 76u128) & 0xf == 4 && (value >> 62u128) & 0x3 == 2
}

/// Which of the 32 hex digits of a UUID stands at place `i` of its text; the
/// places 8, 13, 18 and 23 hold hyphens.
pub open spec fn hex_place(i: int) -> int {
    if i < 8 {
        i
    } else if i < 13 {
        i - 1
    } else if i < 18 {
        i - 2
    } else if i < 23 {
        i - 3
    } else {
        i - 4
    }
}

/// The `k`-th hex digit of `value`, counted from the most significant.
pub open spec fn hex_digit(value: u128, k: int) -> char {
    "0123456789abcdef"@[((value >> ((4 * (31 - k)) as u128)) & 0xf) as int]
}

/// The canonical text of the UUID `value`: 32 lower-case hex digits, most
/// significant first, in groups of 8, 4, 4, 4 and 12 with hyphens between.
pub open spec fn uuid_text_of(value: u128) -> Seq<char> {
    Seq::new(
        36,
        |i: int|
            if i == 8 || i == 13 || i == 18 || i == 23 {
                '-'
            } else {
                hex_digit(value, hex_place(i))
            },
    )
}

/// Whether `text` is the canonical text of some random UUID.
pub open spec fn is_connection_id(text: Seq<char>) -> bool {
    exists|value: u128| is_random_uuid(value) && text == #[trigger] uuid_text_of(value)
}

/// Calls `uuid::Uuid::new_v4` and hands out its value by `as_u128`. The value
/// comes from the system's random source, so it differs from call to call.
/// Believed: it has the version and variant bits of a random UUID.
#[verifier::external_body]
pub(crate) fn random_uuid() -> (value: u128)
    ensures
        is_random_uuid(value),
{
    uuid::Uuid::new_v4().as_u128()
}

/// Calls `uuid::Uuid::from_u128` and `to_string` on the result, which writes
/// the hyphenated lower-case form. Believed: the text is `uuid_text_of(value)`.
#[verifier::external_body]
pub(crate) fn uuid_text(value: u128) -> (text: String)
    ensures
        text@ == uuid_text_of(value),
{
    uuid::Uuid::from_u128(value).to_string()
}

/// The identifier, as text, of the connection or room whose UUID is `value`.
pub fn id_text(value: u128) -> (text: String)
    ensures
        text@ == uuid_text_of(value),
        text@.len() == 36,
{
    uuid_text(value)
}

/// A fresh connection identifier: the text of a random UUID. The server picks
/// it; no client can.
pub fn new_connection_id() -> (id: String)
    ensures
        is_connection_id(id@),
        id@.len() == 36,
{
    let value: u128 = random_uuid();
    id_text(value)
}

} // verus!
