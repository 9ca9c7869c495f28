//! Bindings to the outside crates the library leans on: identifier
//! parsing, formatting and generation from `uuid`, and the clock from
//! `chrono`. Each binding is trusted at exactly the contract written
//! here; everything built on top of them is verified.

use vstd::prelude::*;

verus! {

/// The 128-bit value that a string of hexadecimal digits with optional
/// hyphens denotes, if any. The outcome of `uuid`'s parser depends on
/// the characters of the input alone.
pub uninterp spec fn uuid_of(s: Seq<char>) -> Option<u128>;

/// The diagnostic text that `uuid`'s parser reports for a string it
/// does not accept; a function of the characters of the input alone.
pub uninterp spec fn uuid_parse_err_of(s: Seq<char>) -> Seq<char>;

/// The canonical hyphenated, lower-case rendering of a 128-bit
/// identifier value.
pub uninterp spec fn uuid_str_of(v: u128) -> Seq<char>;

/// Relies on `str::parse::<uuid::Uuid>` (`Uuid::parse_str`) and
/// `Uuid::as_u128`: whether a string parses, and to which big-endian
/// 128-bit value, is a function of the string alone; on failure the
/// error's rendering is too.
#[verifier::external_body]
pub fn parse_user_id(s: &str) -> (r: Result<u128, String>)
    ensures
        r is Ok <==> uuid_of(s@) is Some,
        r matches Ok(v) ==> uuid_of(s@) == Some(v),
        r matches Err(e) ==> e@ == uuid_parse_err_of(s@),
{
    match s.parse::<uuid::Uuid>() {
        Ok(u) => Ok(u.as_u128()),
        Err(e) => Err(e.to_string()),
    }
}

/// Relies on `Uuid::from_u128` (big-endian) and `Uuid`'s `Display`,
/// which renders the canonical hyphenated lower-case form; `uuid`'s
/// parser accepts that form and returns the same value.
#[verifier::external_body]
pub fn user_id_string(v: u128) -> (r: String)
    ensures
        r@ == uuid_str_of(v),
        r@.len() == 36,
        uuid_of(r@) == Some(v),
{
    uuid::Uuid::from_u128(v).to_string()
}

/// Relies on `Uuid::now_v7` and `Uuid::as_u128`: a fresh time-ordered
/// identifier. Nothing is promised of the value; uniqueness rests on
/// the generator's timestamp-plus-randomness construction and is
/// enforced by the store, not assumed here.
#[verifier::external_body]
pub fn generate_user_id() -> (r: u128) {
    uuid::Uuid::now_v7().as_u128()
}

/// Relies on `chrono::Utc::now` with `DateTime::timestamp` and
/// `DateTime::timestamp_subsec_nanos`: seconds since the Unix epoch
/// and the nanoseconds into that second, which stay below two billion
/// (they exceed one billion only while a leap second is represented).
#[verifier::external_body]
pub fn now_parts() -> (r: (i64, u32))
    ensures
        r.1 < 2_000_000_000,
{
    let t = chrono::Utc::now();
    (t.timestamp(), t.timestamp_subsec_nanos())
}

} // verus!
