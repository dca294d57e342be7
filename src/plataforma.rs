use vstd::prelude::*;

verus! {

/// Relies on `uuid::Uuid::new_v4` and `Uuid::as_u128`: a random identifier.
/// Nothing is known of its value.
#[verifier::external_body]
pub(crate) fn nuevo_id() -> (r: u128) {
    uuid::Uuid::new_v4().as_u128()
}

/// Relies on `chrono::Utc::now` and `DateTime::timestamp_millis`: the current
/// time in milliseconds since the Unix epoch. Nothing is known of its value.
#[verifier::external_body]
pub(crate) fn ahora_ms() -> (r: i64) {
    chrono::Utc::now().timestamp_millis()
}

/// The simple (hexadecimal, unhyphenated) text of a UUID.
pub uninterp spec fn texto_uuid(id: u128) -> Seq<char>;

/// Relies on `uuid::Uuid::from_u128` and the `Display` of `Uuid::simple`:
/// the text depends on the identifier alone.
#[verifier::external_body]
pub(crate) fn uuid_simple(id: u128) -> (r: String)
    ensures
        r@ == texto_uuid(id),
{
    uuid::Uuid::from_u128(id).simple().to_string()
}

/// Relies on `chrono::Utc::now` and `DateTime::timestamp`: the current time
/// in seconds since the Unix epoch. Nothing is known of its value.
#[verifier::external_body]
pub(crate) fn ahora_s() -> (r: i64) {
    chrono::Utc::now().timestamp()
}

} // verus!
