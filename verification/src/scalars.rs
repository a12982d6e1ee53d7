//! The scalar types whose text forms only their own crates can interpret:
//! dates and times (chrono), fixed-point decimals (rust_decimal), UUIDs
//! (uuid) and JSON values (serde_json). Each parse is trusted with a
//! contract that pins down exactly when it succeeds; the parsed values
//! themselves are opaque and are carried through to the writer.

use vstd::prelude::*;

verus! {

#[verifier::external_type_specification]
#[verifier::external_body]
pub struct ExDecimal(rust_decimal::Decimal);

#[verifier::external_type_specification]
#[verifier::external_body]
pub struct ExUuid(uuid::Uuid);

#[verifier::external_type_specification]
#[verifier::external_body]
pub struct ExValue(serde_json::Value);

#[verifier::external_type_specification]
#[verifier::external_body]
pub struct ExNaiveDate(chrono::NaiveDate);

#[verifier::external_type_specification]
#[verifier::external_body]
pub struct ExNaiveTime(chrono::NaiveTime);

#[verifier::external_type_specification]
#[verifier::external_body]
pub struct ExNaiveDateTime(chrono::NaiveDateTime);

/// Whether `s` is a decimal literal rust_decimal accepts. This depends on
/// the text alone.
pub uninterp spec fn decimal_wf(s: Seq<char>) -> bool;

/// Relies on rust_decimal's `Decimal::from_str`, a pure function of the
/// text: yields the denoted decimal exactly when the text is one.
/// The empty string is rejected.
#[verifier::external_body]
pub(crate) fn parse_decimal(s: &str) -> (r: Option<rust_decimal::Decimal>)
    ensures
        r is Some <==> decimal_wf(s@),
        s@.len() == 0 ==> r is None,
{
    core::str::FromStr::from_str(s).ok()
}

/// Whether `s` is a UUID text form the uuid crate accepts. This depends on
/// the text alone.
pub uninterp spec fn uuid_wf(s: Seq<char>) -> bool;

/// Relies on uuid's `Uuid::parse_str`, a pure function of the text: yields
/// the denoted UUID exactly when the text is one. The empty string is
/// rejected.
#[verifier::external_body]
pub(crate) fn parse_uuid(s: &str) -> (r: Option<uuid::Uuid>)
    ensures
        r is Some <==> uuid_wf(s@),
        s@.len() == 0 ==> r is None,
{
    uuid::Uuid::parse_str(s).ok()
}

/// Whether `s` is a JSON document serde_json accepts. This depends on the
/// text alone.
pub uninterp spec fn json_wf(s: Seq<char>) -> bool;

/// Relies on serde_json's `from_str::<Value>`, a pure function of the
/// text: yields the denoted JSON value exactly when the text is JSON.
/// The empty string is rejected.
#[verifier::external_body]
pub(crate) fn parse_json(s: &str) -> (r: Option<serde_json::Value>)
    ensures
        r is Some <==> json_wf(s@),
        s@.len() == 0 ==> r is None,
{
    serde_json::from_str(s).ok()
}

/// Whether `s` matches chrono's `%Y-%m-%d` date format. This depends on
/// the text alone.
pub uninterp spec fn date_wf(s: Seq<char>) -> bool;

/// Relies on chrono's `NaiveDate::parse_from_str` with `%Y-%m-%d`, a pure
/// function of the text: yields the denoted date exactly when the text
/// matches the format. The empty string is rejected.
#[verifier::external_body]
pub(crate) fn parse_date(s: &str) -> (r: Option<chrono::NaiveDate>)
    ensures
        r is Some <==> date_wf(s@),
        s@.len() == 0 ==> r is None,
{
    chrono::NaiveDate::parse_from_str(s, "%Y-%m-%d").ok()
}

/// Whether `s` matches chrono's `%H:%M:%S` time format. This depends on
/// the text alone.
pub uninterp spec fn time_wf(s: Seq<char>) -> bool;

/// Relies on chrono's `NaiveTime::parse_from_str` with `%H:%M:%S`, a pure
/// function of the text: yields the denoted time exactly when the text
/// matches the format. The empty string is rejected.
#[verifier::external_body]
pub(crate) fn parse_time(s: &str) -> (r: Option<chrono::NaiveTime>)
    ensures
        r is Some <==> time_wf(s@),
        s@.len() == 0 ==> r is None,
{
    chrono::NaiveTime::parse_from_str(s, "%H:%M:%S").ok()
}

/// Whether `s` matches chrono's `%Y-%m-%d %H:%M:%S` timestamp format.
/// This depends on the text alone.
pub uninterp spec fn timestamp_wf(s: Seq<char>) -> bool;

/// Relies on chrono's `NaiveDateTime::parse_from_str` with
/// `%Y-%m-%d %H:%M:%S`, a pure function of the text: yields the denoted
/// timestamp exactly when the text matches the format. The empty string
/// is rejected.
#[verifier::external_body]
pub(crate) fn parse_timestamp(s: &str) -> (r: Option<chrono::NaiveDateTime>)
    ensures
        r is Some <==> timestamp_wf(s@),
        s@.len() == 0 ==> r is None,
{
    chrono::NaiveDateTime::parse_from_str(s, "%Y-%m-%d %H:%M:%S").ok()
}

/// Whether `s` is a datetime-with-offset text that chrono's `FromStr` for
/// `DateTime<Utc>` accepts. This depends on the text alone.
pub uninterp spec fn timestamp_tz_wf(s: Seq<char>) -> bool;

/// Relies on chrono's `FromStr` for `DateTime<Utc>`, a pure function of
/// the text: succeeds exactly when the text carries a date, a time and an
/// offset in a form chrono reads, and yields that instant on the UTC
/// timeline as a naive datetime. The empty string is rejected.
#[verifier::external_body]
pub(crate) fn parse_timestamp_tz(s: &str) -> (r: Option<chrono::NaiveDateTime>)
    ensures
        r is Some <==> timestamp_tz_wf(s@),
        s@.len() == 0 ==> r is None,
{
    let d: Result<chrono::DateTime<chrono::Utc>, _> = core::str::FromStr::from_str(s);
    d.ok().map(|d| d.naive_utc())
}

} // verus!
