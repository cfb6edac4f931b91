//! The statistics side of the pipeline: the query URL for a country and a
//! day, and the extraction of the case count from the response body. The
//! JSON work goes through serde_json behind trusted wrappers; every decision
//! made on what came back is verified.

use crate::dates::{rfc3339_str, rfc3339_utc, valid_date, SimpleDate};
use vstd::prelude::*;
use vstd::string::*;

verus! {

/// Why a statistics response yields no reply.
#[derive(Clone, Copy, PartialEq, Eq, Structural, Debug)]
pub enum StatsError {
    /// The response status was outside the 2xx range.
    BadStatus,
    /// The response body was not well-formed JSON.
    BadBody,
    /// The body parsed, but held no case count where one was expected.
    NoData,
}

#[verifier::external_type_specification]
#[verifier::external_body]
pub struct ExJsonValue(serde_json::Value);

/// Whether a text is well-formed JSON, as serde_json's parser accepts it.
pub uninterp spec fn json_parses(s: Seq<char>) -> bool;

/// Relies on serde_json::from_str: whether parsing succeeds depends on the
/// text alone.
#[verifier::external_body]
fn parse_json(s: &str) -> (r: Option<serde_json::Value>)
    ensures
        r is Some <==> json_parses(s@),
{
    serde_json::from_str(s).ok()
}

/// The case count a statistics body yields: the integer "Cases" field (or
/// its lower-case spelling) of the first element of the JSON array, when the
/// body parses and holds one; later elements play no part.
pub uninterp spec fn cases_of(s: Seq<char>) -> Option<i64>;

/// Relies on serde_json::from_str, Value::get and Value::as_i64: the count
/// extracted from a body depends on the text alone, and only a text that
/// parses yields one.
#[verifier::external_body]
fn extract_cases(body: &str) -> (r: Option<i64>)
    ensures
        r == cases_of(body@),
        r is Some ==> json_parses(body@),
{
    let v: serde_json::Value = serde_json::from_str(body).ok()?;
    let first = v.get(0)?;
    let field = match first.get("Cases") {
        Some(f) => f,
        None => first.get("cases")?,
    };
    field.as_i64()
}

/// Extracts the case count from a statistics response body: the "Cases"
/// field (or its lower-case spelling) of the first element of the JSON
/// array. A text that is not JSON is the bad-body error; a text that parses
/// but holds no count where one is expected is the no-data error; a body
/// with a count yields exactly that count.
pub fn parse_stats_body(body: &str) -> (r: Result<i64, StatsError>)
    ensures
        !json_parses(body@) ==> r == Err::<i64, StatsError>(StatsError::BadBody),
        json_parses(body@) && cases_of(body@) is None ==> r == Err::<i64, StatsError>(
            StatsError::NoData,
        ),
        cases_of(body@) matches Some(n) ==> r == Ok::<i64, StatsError>(n),
        r matches Ok(n) ==> cases_of(body@) == Some(n) && json_parses(body@),
{
    match extract_cases(body) {
        Some(n) => Ok(n),
        None => {
            match parse_json(body) {
                Some(_) => Err(StatsError::NoData),
                None => Err(StatsError::BadBody),
            }
        },
    }
}

/// The statistics query URL for a country code and a day: the day's range
/// from 00:00:00 to 23:59:59 UTC at seconds precision.
pub open spec fn spec_stats_url(code: Seq<char>, d: SimpleDate) -> Seq<char> {
    "https://api.covid19api.com/country/"@ + code + "/status/confirmed/live?from="@ + rfc3339_str(
        d,
        0,
        0,
        0,
    ) + "&to="@ + rfc3339_str(d, 23, 59, 59)
}

/// Builds the statistics query URL for a country code and a day.
pub fn stats_url(code: &str, d: SimpleDate) -> (u: String)
    requires
        valid_date(d),
    ensures
        u@ == spec_stats_url(code@, d),
{
    let mut u = String::from_str("https://api.covid19api.com/country/");
    u.append(code);
    u.append("/status/confirmed/live?from=");
    let from = rfc3339_utc(d, 0, 0, 0);
    u.append(from.as_str());
    u.append("&to=");
    let to = rfc3339_utc(d, 23, 59, 59);
    u.append(to.as_str());
    proof {
        assert(u@ =~= spec_stats_url(code@, d));
    }
    u
}

} // verus!
