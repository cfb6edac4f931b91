//! The decisions of the bot's event loop, as functions from plain values to
//! plain values: what to do with one inbound message text, and what to make
//! of the statistics response. The loop around them only performs I/O: it
//! hands each inbound text in, performs the one fetch an `Action` asks for,
//! and sends the one reply an `Ok` result carries.

use crate::command::{
    command_prefix, extract_token, is_command, lemma_prefixed_text_is_command, token_of,
};
use crate::countries::{
    country_code, render_reply, resolve_country, spec_country_code, spec_render, spec_resolve,
    Country,
};
use crate::dates::{prev_day, spec_prev_day, valid_date, SimpleDate};
use crate::stats::{cases_of, json_parses, parse_stats_body, spec_stats_url, stats_url, StatsError};
use vstd::prelude::*;

verus! {

/// What the bot does with one inbound message text, before any network work.
pub enum Action {
    /// No reply is owed: the text is not a command, or its token is unknown.
    Ignore,
    /// Fetch this URL, then answer with `on_stats_response` for this country.
    Fetch { country: Country, url: String },
}

/// One rendered reply, together with the case count it substitutes.
pub struct Reply {
    pub country: Country,
    pub cases: i64,
    pub text: String,
}

/// The country a message text commands a query for: its token's table entry
/// when the text starts with the prefix, nothing otherwise.
pub open spec fn spec_command_country(text: Seq<char>) -> Option<Country> {
    if is_command(text) {
        spec_resolve(token_of(text))
    } else {
        None
    }
}

/// Decides what one inbound message text asks for, on a given current date.
/// A text that is no command, or whose token is not in the table, is
/// ignored; a recognised command yields the fetch of that country's
/// statistics URL for the previous day.
pub fn on_message(text: &str, today: SimpleDate) -> (r: Action)
    requires
        valid_date(today),
        !(today.year == 1 && today.month == 1 && today.day == 1),
    ensures
        !is_command(text@) ==> r is Ignore,
        is_command(text@) && spec_resolve(token_of(text@)) is None ==> r is Ignore,
        spec_command_country(text@) is None ==> r is Ignore,
        spec_command_country(text@) matches Some(c) ==> (r matches Action::Fetch {
            country,
            url,
        } && country == c && url@ == spec_stats_url(spec_country_code(c), spec_prev_day(today))),
{
    match extract_token(text) {
        None => Action::Ignore,
        Some(tok) => match resolve_country(tok.as_str()) {
            None => Action::Ignore,
            Some(c) => {
                let yesterday = prev_day(today);
                let code = country_code(c);
                let url = stats_url(code.as_str(), yesterday);
                Action::Fetch { country: c, url }
            },
        },
    }
}

/// A message whose text is exactly the prefix followed by a recognised
/// token commands a query for that token's country; together with the
/// contract of `on_message`, such a text yields exactly the fetch of that
/// country's statistics URL for the previous day.
pub proof fn lemma_exact_command_queries(token: Seq<char>, c: Country)
    requires
        spec_resolve(token) == Some(c),
    ensures
        spec_command_country(command_prefix() + token) == Some(c),
{
    lemma_prefixed_text_is_command(token);
}

/// Builds the reply for a case count the statistics call produced; verified
/// for every count.
pub fn reply_for_cases(c: Country, cases: i64) -> (rep: Reply)
    ensures
        rep.country == c,
        rep.cases == cases,
        rep.text@ == spec_render(c, cases as int),
{
    let text = render_reply(c, cases);
    Reply { country: c, cases, text }
}

/// Turns the statistics response for a country into the one reply owed —
/// rendering exactly the body's extracted case count — or into the error
/// that ends the pipeline with no reply: a status outside the 2xx range, a
/// body that is not JSON, or a body with no case count in it.
pub fn on_stats_response(c: Country, status: u16, body: &str) -> (r: Result<Reply, StatsError>)
    ensures
        !(200 <= status < 300) ==> r == Err::<Reply, StatsError>(StatsError::BadStatus),
        200 <= status < 300 && !json_parses(body@) ==> r == Err::<Reply, StatsError>(
            StatsError::BadBody,
        ),
        200 <= status < 300 && json_parses(body@) && cases_of(body@) is None ==> r == Err::<
            Reply,
            StatsError,
        >(StatsError::NoData),
        200 <= status < 300 && cases_of(body@) is Some ==> r is Ok,
        r matches Ok(rep) ==> 200 <= status < 300 && json_parses(body@) && cases_of(body@) == Some(
            rep.cases,
        ) && rep.country == c && rep.text@ == spec_render(c, rep.cases as int),
{
    if !(200 <= status && status < 300) {
        return Err(StatsError::BadStatus);
    }
    match parse_stats_body(body) {
        Err(e) => Err(e),
        Ok(n) => Ok(reply_for_cases(c, n)),
    }
}

} // verus!
