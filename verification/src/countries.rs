//! The fixed two-entry country table: the surface token each command carries,
//! the internal code used for the statistics query and as template name, and
//! the localized reply templates.

use crate::numfmt::{dec_str_signed, i64_to_dec};
use vstd::prelude::*;
use vstd::string::*;

verus! {

/// The countries the bot knows.
#[derive(Clone, Copy, PartialEq, Eq, Structural, Debug)]
pub enum Country {
    Ukraine,
    Russia,
}

/// The surface token that selects Ukraine.
pub open spec fn ukraine_token() -> Seq<char> {
    "хохлов"@
}

/// The surface token that selects Russia.
pub open spec fn russia_token() -> Seq<char> {
    "москалів"@
}

/// The static two-entry table from surface token to country.
pub open spec fn spec_resolve(token: Seq<char>) -> Option<Country> {
    if token == ukraine_token() {
        Some(Country::Ukraine)
    } else if token == russia_token() {
        Some(Country::Russia)
    } else {
        None
    }
}

/// The internal identifier of a country, used both as the API country
/// segment and as the template name.
pub open spec fn spec_country_code(c: Country) -> Seq<char> {
    match c {
        Country::Ukraine => "ukraine"@,
        Country::Russia => "russia"@,
    }
}

/// The fixed reply template of a country: the text that stands before the
/// case count, placeholder at the end.
pub open spec fn template_prefix(c: Country) -> Seq<char> {
    match c {
        Country::Ukraine => "У хохлов, по последним данным всего заразилось "@,
        Country::Russia => "У москалів, за останніми даними заразилося всього "@,
    }
}

/// The rendered reply: the template with the case count substituted at its
/// single placeholder.
pub open spec fn spec_render(c: Country, cases: int) -> Seq<char> {
    template_prefix(c) + dec_str_signed(cases)
}

/// Looks a surface token up in the table.
pub fn resolve_country(token: &str) -> (r: Option<Country>)
    ensures
        r == spec_resolve(token@),
{
    let t = token.to_owned();
    if t == String::from_str("хохлов") {
        Some(Country::Ukraine)
    } else if t == String::from_str("москалів") {
        Some(Country::Russia)
    } else {
        None
    }
}

/// The internal identifier of a country as an owned string.
pub fn country_code(c: Country) -> (s: String)
    ensures
        s@ == spec_country_code(c),
{
    match c {
        Country::Ukraine => String::from_str("ukraine"),
        Country::Russia => String::from_str("russia"),
    }
}

/// Renders the reply text for a country and a case count.
pub fn render_reply(c: Country, cases: i64) -> (s: String)
    ensures
        s@ == spec_render(c, cases as int),
{
    let mut s = match c {
        Country::Ukraine => String::from_str("У хохлов, по последним данным всего заразилось "),
        Country::Russia => String::from_str("У москалів, за останніми даними заразилося всього "),
    };
    let d = i64_to_dec(cases);
    s.append(d.as_str());
    s
}

/// The command table is deterministic: each of the two recognised tokens
/// resolves to its fixed country, the two tokens are distinct, and each
/// country's code is fixed.
pub proof fn lemma_country_table()
    ensures
        spec_resolve(ukraine_token()) == Some(Country::Ukraine),
        spec_resolve(russia_token()) == Some(Country::Russia),
        ukraine_token() != russia_token(),
        spec_country_code(Country::Ukraine) == "ukraine"@,
        spec_country_code(Country::Russia) == "russia"@,
{
    reveal_strlit("хохлов");
    reveal_strlit("москалів");
    assert(ukraine_token().len() == 6);
    assert(russia_token().len() == 8);
}

} // verus!
