//! Recognition of the one command the bot understands: a fixed prefix at the
//! start of a message text, followed immediately by a country token.

use vstd::prelude::*;
use vstd::string::*;

verus! {

/// The literal every command starts with.
pub open spec fn command_prefix() -> Seq<char> {
    "/шо_там_у_"@
}

/// Whether a message text is a command: it starts with the prefix.
pub open spec fn is_command(text: Seq<char>) -> bool {
    &&& text.len() >= command_prefix().len()
    &&& text.subrange(0, command_prefix().len() as int) == command_prefix()
}

/// The country token of a command: everything after the prefix.
pub open spec fn token_of(text: Seq<char>) -> Seq<char> {
    text.skip(command_prefix().len() as int)
}

/// Extracts the country token from a message text, exactly when the text
/// starts with the command prefix.
pub fn extract_token(text: &str) -> (r: Option<String>)
    ensures
        r matches Some(t) ==> is_command(text@) && t@ == token_of(text@),
        r is None ==> !is_command(text@),
{
    let prefix: &str = "/шо_там_у_";
    let plen = prefix.unicode_len();
    let n = text.unicode_len();
    if n < plen {
        return None;
    }
    let mut i: usize = 0;
    while i < plen
        invariant
            0 <= i <= plen,
            plen == command_prefix().len(),
            prefix@ == command_prefix(),
            n == text@.len(),
            n >= plen,
            forall|j: int| 0 <= j < i ==> text@[j] == command_prefix()[j],
        decreases plen - i,
    {
        if text.get_char(i) != prefix.get_char(i) {
            proof {
                let pl = command_prefix().len() as int;
                assert(text@.subrange(0, pl)[i as int] == text@[i as int]);
            }
            return None;
        }
        i += 1;
    }
    proof {
        assert(text@.subrange(0, command_prefix().len() as int) =~= command_prefix());
    }
    let tok = text.substring_char(plen, n);
    proof {
        assert(tok@ =~= token_of(text@));
    }
    Some(tok.to_owned())
}

/// A text that is exactly the prefix followed by any token is a command, and
/// its extracted token is that token; nothing else about the token matters.
pub proof fn lemma_prefixed_text_is_command(token: Seq<char>)
    ensures
        is_command(command_prefix() + token),
        token_of(command_prefix() + token) == token,
{
    let text = command_prefix() + token;
    assert(text.subrange(0, command_prefix().len() as int) =~= command_prefix());
    assert(text.skip(command_prefix().len() as int) =~= token);
}

} // verus!
