//! The decisions behind the git alias that runs this program.
use vstd::prelude::*;
use crate::text::{lemma_trimmed, trim, trimmed};

verus! {

/// The alias that a line of user input asks for: the line with its white
/// space trimmed. Nothing when that leaves it empty, and the user is asked
/// again.
pub fn alias_from_input(line: &str) -> (r: Option<String>)
    ensures
        r is Some <==> trimmed(line@).len() > 0,
        r matches Some(a) ==> a@ == trimmed(line@),
{
    let a = trim(line);
    proof {
        lemma_trimmed(line@, a@);
    }
    if a.unicode_len() == 0 {
        None
    } else {
        Some(a)
    }
}

/// The git configuration key of an alias: `alias.` and its name.
pub fn git_alias_key(alias: &str) -> (r: String)
    ensures
        r@ == "alias."@ + alias@,
{
    let mut key = String::from_str("alias.");
    key.append(alias);
    key
}

} // verus!
