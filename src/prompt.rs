//! Prompt styles that narrow what the assistant produces.
use vstd::prelude::*;

verus! {

/// A style of answer.
#[derive(Clone, Copy, Debug, PartialEq, Eq, Structural)]
pub enum Kind {
    Copilot,
    Command,
    Code,
    Url,
}

/// What each style asks for; no style adds words yet.
pub open spec fn kind_words(kind: Kind) -> Seq<char> {
    match kind {
        Kind::Copilot => ""@,
        Kind::Command => ""@,
        Kind::Code => ""@,
        Kind::Url => ""@,
    }
}

/// The instruction that opens a prompt of style `kind`.
pub fn prefix(kind: Kind) -> (r: String)
    ensures
        r@ == "Given the user request, only produce "@ + kind_words(kind),
{
    let words = match kind {
        Kind::Copilot => "",
        Kind::Command => "",
        Kind::Code => "",
        Kind::Url => "",
    };
    let mut r = String::from_str("Given the user request, only produce ");
    r.append(words);
    r
}

} // verus!
