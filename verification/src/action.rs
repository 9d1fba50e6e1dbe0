//! The requested state of the board's peripherals, and how it is read from the command line.

use vstd::prelude::*;
use vstd::string::*;
use crate::error::ErrorKind;

verus! {

/// What the caller asked for: every peripheral on, or every peripheral off.
#[derive(Clone, Copy, Debug, PartialEq, Eq, Structural)]
pub enum Action {
    On,
    Off,
}

/// The word that requests `Action::On`.
pub open spec fn on_word() -> Seq<char> {
    seq!['o', 'n']
}

/// The word that requests `Action::Off`.
pub open spec fn off_word() -> Seq<char> {
    seq!['o', 'f', 'f']
}

/// The action a single word names. The match is exact and case-sensitive.
pub open spec fn action_named(word: Seq<char>) -> Option<Action> {
    if word == on_word() {
        Some(Action::On)
    } else if word == off_word() {
        Some(Action::Off)
    } else {
        None
    }
}

/// The action a list of positional arguments requests: there must be exactly one
/// argument, and it must name an action.
pub open spec fn requested(tokens: Seq<String>) -> Option<Action> {
    if tokens.len() == 1 {
        action_named(tokens[0]@)
    } else {
        None
    }
}

/// Reads one word as an action.
pub fn parse_action(word: &str) -> (r: Result<Action, ErrorKind>)
    ensures
        action_named(word@) matches Some(a) ==> r == Ok::<Action, ErrorKind>(a),
        action_named(word@) is None ==> r == Err::<Action, ErrorKind>(ErrorKind::Usage),
{
    let n = word.unicode_len();
    if n == 2 && word.get_char(0) == 'o' && word.get_char(1) == 'n' {
        assert(word@ =~= on_word());
        Ok(Action::On)
    } else if n == 3 && word.get_char(0) == 'o' && word.get_char(1) == 'f' && word.get_char(2)
        == 'f' {
        assert(word@ =~= off_word());
        Ok(Action::Off)
    } else {
        Err(ErrorKind::Usage)
    }
}

/// Validates the positional arguments of the command line.
pub fn parse_arguments(tokens: &Vec<String>) -> (r: Result<Action, ErrorKind>)
    ensures
        requested(tokens@) matches Some(a) ==> r == Ok::<Action, ErrorKind>(a),
        requested(tokens@) is None ==> r == Err::<Action, ErrorKind>(ErrorKind::Usage),
{
    if tokens.len() == 1 {
        parse_action(tokens[0].as_str())
    } else {
        Err(ErrorKind::Usage)
    }
}

/// The two accepted words, as string literals, are the words of the model.
pub proof fn lemma_literal_words()
    ensures
        "on"@ == on_word(),
        "off"@ == off_word(),
{
    reveal_strlit("on");
    reveal_strlit("off");
    assert("on"@ =~= on_word());
    assert("off"@ =~= off_word());
}

} // verus!
