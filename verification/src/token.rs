//! The words that stand for enum variants on the wire, in snake case.

use crate::model::{FinishStatus, ParseError, PlayerAction, RequestType};
use vstd::prelude::*;

verus! {

/// An upper-case ASCII letter as its lower-case twin, any other character as
/// itself.
pub open spec fn ascii_lower(c: char) -> char {
    if 'A' <= c <= 'Z' {
        ((c as u8) + 32) as char
    } else {
        c
    }
}

/// Text with its ASCII letters in lower case.
pub open spec fn folded(text: Seq<char>) -> Seq<char> {
    Seq::new(text.len(), |i: int| ascii_lower(text[i]))
}

/// `c` with an ASCII letter in lower case.
fn to_lower(c: char) -> (lower: char)
    ensures
        lower == ascii_lower(c),
{
    if 'A' <= c && c <= 'Z' {
        ((c as u8) + 32) as char
    } else {
        c
    }
}

/// Whether `text` reads as `word` once the case of ASCII letters is ignored
/// in `text`.
fn reads_as(text: &str, word: &str) -> (same: bool)
    ensures
        same == (folded(text@) == word@),
{
    let length = text.unicode_len();
    if length != word.unicode_len() {
        return false;
    }
    let mut i: usize = 0;
    while i < length
        invariant
            length == text@.len(),
            length == word@.len(),
            i <= length,
            forall|j: int| 0 <= j < i ==> ascii_lower(text@[j]) == word@[j],
        decreases length - i,
    {
        if to_lower(text.get_char(i)) != word.get_char(i) {
            return false;
        }
        i += 1;
    }
    assert(folded(text@) =~= word@);
    true
}

/// Whether `text` is `word`, character by character.
fn is_word(text: &str, word: &str) -> (same: bool)
    ensures
        same == (text@ == word@),
{
    let length = text.unicode_len();
    if length != word.unicode_len() {
        return false;
    }
    let mut i: usize = 0;
    while i < length
        invariant
            length == text@.len(),
            length == word@.len(),
            i <= length,
            forall|j: int| 0 <= j < i ==> text@[j] == word@[j],
        decreases length - i,
    {
        if text.get_char(i) != word.get_char(i) {
            return false;
        }
        i += 1;
    }
    assert(text@ =~= word@);
    true
}

impl PlayerAction {
    /// The word for this action.
    pub open spec fn token(self) -> Seq<char> {
        match self {
            PlayerAction::FindGame => "find_game"@,
            PlayerAction::Paper => "paper"@,
            PlayerAction::Scissors => "scissors"@,
            PlayerAction::Stone => "stone"@,
        }
    }

    /// The action that `text` names: the one whose word it is, whatever the
    /// case of its ASCII letters.
    pub open spec fn named_by(text: Seq<char>) -> Option<PlayerAction> {
        if folded(text) == PlayerAction::FindGame.token() {
            Some(PlayerAction::FindGame)
        } else if folded(text) == PlayerAction::Paper.token() {
            Some(PlayerAction::Paper)
        } else if folded(text) == PlayerAction::Scissors.token() {
            Some(PlayerAction::Scissors)
        } else if folded(text) == PlayerAction::Stone.token() {
            Some(PlayerAction::Stone)
        } else {
            None
        }
    }

    /// Reads an action from its word, ignoring the case of ASCII letters.
    pub fn from_str(text: &str) -> (parsed: Result<PlayerAction, ParseError>)
        ensures
            parsed == match PlayerAction::named_by(text@) {
                Some(action) => Ok::<PlayerAction, ParseError>(action),
                None => Err::<PlayerAction, ParseError>(ParseError::VariantNotFound),
            },
    {
        if reads_as(text, "find_game") {
            Ok(PlayerAction::FindGame)
        } else if reads_as(text, "paper") {
            Ok(PlayerAction::Paper)
        } else if reads_as(text, "scissors") {
            Ok(PlayerAction::Scissors)
        } else if reads_as(text, "stone") {
            Ok(PlayerAction::Stone)
        } else {
            Err(ParseError::VariantNotFound)
        }
    }

    /// Writes the word for this action.
    pub fn to_string(&self) -> (text: String)
        ensures
            text@ == self.token(),
    {
        match self {
            PlayerAction::FindGame => String::from_str("find_game"),
            PlayerAction::Paper => String::from_str("paper"),
            PlayerAction::Scissors => String::from_str("scissors"),
            PlayerAction::Stone => String::from_str("stone"),
        }
    }
}

impl RequestType {
    /// The word for this kind of request.
    pub open spec fn token(self) -> Seq<char> {
        match self {
            RequestType::AdvanceState => "advance_state"@,
            RequestType::InspectState => "inspect_state"@,
        }
    }

    /// The kind of request that `text` names: the one whose word it is.
    pub open spec fn named_by(text: Seq<char>) -> Option<RequestType> {
        if text == RequestType::AdvanceState.token() {
            Some(RequestType::AdvanceState)
        } else if text == RequestType::InspectState.token() {
            Some(RequestType::InspectState)
        } else {
            None
        }
    }

    /// Reads a kind of request from its word.
    pub fn from_str(text: &str) -> (parsed: Result<RequestType, ParseError>)
        ensures
            parsed == match RequestType::named_by(text@) {
                Some(kind) => Ok::<RequestType, ParseError>(kind),
                None => Err::<RequestType, ParseError>(ParseError::VariantNotFound),
            },
    {
        if is_word(text, "advance_state") {
            Ok(RequestType::AdvanceState)
        } else if is_word(text, "inspect_state") {
            Ok(RequestType::InspectState)
        } else {
            Err(ParseError::VariantNotFound)
        }
    }
}

impl FinishStatus {
    /// The word for this status.
    pub open spec fn token(self) -> Seq<char> {
        match self {
            FinishStatus::Accept => "accept"@,
            FinishStatus::Reject => "reject"@,
        }
    }

    /// Writes the word for this status.
    pub fn to_string(&self) -> (text: String)
        ensures
            text@ == self.token(),
    {
        match self {
            FinishStatus::Accept => String::from_str("accept"),
            FinishStatus::Reject => String::from_str("reject"),
        }
    }
}

/// Every action is named by its own word, and by no other action's.
pub proof fn lemma_action_word_round_trip(action: PlayerAction)
    ensures
        PlayerAction::named_by(action.token()) == Some(action),
{
    reveal_strlit("find_game");
    reveal_strlit("paper");
    reveal_strlit("scissors");
    reveal_strlit("stone");
    assert(folded(action.token()) =~= action.token());
    assert("paper"@[0] != "stone"@[0]);
}

/// The case of ASCII letters makes no difference to the action that a word
/// names.
pub proof fn lemma_action_word_ignores_case(text: Seq<char>)
    ensures
        PlayerAction::named_by(folded(text)) == PlayerAction::named_by(text),
{
    assert(folded(folded(text)) =~= folded(text));
}

} // verus!
