//! The rules of the match: which move beats which.

use crate::model::{PlayerAction, RoundResult};
use vstd::prelude::*;

verus! {

/// The beats-table. Paper wraps stone, stone blunts scissors, scissors cut
/// paper; equal moves draw. A request for a seat is no move, and a round with
/// one has no outcome.
pub open spec fn beats(mine: PlayerAction, theirs: PlayerAction) -> Option<RoundResult> {
    if !mine.is_move() || !theirs.is_move() {
        None
    } else if mine == theirs {
        Some(RoundResult::Draw)
    } else if (mine == PlayerAction::Paper && theirs == PlayerAction::Stone)
        || (mine == PlayerAction::Stone && theirs == PlayerAction::Scissors)
        || (mine == PlayerAction::Scissors && theirs == PlayerAction::Paper) {
        Some(RoundResult::Win)
    } else {
        Some(RoundResult::Lose)
    }
}

/// Hit points left after `damage`: never below zero.
pub open spec fn hit(hp: nat, damage: nat) -> nat {
    if hp >= damage {
        (hp - damage) as nat
    } else {
        0
    }
}

/// Decides a round between two actions, from the side of `my_action`.
pub fn paper_scissors_stone(my_action: PlayerAction, other_action: PlayerAction) -> (outcome:
    Option<RoundResult>)
    ensures
        outcome == beats(my_action, other_action),
{
    match my_action {
        PlayerAction::Paper => match other_action {
            PlayerAction::Paper => Some(RoundResult::Draw),
            PlayerAction::Scissors => Some(RoundResult::Lose),
            PlayerAction::Stone => Some(RoundResult::Win),
            PlayerAction::FindGame => None,
        },
        PlayerAction::Scissors => match other_action {
            PlayerAction::Paper => Some(RoundResult::Win),
            PlayerAction::Scissors => Some(RoundResult::Draw),
            PlayerAction::Stone => Some(RoundResult::Lose),
            PlayerAction::FindGame => None,
        },
        PlayerAction::Stone => match other_action {
            PlayerAction::Paper => Some(RoundResult::Lose),
            PlayerAction::Scissors => Some(RoundResult::Win),
            PlayerAction::Stone => Some(RoundResult::Draw),
            PlayerAction::FindGame => None,
        },
        PlayerAction::FindGame => None,
    }
}

/// The beats-table decides a round exactly when both actions are moves. Equal
/// moves draw; of two different moves one wins and the other loses, whichever
/// side one looks from.
pub proof fn lemma_beats_total_and_antisymmetric(mine: PlayerAction, theirs: PlayerAction)
    ensures
        beats(mine, theirs) is Some <==> mine.is_move() && theirs.is_move(),
        mine.is_move() && theirs.is_move() ==> beats(mine, theirs)->Some_0 == beats(
            theirs,
            mine,
        )->Some_0.reversed(),
        mine.is_move() && mine == theirs ==> beats(mine, theirs) == Some(RoundResult::Draw),
        mine.is_move() && theirs.is_move() && mine != theirs ==> beats(mine, theirs) != Some(
            RoundResult::Draw,
        ),
{
}

} // verus!
