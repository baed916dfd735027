//! Selection of the flashcard to show next during a study session.

use vstd::prelude::*;
use crate::models::Flashcard;

verus! {

/// Relies on `rand::random_range`: the result of sampling `0..bound` with the
/// thread-local generator lies in that range; the range must be non-empty.
#[verifier::external_body]
fn random_index(bound: usize) -> (result: usize)
    requires
        0 < bound,
    ensures
        result < bound,
{
    rand::random_range(0..bound)
}

/// Draws a card at random from the pool for the study session.
///
/// The draw yields some element of the pool; only an empty pool yields
/// nothing.
pub fn select_random_flashcard(flashcards: &Vec<Flashcard>) -> (result: Option<Flashcard>)
    ensures
        result is Some <==> flashcards@.len() > 0,
        result matches Some(card) ==> exists|i: int|
            0 <= i < flashcards@.len() && card@ == flashcards@[i]@,
{
    if flashcards.len() == 0 {
        None
    } else {
        let picked = random_index(flashcards.len());
        Some(flashcards[picked].clone())
    }
}

} // verus!
