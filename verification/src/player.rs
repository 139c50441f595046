//! Whose turn it is.

use crate::cell::Mark;
use vstd::prelude::*;

verus! {

/// The player to move: always one of the two marks, never a blank.
#[derive(Clone, Copy, PartialEq, Eq, Structural, Debug)]
pub struct Player {
    pub variant: Mark,
}

/// A coin from `rand::random`, which draws it from the thread's generator.
/// Nothing is claimed of the value: it differs from call to call. The
/// generator takes its seed from the operating system when the thread first
/// uses it, and `rand` panics there if the system has none to give.
#[verifier::external_body]
fn toss() -> bool {
    rand::random()
}

impl Player {
    /// A player chosen by the toss of a coin.
    pub fn new() -> (player: Player)
        ensures
            player == Player::spec_decided_by(true) || player == Player::spec_decided_by(false),
    {
        Player::decided_by(toss())
    }

    /// The player that a coin picks to begin.
    pub open spec fn spec_decided_by(coin: bool) -> Player {
        Player {
            variant: if coin {
                Mark::Nought
            } else {
                Mark::Cross
            },
        }
    }

    /// The player that a coin picks to begin: noughts if it shows `true`,
    /// crosses if not.
    #[verifier::when_used_as_spec(spec_decided_by)]
    pub fn decided_by(coin: bool) -> (player: Player)
        ensures
            player == Player::spec_decided_by(coin),
    {
        Player {
            variant: match coin {
                true => Mark::Nought,
                false => Mark::Cross,
            },
        }
    }

    /// The mark of the player to move.
    pub fn current(&self) -> (mark: Mark)
        ensures
            mark == self.variant,
    {
        self.variant
    }

    /// Hands the turn to the other player.
    pub fn switch(&mut self)
        ensures
            final(self).variant == old(self).variant.other(),
    {
        self.variant = match self.variant {
            Mark::Nought => Mark::Cross,
            Mark::Cross => Mark::Nought,
        }
    }
}

} // verus!
