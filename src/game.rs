use rand::Rng;
use vstd::prelude::*;

use crate::decimal::decimal;
use crate::decimal::write_decimal;

verus! {

/// The smallest target a session can be given.
pub const TARGET_MIN: u32 = 1;

/// The largest target a session can be given.
pub const TARGET_MAX: u32 = 100;

/// One game: a hidden target and the number of guesses evaluated so far.
#[derive(Clone, Copy, Debug)]
pub struct GameState {
    target_number: u32,
    attempts: u32,
}

/// The abstract state of a session.
pub struct GameView {
    pub target: nat,
    pub attempts: nat,
}

impl View for GameState {
    type V = GameView;

    closed spec fn view(&self) -> GameView {
        GameView { target: self.target_number as nat, attempts: self.attempts as nat }
    }
}

/// A session whose target lies in the allowed range.
pub open spec fn target_in_range(target: nat) -> bool {
    TARGET_MIN <= target <= TARGET_MAX
}

/// The state after one guess: the target stays, the count goes up by one.
pub open spec fn step(s: GameView, g: u32) -> GameView {
    GameView { target: s.target, attempts: s.attempts + 1 }
}

/// The state after the guesses `gs`, made in order.
pub open spec fn play(s: GameView, gs: Seq<u32>) -> GameView
    decreases gs.len(),
{
    if gs.len() == 0 {
        s
    } else {
        play(step(s, gs[0]), gs.drop_first())
    }
}

/// The reply to guess `g` against `target`, when it is guess number `attempts`.
pub open spec fn guess_message(g: nat, target: nat, attempts: nat) -> Seq<char> {
    if g < target {
        "Too low! Attempt "@ + decimal(attempts)
    } else if g > target {
        "Too high! Attempt "@ + decimal(attempts)
    } else {
        "Congratulations! You guessed the number in "@ + decimal(attempts) + " attempts!"@
    }
}

/// After any sequence of guesses the count has grown by exactly the number of
/// guesses made, and the target has not moved.
pub proof fn lemma_attempts_count_guesses(s: GameView, gs: Seq<u32>)
    ensures
        play(s, gs) == (GameView { target: s.target, attempts: s.attempts + gs.len() }),
    decreases gs.len(),
{
    if gs.len() > 0 {
        lemma_attempts_count_guesses(step(s, gs[0]), gs.drop_first());
    }
}

/// Relies on rand's `thread_rng().gen_range(low..=high)`: a value in
/// `[low, high]`, which panics only on an empty range.
#[verifier::external_body]
fn draw_between(low: u32, high: u32) -> (r: u32)
    requires
        low <= high,
    ensures
        low <= r <= high,
{
    rand::thread_rng().gen_range(low..=high)
}

impl GameState {
    /// Starts a fresh session with a target drawn at random from the allowed
    /// range and no attempts made.
    pub fn new() -> (r: Self)
        ensures
            target_in_range(r@.target),
            r@.attempts == 0,
    {
        let target_number = draw_between(TARGET_MIN, TARGET_MAX);
        GameState { target_number, attempts: 0 }
    }

    /// Starts a fresh session with the given target; `None` when the target
    /// lies outside the allowed range.
    pub fn with_target(target: u32) -> (r: Option<Self>)
        ensures
            r is Some <==> target_in_range(target as nat),
            r is Some ==> r->0@ == (GameView { target: target as nat, attempts: 0 }),
    {
        if TARGET_MIN <= target && target <= TARGET_MAX {
            Some(GameState { target_number: target, attempts: 0 })
        } else {
            None
        }
    }

    /// The number of guesses evaluated so far.
    pub fn attempts(&self) -> (r: u32)
        ensures
            r == self@.attempts,
    {
        self.attempts
    }

    /// Evaluates one guess: counts it, then reports whether it was below,
    /// above or equal to the target, with the new count.
    pub fn guess(&mut self, guess: u32) -> (r: (String, u32))
        requires
            old(self)@.attempts < u32::MAX,
        ensures
            final(self)@ == step(old(self)@, guess),
            r.1 == final(self)@.attempts,
            r.0@ == guess_message(guess as nat, old(self)@.target, r.1 as nat),
            guess < old(self)@.target ==> "Too low"@.is_prefix_of(r.0@),
            guess > old(self)@.target ==> "Too high"@.is_prefix_of(r.0@),
            guess == old(self)@.target ==> "Congratulations"@.is_prefix_of(r.0@),
    {
        self.attempts = self.attempts + 1;
        let mut message: String;
        if guess < self.target_number {
            message = String::from_str("Too low! Attempt ");
            write_decimal(self.attempts, &mut message);
            proof {
                reveal_strlit("Too low! Attempt ");
                reveal_strlit("Too low");
                assert("Too low"@ =~= message@.subrange(0, 7));
            }
        } else if guess > self.target_number {
            message = String::from_str("Too high! Attempt ");
            write_decimal(self.attempts, &mut message);
            proof {
                reveal_strlit("Too high! Attempt ");
                reveal_strlit("Too high");
                assert("Too high"@ =~= message@.subrange(0, 8));
            }
        } else {
            message = String::from_str("Congratulations! You guessed the number in ");
            write_decimal(self.attempts, &mut message);
            message.append(" attempts!");
            proof {
                reveal_strlit("Congratulations! You guessed the number in ");
                reveal_strlit("Congratulations");
                assert("Congratulations"@ =~= message@.subrange(0, 15));
            }
        }
        (message, self.attempts)
    }
}

} // verus!
