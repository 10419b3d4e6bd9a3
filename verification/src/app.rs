//! The guessing-game state machine.
//!
//! A round moves `WaitingForGuess` -> `ShowingResult` -> (next round) ->
//! `WaitingForGuess`. While waiting, keystrokes edit the guess buffer and
//! the target can be toggled; submitting parses the buffer and scores the
//! guess against the chosen statistic within a tolerance of
//! `0.12 * sharpe_error`. Parsing and the tolerance comparison are
//! floating-point arithmetic and happen in the surrounding program; their
//! outcomes are handed to `submit_guess`, which is verified to apply them
//! correctly for every possible outcome: the score never decreases, a
//! failed parse changes nothing, and recalculation resets everything
//! transient while preserving the score and the target.

use vstd::prelude::*;
use crate::buffer;
use crate::dist::Stats;
use compact_str::CompactString;

verus! {

/// Phase of the current round: accepting keystrokes for a guess, or
/// showing how the submitted guess scored.
#[derive(Clone, Copy, PartialEq, Eq, Structural, Debug)]
pub enum GuessState {
    WaitingForGuess,
    ShowingResult,
}

/// Which statistic the player is scored against this round.
#[derive(Clone, Copy, PartialEq, Eq, Structural, Debug)]
pub enum GuessTarget {
    Sample,
    Actual,
}

/// The other target: `Sample` and `Actual` swap.
pub open spec fn toggled(t: GuessTarget) -> GuessTarget {
    match t {
        GuessTarget::Sample => GuessTarget::Actual,
        GuessTarget::Actual => GuessTarget::Sample,
    }
}

/// Toggling the target twice always lands back on the same target.
pub proof fn lemma_toggle_twice(t: GuessTarget)
    ensures
        toggled(toggled(t)) == t,
{
}

impl GuessTarget {
    /// Display name of the target.
    pub fn name(&self) -> (r: &'static str)
        ensures
            *self == GuessTarget::Sample ==> r@ == "Sample"@,
            *self == GuessTarget::Actual ==> r@ == "Actual"@,
    {
        match self {
            GuessTarget::Sample => "Sample",
            GuessTarget::Actual => "Actual",
        }
    }
}

/// A character the guess buffer accepts: an ASCII digit, the decimal
/// point, or the minus sign. Anything else is ignored; the buffer is not
/// validated further until it is parsed at submission.
pub open spec fn is_guess_char(c: char) -> bool {
    ||| '0' <= c && c <= '9'
    ||| c == '.'
    ||| c == '-'
}

/// State of one guessing round, plus what persists across rounds: the
/// score and the chosen target.
#[verifier::ext_equal]
pub struct Guess {
    pub state: GuessState,
    pub target: GuessTarget,
    /// Keystrokes accumulated so far, parsed only on submission.
    pub current_guess: CompactString,
    /// Correct guesses this session; never decreases, never reset.
    pub score: u32,
    /// The last submitted guess, as an IEEE-754 bit pattern; `None`
    /// until a round's first successful submission.
    pub last_guess: Option<u64>,
    /// Whether the last evaluated guess was within tolerance.
    pub guess_was_correct: bool,
}

/// The transient round fields of `post` are freshly reset while score and
/// target carry over from `pre`: how a guessing round looks right after a
/// recalculation.
pub open spec fn round_reset(pre: Guess, post: Guess) -> bool {
    &&& post.state == GuessState::WaitingForGuess
    &&& post.target == pre.target
    &&& buffer::buf_chars(post.current_guess) == Seq::<char>::empty()
    &&& post.score == pre.score
    &&& post.last_guess is None
    &&& !post.guess_was_correct
}

/// Everything of a round except the guess buffer agrees between `pre`
/// and `post`.
pub open spec fn same_round_except_buffer(pre: Guess, post: Guess) -> bool {
    &&& post.state == pre.state
    &&& post.target == pre.target
    &&& post.score == pre.score
    &&& post.last_guess == pre.last_guess
    &&& post.guess_was_correct == pre.guess_was_correct
}

impl Guess {
    /// A fresh session: waiting for the first guess against the sample
    /// statistic, empty buffer, score zero.
    pub fn new() -> (r: Guess)
        ensures
            r.state == GuessState::WaitingForGuess,
            r.target == GuessTarget::Sample,
            buffer::buf_chars(r.current_guess) == Seq::<char>::empty(),
            r.score == 0,
            r.last_guess is None,
            !r.guess_was_correct,
    {
        Guess {
            state: GuessState::WaitingForGuess,
            target: GuessTarget::Sample,
            current_guess: buffer::buf_new(),
            score: 0,
            last_guess: None,
            guess_was_correct: false,
        }
    }
}

/// What kind of session is running: plain display of the statistics, or
/// the guessing game with its embedded round state.
#[verifier::ext_equal]
pub enum AppMode {
    Display,
    Guessing(Guess),
}

/// The game controller: the current round's statistics and the mode with
/// its guess state. The pseudo-random generator that produces each round
/// lives with the surrounding program, which threads fresh statistics
/// into `recalc` and `next_round`.
#[verifier::ext_equal]
pub struct App {
    pub running: bool,
    pub stats: Stats,
    pub mode: AppMode,
}

impl App {
    /// The statistics invariant holds: the series has exactly `DAYS`
    /// elements.
    pub open spec fn wf(self) -> bool {
        self.stats.wf()
    }

    /// The round state, meaningful only in guessing mode.
    pub open spec fn the_guess(self) -> Guess
        recommends
            self.mode is Guessing,
    {
        match self.mode {
            AppMode::Guessing(g) => g,
            AppMode::Display => arbitrary(),
        }
    }

    /// The session score as the outside world sees it: zero in display
    /// mode.
    pub open spec fn spec_score(self) -> u32 {
        match self.mode {
            AppMode::Guessing(g) => g.score,
            AppMode::Display => 0,
        }
    }

    /// In guessing mode and accepting keystrokes.
    pub open spec fn waiting_for_guess(self) -> bool {
        match self.mode {
            AppMode::Guessing(g) => g.state == GuessState::WaitingForGuess,
            AppMode::Display => false,
        }
    }

    /// In guessing mode and showing the result of a submitted guess.
    pub open spec fn showing_result(self) -> bool {
        match self.mode {
            AppMode::Guessing(g) => g.state == GuessState::ShowingResult,
            AppMode::Display => false,
        }
    }

    /// The statistics of `post` were replaced by `stats` and the round
    /// state, if any, was reset for a new round; nothing else moved.
    pub open spec fn recalc_post(pre: App, post: App, stats: Stats) -> bool {
        &&& post.running == pre.running
        &&& post.stats == stats
        &&& match pre.mode {
            AppMode::Display => post.mode == pre.mode,
            AppMode::Guessing(g) => post.mode is Guessing && round_reset(g, post.the_guess()),
        }
    }

    /// A fresh session over the first generated round.
    pub fn new(mode: AppMode, stats: Stats) -> (r: App)
        requires
            stats.wf(),
        ensures
            r.running,
            r.stats == stats,
            r.mode == mode,
            r.wf(),
    {
        App { running: true, stats, mode }
    }

    /// Ends the session; everything else is left as it was.
    pub fn quit(&mut self)
        ensures
            !final(self).running,
            final(self).stats == old(self).stats,
            final(self).mode == old(self).mode,
            final(self).spec_score() >= old(self).spec_score(),
            old(self).wf() ==> final(self).wf(),
    {
        self.running = false;
    }

    /// Replaces the round: new statistics in, transient guess state
    /// reset, and the score untouched.
    pub fn recalc(&mut self, stats: Stats)
        requires
            stats.wf(),
        ensures
            App::recalc_post(*old(self), *final(self), stats),
            final(self).spec_score() == old(self).spec_score(),
            final(self).wf(),
    {
        self.stats = stats;
        match &mut self.mode {
            AppMode::Guessing(guess) => {
                guess.state = GuessState::WaitingForGuess;
                buffer::buf_clear(&mut guess.current_guess);
                guess.last_guess = None;
                guess.guess_was_correct = false;
            },
            AppMode::Display => {},
        }
    }

    /// Appends `c` to the guess buffer, if a guess is being typed and
    /// `c` is a digit, a decimal point, or a minus sign; any other
    /// character, and any other state, changes nothing.
    pub fn add_char_to_guess(&mut self, c: char)
        ensures
            !old(self).waiting_for_guess() || !is_guess_char(c) ==> *final(self) == *old(self),
            old(self).waiting_for_guess() && is_guess_char(c) ==> {
                &&& final(self).mode is Guessing
                &&& same_round_except_buffer(old(self).the_guess(), final(self).the_guess())
                &&& buffer::buf_chars(final(self).the_guess().current_guess)
                    == buffer::buf_chars(old(self).the_guess().current_guess).push(c)
            },
            final(self).running == old(self).running,
            final(self).stats == old(self).stats,
            final(self).spec_score() >= old(self).spec_score(),
            old(self).wf() ==> final(self).wf(),
    {
        match &mut self.mode {
            AppMode::Guessing(guess) => {
                if guess.state == GuessState::WaitingForGuess {
                    if ('0' <= c && c <= '9') || c == '.' || c == '-' {
                        buffer::buf_push(&mut guess.current_guess, c);
                    }
                }
            },
            AppMode::Display => {},
        }
    }

    /// Removes the last character of the guess buffer, if a guess is
    /// being typed and the buffer is non-empty.
    pub fn remove_char_from_guess(&mut self)
        ensures
            !old(self).waiting_for_guess() || buffer::buf_chars(
                old(self).the_guess().current_guess,
            ).len() == 0 ==> *final(self) == *old(self),
            old(self).waiting_for_guess() && buffer::buf_chars(
                old(self).the_guess().current_guess,
            ).len() > 0 ==> {
                &&& final(self).mode is Guessing
                &&& same_round_except_buffer(old(self).the_guess(), final(self).the_guess())
                &&& buffer::buf_chars(final(self).the_guess().current_guess)
                    == buffer::buf_chars(old(self).the_guess().current_guess).drop_last()
            },
            final(self).running == old(self).running,
            final(self).stats == old(self).stats,
            final(self).spec_score() >= old(self).spec_score(),
            old(self).wf() ==> final(self).wf(),
    {
        match &mut self.mode {
            AppMode::Guessing(guess) => {
                if guess.state == GuessState::WaitingForGuess {
                    let _ = buffer::buf_pop(&mut guess.current_guess);
                }
            },
            AppMode::Display => {},
        }
    }

    /// Flips the guess target between `Sample` and `Actual`, if a guess
    /// is being typed; nothing else moves.
    pub fn toggle_guess_target(&mut self)
        ensures
            !old(self).waiting_for_guess() ==> *final(self) == *old(self),
            old(self).waiting_for_guess() ==> {
                &&& final(self).mode is Guessing
                &&& final(self).the_guess().target == toggled(old(self).the_guess().target)
                &&& final(self).the_guess().state == old(self).the_guess().state
                &&& final(self).the_guess().current_guess == old(self).the_guess().current_guess
                &&& final(self).the_guess().score == old(self).the_guess().score
                &&& final(self).the_guess().last_guess == old(self).the_guess().last_guess
                &&& final(self).the_guess().guess_was_correct == old(
                    self,
                ).the_guess().guess_was_correct
            },
            final(self).running == old(self).running,
            final(self).stats == old(self).stats,
            final(self).spec_score() >= old(self).spec_score(),
            old(self).wf() ==> final(self).wf(),
    {
        match &mut self.mode {
            AppMode::Guessing(guess) => {
                if guess.state == GuessState::WaitingForGuess {
                    guess.target = match guess.target {
                        GuessTarget::Sample => GuessTarget::Actual,
                        GuessTarget::Actual => GuessTarget::Sample,
                    };
                }
            },
            AppMode::Display => {},
        }
    }

    /// Applies the outcome of submitting the guess buffer.
    ///
    /// The caller parses the buffer as a floating-point number and, on
    /// success, compares it against the chosen statistic within
    /// `0.12 * sharpe_error`; both are floating-point work the verified
    /// core does not perform. `parsed` is the parsed guess as an
    /// IEEE-754 bit pattern, `None` when the buffer does not parse;
    /// `within_tolerance` is the comparison's outcome and is only
    /// meaningful when `parsed` is `Some`. Whatever the outcome: a
    /// failed parse (or a submission outside guessing-and-waiting)
    /// changes nothing, and a successful one records the guess, scores
    /// one point exactly when it was within tolerance, and moves the
    /// round to `ShowingResult`, leaving buffer, target and statistics
    /// as they were.
    pub fn submit_guess(&mut self, parsed: Option<u64>, within_tolerance: bool)
        ensures
            !old(self).waiting_for_guess() || parsed is None ==> *final(self) == *old(self),
            old(self).waiting_for_guess() && parsed is Some ==> {
                &&& final(self).mode is Guessing
                &&& final(self).the_guess().state == GuessState::ShowingResult
                &&& final(self).the_guess().last_guess == parsed
                &&& final(self).the_guess().guess_was_correct == within_tolerance
                &&& final(self).the_guess().score == if within_tolerance && old(
                    self,
                ).the_guess().score < u32::MAX {
                    old(self).the_guess().score + 1
                } else {
                    old(self).the_guess().score as int
                }
                &&& final(self).the_guess().target == old(self).the_guess().target
                &&& final(self).the_guess().current_guess == old(self).the_guess().current_guess
            },
            final(self).running == old(self).running,
            final(self).stats == old(self).stats,
            final(self).spec_score() >= old(self).spec_score(),
            old(self).wf() ==> final(self).wf(),
    {
        match &mut self.mode {
            AppMode::Guessing(guess) => {
                if guess.state == GuessState::WaitingForGuess {
                    if let Some(bits) = parsed {
                        guess.last_guess = Some(bits);
                        if within_tolerance {
                            if guess.score < u32::MAX {
                                guess.score = guess.score + 1;
                            }
                            guess.guess_was_correct = true;
                        } else {
                            guess.guess_was_correct = false;
                        }
                        guess.state = GuessState::ShowingResult;
                    }
                }
            },
            AppMode::Display => {},
        }
    }

    /// Whether a result is on display and the game would advance to a
    /// new round; the surrounding program asks before spending random
    /// draws on statistics that would be thrown away.
    pub fn ready_for_next_round(&self) -> (r: bool)
        ensures
            r == self.showing_result(),
    {
        match &self.mode {
            AppMode::Guessing(guess) => guess.state == GuessState::ShowingResult,
            AppMode::Display => false,
        }
    }

    /// Advances to a new round over `stats`, but only from
    /// `ShowingResult`; in any other state, including while a guess is
    /// still being typed, nothing at all changes.
    pub fn next_round(&mut self, stats: Stats)
        requires
            stats.wf(),
        ensures
            !old(self).showing_result() ==> *final(self) == *old(self),
            old(self).showing_result() ==> App::recalc_post(*old(self), *final(self), stats),
            final(self).spec_score() == old(self).spec_score(),
            old(self).wf() ==> final(self).wf(),
    {
        if self.ready_for_next_round() {
            self.recalc(stats);
        }
    }

    /// The guess buffer's text, for display; empty in display mode.
    pub fn current_guess_text(&self) -> (r: String)
        ensures
            match self.mode {
                AppMode::Guessing(g) => r@ == buffer::buf_chars(g.current_guess),
                AppMode::Display => r@ == Seq::<char>::empty(),
            },
    {
        match &self.mode {
            AppMode::Guessing(guess) => buffer::buf_to_string(&guess.current_guess),
            AppMode::Display => String::new(),
        }
    }
}

} // verus!
