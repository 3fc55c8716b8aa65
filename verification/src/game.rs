//! One round of the game: a generated code, a guess buffer, and the verdict.
//!
//! A round holds an answer code of up to 16 symbols, each a lamp index below
//! 4, a guess buffer of the same shape, and a count of guesses entered so
//! far. The round is complete exactly when that count reaches the code
//! length; the verdict is an ordered, position-by-position comparison.

use vstd::prelude::*;
use vstd::pervasive::VecAdditionalExecFns;
use rand::rngs::SmallRng;
use crate::rng::gen_symbol;

verus! {

/// A round of the guessing game. The buffers always hold exactly 16 slots;
/// only the first `len` carry the code, the rest stay zero.
pub struct GuessGame {
    pub answer: Vec<u8>,
    pub guesses: Vec<u8>,
    pub len: u8,
    pub entered: usize,
}

/// The ordered, position-by-position comparison that judges a round: every
/// position below `len` of the answer matches the guess at that position.
pub open spec fn code_matches(answer: Seq<u8>, guesses: Seq<u8>, len: int) -> bool {
    forall|i: int| 0 <= i < len ==> answer[i] == guesses[i]
}

/// A buffer of 16 zero bytes, the blank state of either buffer of a round.
fn zero_buffer() -> (v: Vec<u8>)
    ensures
        v@.len() == 16,
        forall|i: int| 0 <= i < 16 ==> v@[i] == 0,
{
    let mut v: Vec<u8> = Vec::new();
    let mut i: usize = 0;
    while i < 16
        invariant
            i <= 16,
            v@.len() == i,
            forall|j: int| 0 <= j < i ==> v@[j] == 0,
        decreases 16 - i,
    {
        v.push(0);
        i = i + 1;
    }
    v
}

impl GuessGame {
    /// Shape of every round: full 16-slot buffers, a length within capacity,
    /// and no more guesses entered than the code is long.
    pub open spec fn wf(self) -> bool {
        &&& self.answer@.len() == 16
        &&& self.guesses@.len() == 16
        &&& self.len <= 16
        &&& self.entered <= self.len
    }

    /// The active prefix of the answer buffer: the code to be guessed.
    pub open spec fn answer_code(self) -> Seq<u8> {
        self.answer@.take(self.len as int)
    }

    /// Whether the round has collected as many guesses as the code is long.
    pub open spec fn complete(self) -> bool {
        self.entered == self.len
    }

    /// The verdict of the round: every position of the code matches the
    /// guess entered at that position.
    pub open spec fn correct_spec(self) -> bool {
        code_matches(self.answer@, self.guesses@, self.len as int)
    }

    /// Starts a round on a freshly drawn code of `len` symbols, each a lamp
    /// index below 4, with an empty guess buffer.
    pub fn new_code(len: u8, rng: &mut SmallRng) -> (game: GuessGame)
        requires
            len <= 16,
        ensures
            game.wf(),
            game.len == len,
            game.entered == 0,
            forall|i: int| 0 <= i < len ==> game.answer@[i] < 4,
            forall|i: int| len <= i < 16 ==> game.answer@[i] == 0,
            forall|i: int| 0 <= i < 16 ==> game.guesses@[i] == 0,
    {
        let mut answer = zero_buffer();
        let mut i: usize = 0;
        while i < len as usize
            invariant
                i <= len <= 16,
                answer@.len() == 16,
                forall|j: int| 0 <= j < i ==> answer@[j] < 4,
                forall|j: int| i <= j < 16 ==> answer@[j] == 0,
            decreases len as usize - i,
        {
            let num: u8 = gen_symbol(rng);
            answer.set(i, num);
            i = i + 1;
        }
        GuessGame { answer, guesses: zero_buffer(), len, entered: 0 }
    }

    /// Records one guess symbol at the next free slot. While the round is
    /// still short of the code length it returns no verdict; the call that
    /// brings the count up to the length returns the one verdict of the
    /// round. Calling it on a complete round is out of contract: the caller
    /// replaces or erases the round as soon as a verdict is out.
    pub fn enter_guess(&mut self, guess: u8) -> (verdict: Option<bool>)
        requires
            old(self).wf(),
            old(self).entered < old(self).len,
        ensures
            final(self).wf(),
            final(self).answer@ == old(self).answer@,
            final(self).len == old(self).len,
            final(self).entered == old(self).entered + 1,
            final(self).guesses@ == old(self).guesses@.update(old(self).entered as int, guess),
            verdict == (if old(self).entered + 1 == old(self).len {
                Some(final(self).correct_spec())
            } else {
                None::<bool>
            }),
    {
        self.guesses.set(self.entered, guess);
        self.entered = self.entered + 1;
        if self.entered == self.len as usize {
            Some(self.is_correct())
        } else {
            None
        }
    }

    /// Clears the guesses and the entered count, keeping the same answer:
    /// the round returns to the state it had right after construction.
    pub fn erase_guess(&mut self)
        requires
            old(self).wf(),
        ensures
            final(self).wf(),
            final(self).answer@ == old(self).answer@,
            final(self).len == old(self).len,
            final(self).entered == 0,
            forall|i: int| 0 <= i < 16 ==> final(self).guesses@[i] == 0,
    {
        self.entered = 0;
        self.guesses = zero_buffer();
    }

    /// Compares answer and guesses position by position up to the code
    /// length: the pure verdict of the round.
    pub fn is_correct(&self) -> (correct: bool)
        requires
            self.wf(),
        ensures
            correct == self.correct_spec(),
    {
        let mut i: usize = 0;
        while i < self.len as usize
            invariant
                self.wf(),
                i <= self.len,
                forall|j: int| 0 <= j < i ==> self.answer@[j] == self.guesses@[j],
            decreases self.len as usize - i,
        {
            if self.answer[i] != self.guesses[i] {
                return false;
            }
            i = i + 1;
        }
        true
    }

    /// The timed replay plan of the round: the lamp index to blink for each
    /// symbol of the code, in order. The caller performs the blinking and
    /// the fixed 200 ms gap between symbols.
    pub fn flash_plan(&self) -> (plan: Vec<u8>)
        requires
            self.wf(),
        ensures
            plan@ == self.answer_code(),
    {
        let mut plan: Vec<u8> = Vec::new();
        let mut i: usize = 0;
        while i < self.len as usize
            invariant
                self.wf(),
                i <= self.len,
                plan@ == self.answer@.take(i as int),
            decreases self.len as usize - i,
        {
            plan.push(self.answer[i]);
            proof {
                assert(self.answer@.take(i + 1) == self.answer@.take(i as int).push(self.answer@[i as int]));
            }
            i = i + 1;
        }
        plan
    }
}

/// Law: the verdict is a pure function of the answer buffer, the guess
/// buffer and the code length. Erasing the guesses and re-entering the same
/// symbols against the unchanged answer therefore reproduces the verdict.
pub proof fn lemma_verdict_is_pure(a: GuessGame, b: GuessGame)
    requires
        a.answer@ == b.answer@,
        a.guesses@ == b.guesses@,
        a.len == b.len,
    ensures
        a.correct_spec() == b.correct_spec(),
{
}

} // verus!
