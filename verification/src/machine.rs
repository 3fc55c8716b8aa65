//! The game orchestrator: what each press and each idle tick decide.
//!
//! The hardware loop owns the pins and the clock; this machine owns every
//! decision. Each registered press is fed in as one guess symbol; the
//! machine records it in the active round, judges completed rounds, keeps
//! the level parameters, and reaches the terminal win state at the final
//! length, after which nothing it holds ever changes again.

use vstd::prelude::*;
use rand::rngs::SmallRng;
use crate::game::GuessGame;
use crate::rng::rng_from_seed;
use crate::seed::derive_seed;

verus! {

/// The difficulty parameters the orchestrator keeps between rounds:
/// current code length, inter-symbol replay delay in milliseconds, and how
/// many rounds are left to win at the current length.
pub struct GameParams {
    pub len: u8,
    pub delay: u16,
    pub rounds: u8,
}

impl GameParams {
    /// Every reachable parameter state: lengths run from the starting 4 up
    /// to the final 15, a level takes 1 to 5 more rounds, and the delay
    /// starts at 500 ms and falls in 80 ms steps to the 20 ms floor.
    pub open spec fn wf(self) -> bool {
        &&& 4 <= self.len <= 15
        &&& 1 <= self.rounds <= 5
        &&& self.delay % 80 == 20
        &&& self.delay <= 500
    }

    /// The replay delay of the next level: 80 ms shorter, unless the 20 ms
    /// floor is already reached.
    pub open spec fn next_delay(self) -> u16 {
        if self.delay > 20 {
            (self.delay - 80) as u16
        } else {
            self.delay
        }
    }

    /// The parameters at startup.
    pub fn start() -> (params: GameParams)
        ensures
            params.wf(),
            params.len == 4,
            params.delay == 500,
            params.rounds == 5,
    {
        GameParams { len: 4, delay: 500, rounds: 5 }
    }

    /// Applied after a correctly guessed round: one more round of the level
    /// is done; when it was the last one, the next level begins with one
    /// more symbol, a full count of rounds, and a shorter replay delay.
    /// Returns whether a new level begins.
    pub fn after_correct(&mut self) -> (leveled: bool)
        requires
            old(self).wf(),
            old(self).len < 15,
        ensures
            final(self).wf(),
            leveled == (old(self).rounds == 1),
            old(self).rounds > 1 ==> final(self).len == old(self).len
                && final(self).delay == old(self).delay
                && final(self).rounds == old(self).rounds - 1,
            old(self).rounds == 1 ==> final(self).len == old(self).len + 1
                && final(self).delay == old(self).next_delay()
                && final(self).rounds == 5,
    {
        self.rounds = self.rounds - 1;
        if self.rounds == 0 {
            self.rounds = 5;
            self.len = self.len + 1;
            if self.delay > 20 {
                self.delay = self.delay - 80;
            }
            true
        } else {
            false
        }
    }
}

/// What one registered press decided.
#[derive(Clone, Copy, PartialEq, Eq, Structural, Debug)]
pub enum PressOutcome {
    /// The machine is in the terminal win state: the press changed nothing.
    Ignored,
    /// The guess was recorded and the round is still collecting.
    Pending,
    /// The round completed with the right code. `leveled` says whether this
    /// also finished the level, so that the caller celebrates and replays
    /// at the new length and delay.
    Correct { leveled: bool },
    /// The round completed with a wrong code: the guesses were erased and
    /// the same answer is to be replayed and retried.
    Incorrect,
    /// The round completed the final level: the machine is now in the
    /// terminal win state and processes no further guesses.
    Won,
}

/// The orchestrator. The hardware loop reports each registered press and
/// each idle tick; the machine holds the active round, the level
/// parameters, the idle counter, the win flag, and the generator that
/// draws new codes.
pub struct Machine {
    pub game: GuessGame,
    pub params: GameParams,
    pub idle: u16,
    pub won: bool,
    pub rng: SmallRng,
}

impl Machine {
    /// Every reachable machine state: the round matches the parameters
    /// while play goes on, a round in play is never already complete, and
    /// the win state is entered exactly at the final length.
    pub open spec fn wf(self) -> bool {
        &&& self.params.wf()
        &&& self.game.wf()
        &&& !self.won ==> self.game.len == self.params.len && self.game.entered < self.game.len
        &&& !self.won ==> self.params.len < 15
        &&& self.won ==> self.params.len == 15
        &&& self.idle <= 1000
    }

    /// The guess buffer of the active round after recording `button`.
    pub open spec fn guesses_after(self, button: u8) -> Seq<u8> {
        self.game.guesses@.update(self.game.entered as int, button)
    }

    /// Whether the next recorded guess completes the active round.
    pub open spec fn on_last_guess(self) -> bool {
        self.game.entered + 1 == self.game.len
    }

    /// The verdict that completing the active round with `button` yields.
    pub open spec fn verdict(self, button: u8) -> bool {
        crate::game::code_matches(self.game.answer@, self.guesses_after(button), self.game.len as int)
    }

    /// Starts the whole game from one raw noise sample: derives the seed,
    /// seeds the generator, and draws the first code at the starting
    /// parameters.
    pub fn new(noise: u64) -> (machine: Machine)
        ensures
            machine.wf(),
            machine.params.len == 4,
            machine.params.delay == 500,
            machine.params.rounds == 5,
            machine.idle == 0,
            !machine.won,
            machine.game.len == 4,
            machine.game.entered == 0,
            forall|i: int| 0 <= i < 4 ==> machine.game.answer@[i] < 4,
            forall|i: int| 0 <= i < 16 ==> machine.game.guesses@[i] == 0,
    {
        let seed: u64 = derive_seed(noise);
        let mut rng = rng_from_seed(seed);
        let game = GuessGame::new_code(4, &mut rng);
        Machine { game, params: GameParams::start(), idle: 0, won: false, rng }
    }

    /// Feeds one registered press of `button` into the game. In the win
    /// state nothing changes. Otherwise the idle counter restarts and the
    /// press is recorded as a guess: short rounds stay pending; a wrong
    /// completed round is erased for a retry of the same answer; a right
    /// one advances the level parameters and either draws a fresh code or,
    /// at the final length, locks the machine into the win state.
    pub fn step_press(&mut self, button: u8) -> (outcome: PressOutcome)
        requires
            old(self).wf(),
            button < 4,
        ensures
            final(self).wf(),
            old(self).won ==> *final(self) == *old(self) && outcome == PressOutcome::Ignored,
            !old(self).won && !old(self).on_last_guess() ==> {
                &&& outcome == PressOutcome::Pending
                &&& final(self).game.answer@ == old(self).game.answer@
                &&& final(self).game.len == old(self).game.len
                &&& final(self).game.guesses@ == old(self).guesses_after(button)
                &&& final(self).game.entered == old(self).game.entered + 1
                &&& final(self).params == old(self).params
                &&& !final(self).won
                &&& final(self).idle == 0
            },
            !old(self).won && old(self).on_last_guess() && !old(self).verdict(button) ==> {
                &&& outcome == PressOutcome::Incorrect
                &&& final(self).game.answer@ == old(self).game.answer@
                &&& final(self).game.len == old(self).game.len
                &&& final(self).game.entered == 0
                &&& (forall|i: int| 0 <= i < 16 ==> final(self).game.guesses@[i] == 0)
                &&& final(self).params == old(self).params
                &&& !final(self).won
                &&& final(self).idle == 0
            },
            !old(self).won && old(self).on_last_guess() && old(self).verdict(button)
                && old(self).params.rounds > 1 ==> {
                &&& outcome == (PressOutcome::Correct { leveled: false })
                &&& final(self).params.len == old(self).params.len
                &&& final(self).params.delay == old(self).params.delay
                &&& final(self).params.rounds == old(self).params.rounds - 1
                &&& final(self).game.len == final(self).params.len
                &&& final(self).game.entered == 0
                &&& (forall|i: int| 0 <= i < final(self).game.len ==> final(self).game.answer@[i] < 4)
                &&& (forall|i: int| 0 <= i < 16 ==> final(self).game.guesses@[i] == 0)
                &&& !final(self).won
                &&& final(self).idle == 0
            },
            !old(self).won && old(self).on_last_guess() && old(self).verdict(button)
                && old(self).params.rounds == 1 && old(self).params.len + 1 < 15 ==> {
                &&& outcome == (PressOutcome::Correct { leveled: true })
                &&& final(self).params.len == old(self).params.len + 1
                &&& final(self).params.delay == old(self).params.next_delay()
                &&& final(self).params.rounds == 5
                &&& final(self).game.len == final(self).params.len
                &&& final(self).game.entered == 0
                &&& (forall|i: int| 0 <= i < final(self).game.len ==> final(self).game.answer@[i] < 4)
                &&& (forall|i: int| 0 <= i < 16 ==> final(self).game.guesses@[i] == 0)
                &&& !final(self).won
                &&& final(self).idle == 0
            },
            !old(self).won && old(self).on_last_guess() && old(self).verdict(button)
                && old(self).params.rounds == 1 && old(self).params.len + 1 == 15 ==> {
                &&& outcome == PressOutcome::Won
                &&& final(self).won
                &&& final(self).params.len == 15
                &&& final(self).params.delay == old(self).params.next_delay()
                &&& final(self).params.rounds == 5
                &&& final(self).game.answer@ == old(self).game.answer@
                &&& final(self).game.guesses@ == old(self).guesses_after(button)
                &&& final(self).game.entered == old(self).game.len
                &&& final(self).idle == 0
            },
    {
        if self.won {
            return PressOutcome::Ignored;
        }
        self.idle = 0;
        match self.game.enter_guess(button) {
            None => PressOutcome::Pending,
            Some(true) => {
                let leveled = self.params.after_correct();
                if self.params.len == 15 {
                    self.won = true;
                    PressOutcome::Won
                } else {
                    let next = GuessGame::new_code(self.params.len, &mut self.rng);
                    self.game = next;
                    PressOutcome::Correct { leveled }
                }
            },
            Some(false) => {
                self.game.erase_guess();
                PressOutcome::Incorrect
            },
        }
    }

    /// One idle tick of the main loop: the counter advances, and once it
    /// passes 1000 ticks it restarts and the caller plays one attract
    /// wave. Nothing else of the machine changes.
    pub fn idle_tick(&mut self) -> (wave: bool)
        requires
            old(self).wf(),
        ensures
            final(self).wf(),
            final(self).game == old(self).game,
            final(self).params == old(self).params,
            final(self).won == old(self).won,
            final(self).rng == old(self).rng,
            wave == (old(self).idle == 1000),
            wave ==> final(self).idle == 0,
            !wave ==> final(self).idle == old(self).idle + 1,
    {
        self.idle = self.idle + 1;
        if self.idle > 1000 {
            self.idle = 0;
            true
        } else {
            false
        }
    }
}

} // verus!
