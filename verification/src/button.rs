//! Debouncing of one raw digital button line into discrete press events.
//!
//! The line idles high and is pulled low while the button is held. The
//! debouncer is a two-phase state machine: a low reading re-arms it, and the
//! first high reading seen while armed is reported as the one press event of
//! that low-to-high cycle; further high readings report nothing until the
//! line goes low again.

use vstd::prelude::*;

verus! {

/// The two debounce phases of one button line. `Rizzen` means the line was
/// last seen low, so the next high reading carries the press event.
/// `Fallen` means no event is pending: high readings are ignored until the
/// line reads low again.
#[derive(Clone, Copy, PartialEq, Eq, Structural, Debug)]
pub enum ButtonPinState {
    Rizzen,
    Fallen,
}

/// Debouncer for one button line. It reports exactly one press per
/// low-to-high cycle of the raw level, however long the line stays high.
pub struct ButtonPin {
    pub state: ButtonPinState,
}

/// The debouncer's phase after sampling one raw level (`raw_low` is true
/// when the line reads low).
pub open spec fn step_state(s: ButtonPinState, raw_low: bool) -> ButtonPinState {
    if raw_low {
        ButtonPinState::Rizzen
    } else {
        ButtonPinState::Fallen
    }
}

/// Whether one sample is reported as a press: only a high reading taken in
/// the armed (`Rizzen`) phase is.
pub open spec fn step_pressed(s: ButtonPinState, raw_low: bool) -> bool {
    !raw_low && s == ButtonPinState::Rizzen
}

/// The debouncer's phase after a whole sequence of raw samples.
pub open spec fn run_state(s: ButtonPinState, samples: Seq<bool>) -> ButtonPinState
    decreases samples.len(),
{
    if samples.len() == 0 {
        s
    } else {
        run_state(step_state(s, samples[0]), samples.drop_first())
    }
}

/// How many presses a sequence of raw samples is reported as, starting from
/// phase `s`.
pub open spec fn press_count(s: ButtonPinState, samples: Seq<bool>) -> nat
    decreases samples.len(),
{
    if samples.len() == 0 {
        0
    } else {
        (if step_pressed(s, samples[0]) {
            1nat
        } else {
            0nat
        }) + press_count(step_state(s, samples[0]), samples.drop_first())
    }
}

/// Whether sample `i` of `samples` is reported as a press when the run
/// starts in phase `s`.
pub open spec fn pressed_at(s: ButtonPinState, samples: Seq<bool>, i: int) -> bool {
    step_pressed(run_state(s, samples.take(i)), samples[i])
}

/// Presses add up over concatenated sample stretches, the second one taken
/// from the phase the first one ends in.
pub proof fn lemma_press_count_append(s: ButtonPinState, a: Seq<bool>, b: Seq<bool>)
    ensures
        press_count(s, a + b) == press_count(s, a) + press_count(run_state(s, a), b),
    decreases a.len(),
{
    if a.len() == 0 {
        assert(a + b =~= b);
    } else {
        assert((a + b).drop_first() =~= a.drop_first() + b);
        lemma_press_count_append(step_state(s, a[0]), a.drop_first(), b);
    }
}

/// The debouncer is armed after a run of samples exactly when the last
/// sample read low, or when it started armed and no sample came.
pub proof fn lemma_armed_iff_last_low(s: ButtonPinState, samples: Seq<bool>)
    ensures
        run_state(s, samples) == ButtonPinState::Rizzen <==> (if samples.len() == 0 {
            s == ButtonPinState::Rizzen
        } else {
            samples.last()
        }),
    decreases samples.len(),
{
    if samples.len() > 0 {
        lemma_armed_iff_last_low(step_state(s, samples[0]), samples.drop_first());
    }
}

/// Law: a sample is reported as a press exactly when it is the high side of
/// a low-to-high transition of the raw line — the line reads high at `i`
/// right after reading low at `i - 1` (the first sample, after an armed
/// start). Nothing else a sample sequence holds is ever reported.
pub proof fn lemma_press_iff_transition(s: ButtonPinState, samples: Seq<bool>, i: int)
    requires
        0 <= i < samples.len(),
    ensures
        pressed_at(s, samples, i) <==> (!samples[i] && (if i == 0 {
            s == ButtonPinState::Rizzen
        } else {
            samples[i - 1]
        })),
{
    lemma_armed_iff_last_low(s, samples.take(i));
}

/// Law: the number of reported presses is the running sum of the reported
/// samples — each sample raises the count by one exactly when it is
/// reported as a press, and leaves it unchanged otherwise.
pub proof fn lemma_press_count_step(s: ButtonPinState, samples: Seq<bool>, i: int)
    requires
        0 <= i < samples.len(),
    ensures
        press_count(s, samples.take(i + 1)) == press_count(s, samples.take(i)) + (if pressed_at(
            s,
            samples,
            i,
        ) {
            1int
        } else {
            0int
        }),
{
    assert(samples.take(i + 1) =~= samples.take(i) + seq![samples[i]]);
    lemma_press_count_append(s, samples.take(i), seq![samples[i]]);
    let armed = run_state(s, samples.take(i));
    let single = seq![samples[i]];
    assert(single.drop_first() =~= Seq::<bool>::empty());
    assert(press_count(step_state(armed, samples[i]), Seq::<bool>::empty()) == 0);
    assert(press_count(armed, single) == (if step_pressed(armed, samples[i]) {
        1int
    } else {
        0int
    }));
}

/// Law: no double counting while the button is held — duplicating a high
/// sample anywhere in the sequence leaves the number of reported presses
/// unchanged.
pub proof fn lemma_held_high_no_double(s: ButtonPinState, samples: Seq<bool>, i: int)
    requires
        0 <= i < samples.len(),
        !samples[i],
    ensures
        press_count(s, samples.insert(i + 1, false)) == press_count(s, samples),
{
    let a = samples.take(i + 1);
    let b = samples.skip(i + 1);
    assert(samples =~= a + b);
    assert(samples.insert(i + 1, false) =~= a + (seq![false] + b));
    lemma_press_count_append(s, a, b);
    lemma_press_count_append(s, a, seq![false] + b);
    lemma_armed_iff_last_low(s, a);
    let held = run_state(s, a);
    assert(held == ButtonPinState::Fallen);
    assert((seq![false] + b).drop_first() =~= b);
    assert(press_count(held, seq![false] + b) == press_count(held, b));
}

impl ButtonPin {
    /// A fresh debouncer: no press is pending until the line is seen low.
    pub fn new() -> (b: ButtonPin)
        ensures
            b.state == ButtonPinState::Fallen,
    {
        ButtonPin { state: ButtonPinState::Fallen }
    }

    /// Samples the raw level once, as the caller read it from the line
    /// (`raw_low` is true when the line reads low), and reports whether this
    /// sample registers a new press.
    pub fn is_pressed(&mut self, raw_low: bool) -> (pressed: bool)
        ensures
            pressed == step_pressed(old(self).state, raw_low),
            final(self).state == step_state(old(self).state, raw_low),
    {
        if raw_low {
            self.state = ButtonPinState::Rizzen;
            false
        } else {
            match self.state {
                ButtonPinState::Rizzen => {
                    self.state = ButtonPinState::Fallen;
                    true
                },
                ButtonPinState::Fallen => false,
            }
        }
    }
}

} // verus!
