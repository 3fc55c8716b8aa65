use simon_game::machine::Machine;
use simon_game::machine::PressOutcome;

/// Plays the active round perfectly by pressing the buttons of its own
/// answer, and returns the outcome of the final press.
fn play_correct_round(m: &mut Machine) -> PressOutcome {
    let code: Vec<u8> = m.game.answer[..m.game.len as usize].to_vec();
    let mut last = PressOutcome::Pending;
    for (i, &sym) in code.iter().enumerate() {
        last = m.step_press(sym);
        if i + 1 < code.len() {
            assert_eq!(last, PressOutcome::Pending);
        }
    }
    last
}

#[test]
fn machine_starts_at_defaults() {
    let m = Machine::new(7);
    assert_eq!(m.params.len, 4);
    assert_eq!(m.params.delay, 500);
    assert_eq!(m.params.rounds, 5);
    assert_eq!(m.idle, 0);
    assert!(!m.won);
    assert_eq!(m.game.len, 4);
    assert_eq!(m.game.entered, 0);
    assert!(m.game.answer[..4].iter().all(|&b| b < 4));
}

#[test]
fn correct_round_spends_one_round_of_the_level() {
    let mut m = Machine::new(42);
    let out = play_correct_round(&mut m);
    assert_eq!(out, PressOutcome::Correct { leveled: false });
    assert_eq!(m.params.rounds, 4);
    assert_eq!(m.params.len, 4);
    assert_eq!(m.params.delay, 500);
    // a fresh code is active
    assert_eq!(m.game.entered, 0);
    assert_eq!(m.game.len, 4);
}

#[test]
fn finishing_the_level_advances_the_parameters() {
    let mut m = Machine::new(42);
    m.params.rounds = 1;
    let out = play_correct_round(&mut m);
    assert_eq!(out, PressOutcome::Correct { leveled: true });
    assert_eq!(m.params.len, 5);
    assert_eq!(m.params.rounds, 5);
    assert_eq!(m.params.delay, 420);
    assert_eq!(m.game.len, 5);
    assert_eq!(m.game.entered, 0);
}

#[test]
fn incorrect_round_keeps_the_same_answer() {
    let mut m = Machine::new(3);
    let code: Vec<u8> = m.game.answer[..4].to_vec();
    // first symbol deliberately wrong, rest right
    assert_eq!(m.step_press((code[0] + 1) % 4), PressOutcome::Pending);
    assert_eq!(m.step_press(code[1]), PressOutcome::Pending);
    assert_eq!(m.step_press(code[2]), PressOutcome::Pending);
    assert_eq!(m.step_press(code[3]), PressOutcome::Incorrect);
    // the round was erased for a retry of the unchanged answer
    assert_eq!(m.game.answer[..4].to_vec(), code);
    assert_eq!(m.game.entered, 0);
    assert!(m.game.guesses.iter().all(|&b| b == 0));
    assert_eq!(m.params.rounds, 5);
    // the same wrong guesses reproduce the same verdict
    assert_eq!(m.step_press((code[0] + 1) % 4), PressOutcome::Pending);
    assert_eq!(m.step_press(code[1]), PressOutcome::Pending);
    assert_eq!(m.step_press(code[2]), PressOutcome::Pending);
    assert_eq!(m.step_press(code[3]), PressOutcome::Incorrect);
    // and the right code still wins
    for &sym in &code[..3] {
        assert_eq!(m.step_press(sym), PressOutcome::Pending);
    }
    assert_eq!(m.step_press(code[3]), PressOutcome::Correct { leveled: false });
}

#[test]
fn press_resets_the_idle_counter() {
    let mut m = Machine::new(11);
    for _ in 0..10 {
        m.idle_tick();
    }
    assert_eq!(m.idle, 10);
    m.step_press(0);
    assert_eq!(m.idle, 0);
}

#[test]
fn idle_counter_waves_after_thousand_ticks() {
    let mut m = Machine::new(5);
    for i in 1..=1000u32 {
        assert!(!m.idle_tick());
        assert_eq!(m.idle as u32, i);
    }
    // the tick after the counter reached 1000 plays the wave and restarts
    assert!(m.idle_tick());
    assert_eq!(m.idle, 0);
}

#[test]
fn reaching_final_length_locks_the_game() {
    let mut m = Machine::new(1234);
    let mut safety = 0u32;
    while !m.won {
        let out = play_correct_round(&mut m);
        assert!(matches!(
            out,
            PressOutcome::Correct { .. } | PressOutcome::Won
        ));
        safety += 1;
        assert!(safety <= 60, "the game must lock within 55 rounds");
    }
    // 11 levels of 5 rounds each from length 4 to the final 15
    assert_eq!(safety, 55);
    assert_eq!(m.params.len, 15);
    assert_eq!(m.params.rounds, 5);
    // the delay fell by 80 per level down to its 20 ms floor
    assert_eq!(m.params.delay, 20);

    // no further guesses are ever processed
    let entered = m.game.entered;
    let answer = m.game.answer.clone();
    for sym in 0..4u8 {
        assert_eq!(m.step_press(sym), PressOutcome::Ignored);
    }
    assert!(m.won);
    assert_eq!(m.game.entered, entered);
    assert_eq!(m.game.answer, answer);
}

#[test]
fn delay_never_falls_below_the_floor() {
    let mut m = Machine::new(77);
    let mut seen = vec![m.params.delay];
    while !m.won {
        play_correct_round(&mut m);
        if *seen.last().unwrap() != m.params.delay {
            seen.push(m.params.delay);
        }
        assert!(m.params.delay >= 20);
    }
    assert_eq!(seen, vec![500, 420, 340, 260, 180, 100, 20]);
}
