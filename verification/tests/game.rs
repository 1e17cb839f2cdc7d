//! The game core driven through its public API the way the shell drives it:
//! a fixed seed, a scripted millisecond timeline, and the Sequence learned
//! by watching `lit_pad()`.

use simon_says::game::{tier_for_round, ECHO_FLASH_MS, ECHO_TIMEOUT_MS};
use simon_says::{Game, Mistake, Pad, Phase};

/// The Watch flash and gap at Speed Tier x1, in milliseconds.
const WATCH_FLASH_MS: u64 = 450;
const WATCH_GAP_MS: u64 = 120;

/// An arbitrary reading of the caller's monotonic clock to start from.
const CLOCK_START: u64 = 5_000_000;

#[test]
fn title_never_advances_on_its_own() {
    // No attract mode: the Title idles until the player acts, however
    // long the shell keeps ticking.
    let mut game = Game::new(42);
    let start = CLOCK_START;
    for tick in 0..120u64 {
        game.tick(start + 33 * tick);
    }
    assert_eq!(game.phase(), Phase::Title);
    assert_eq!(game.score(), 0);
    assert_eq!(game.round(), 0);
}

/// Drive the game through Watch the way the shell would (ticking at a fine
/// granularity and watching `lit_pad()`), collecting each flash. Returns
/// once the phase has left Watch.
fn observe_watch(game: &mut Game, now: &mut u64) -> Vec<Pad> {
    assert_eq!(game.phase(), Phase::Watch);
    let mut flashes = Vec::new();
    let mut was_lit = false;
    // Cap the walk so a stuck Watch fails the test instead of hanging it.
    for _ in 0..100_000 {
        if game.phase() != Phase::Watch {
            return flashes;
        }
        match (was_lit, game.lit_pad()) {
            (false, Some(pad)) => {
                flashes.push(pad);
                was_lit = true;
            }
            (true, None) => was_lit = false,
            _ => {}
        }
        *now += 10;
        game.tick(*now);
    }
    panic!("Watch never ended");
}

#[test]
fn watch_flashes_the_sequence_then_flips_instantly_to_echo() {
    let mut game = Game::new(42);
    let mut now = CLOCK_START;
    let started = now;
    game.start(now);
    let flashes = observe_watch(&mut game, &mut now);
    // Round 1 plays the length-1 Sequence...
    assert_eq!(flashes.len(), 1);
    // ...and the Watch->Echo flip is instant: one 450 ms flash plus at
    // most one 10 ms observation tick, with no trailing gap or dwell.
    assert_eq!(game.phase(), Phase::Echo);
    assert!(now - started <= 470);
}

#[test]
fn input_is_locked_during_watch() {
    let mut game = Game::new(42);
    let mut now = CLOCK_START;
    game.start(now);
    // A stray press of every Pad during Watch must never cost the Run.
    for pad in [Pad::Up, Pad::Down, Pad::Left, Pad::Right] {
        game.press(pad, now);
    }
    assert_eq!(game.phase(), Phase::Watch);
    let flashes = observe_watch(&mut game, &mut now);
    assert_eq!(flashes.len(), 1);
    assert_eq!(game.phase(), Phase::Echo);
}

#[test]
fn completing_echo_grows_the_sequence_by_one_into_the_next_watch() {
    let mut game = Game::new(42);
    let mut now = CLOCK_START;
    game.start(now);
    let round_one = observe_watch(&mut game, &mut now);
    game.press(round_one[0], now);
    assert_eq!(game.phase(), Phase::Watch);
    assert_eq!(game.round(), 2);
    let round_two = observe_watch(&mut game, &mut now);
    assert_eq!(round_two.len(), 2);
    assert_eq!(
        round_two[0], round_one[0],
        "append-one growth preserves the existing prefix"
    );
}

#[test]
fn echo_keypress_flashes_its_pad_as_confirmation() {
    let mut game = Game::new(42);
    let mut now = CLOCK_START;
    game.start(now);
    let sequence = observe_watch(&mut game, &mut now);
    game.press(sequence[0], now);
    // Round 2's Echo has a second Step pending, so the confirmation flash
    // of the first press is observable.
    let sequence = observe_watch(&mut game, &mut now);
    game.press(sequence[0], now);
    assert_eq!(game.phase(), Phase::Echo);
    assert_eq!(game.lit_pad(), Some(sequence[0]));
    // The confirmation flash is 250 ms; after it the Pad goes dark and the
    // Echo is still waiting on the next Step.
    now += 260;
    game.tick(now);
    assert_eq!(game.lit_pad(), None);
    assert_eq!(game.phase(), Phase::Echo);
}

/// Any Pad that isn't the expected Step.
fn wrong_pad(expected: Pad) -> Pad {
    [Pad::Up, Pad::Down, Pad::Left, Pad::Right]
        .into_iter()
        .find(|pad| *pad != expected)
        .unwrap()
}

#[test]
fn wrong_pad_is_sudden_death_into_game_over() {
    let mut game = Game::new(42);
    let mut now = CLOCK_START;
    game.start(now);
    let sequence = observe_watch(&mut game, &mut now);
    game.press(wrong_pad(sequence[0]), now);
    assert_eq!(game.phase(), Phase::GameOver);
}

#[test]
fn enter_on_game_over_starts_a_fresh_run() {
    let mut game = Game::new(42);
    let mut now = CLOCK_START;
    game.start(now);
    let sequence = observe_watch(&mut game, &mut now);
    game.press(wrong_pad(sequence[0]), now);
    assert_eq!(game.phase(), Phase::GameOver);
    // Enter goes straight into a fresh Run, never back via the Title.
    game.start(now);
    assert_eq!(game.phase(), Phase::Watch);
    assert_eq!(game.round(), 1);
    let fresh = observe_watch(&mut game, &mut now);
    assert_eq!(fresh.len(), 1, "the fresh Run begins at a length-1 Sequence");
}

#[test]
fn enter_mid_run_is_ignored() {
    let mut game = Game::new(42);
    let mut now = CLOCK_START;
    game.start(now);
    // Enter during Watch must not abort or restart the Run...
    game.start(now);
    let sequence = observe_watch(&mut game, &mut now);
    assert_eq!(sequence.len(), 1);
    // ...and neither must Enter during Echo.
    game.start(now);
    assert_eq!(game.phase(), Phase::Echo);
    game.press(sequence[0], now);
    assert_eq!(game.round(), 2);
}

#[test]
fn runs_are_endless_and_steps_are_drawn_uniformly_from_all_pads() {
    let mut game = Game::new(42);
    let mut now = CLOCK_START;
    game.start(now);
    let mut sequence = Vec::new();
    for round in 1..=30u32 {
        assert_eq!(game.round(), round);
        sequence = observe_watch(&mut game, &mut now);
        assert_eq!(sequence.len(), round as usize);
        for &pad in &sequence {
            game.press(pad, now);
        }
    }
    // Thirty Rounds in and the Run is still going: no win cap.
    assert_eq!(game.phase(), Phase::Watch);
    assert_eq!(game.round(), 31);
    // A uniform draw over thirty Steps reaches every Pad...
    for pad in [Pad::Up, Pad::Down, Pad::Left, Pad::Right] {
        assert!(sequence.contains(&pad), "{pad:?} never drawn");
    }
    // ...and repeats are allowed: this seed produces back-to-back
    // duplicates, which a no-repeat generator would never emit.
    assert!(sequence.windows(2).any(|pair| pair[0] == pair[1]));
}

#[test]
fn enter_starts_a_run_into_watch_at_round_one() {
    let mut game = Game::new(42);
    game.start(CLOCK_START);
    assert_eq!(game.phase(), Phase::Watch);
    assert_eq!(game.round(), 1);
    assert_eq!(game.score(), 0);
}

#[test]
fn new_game_opens_at_title_with_zeroed_stats() {
    let game = Game::new(42);
    assert_eq!(game.phase(), Phase::Title);
    assert_eq!(game.score(), 0);
    assert_eq!(game.high_score(), 0);
    assert_eq!(game.round(), 0);
    assert_eq!(game.speed_tier(), 1);
}

// ---- Further scenarios of the game's laws, on concrete timelines. ----

#[test]
fn seed_forty_two_draws_left_first() {
    // The first draw of seed 42 is 45454805674, whose low bits are 2.
    let mut game = Game::new(42);
    game.start(CLOCK_START);
    assert_eq!(game.lit_pad(), Some(Pad::Left));
}

#[test]
fn watch_schedule_is_flash_gap_flash_then_echo() {
    // Round 2: two flashes of 450 ms with one 120 ms gap, then Echo.
    let mut game = Game::new(42);
    let t0 = CLOCK_START;
    game.start(t0);
    game.tick(t0 + WATCH_FLASH_MS);
    assert_eq!(game.phase(), Phase::Echo);
    game.press(Pad::Left, t0 + WATCH_FLASH_MS);
    assert_eq!(game.round(), 2);
    let t1 = t0 + WATCH_FLASH_MS;
    // Step 0 is lit until t1 + 450.
    game.tick(t1 + WATCH_FLASH_MS - 1);
    assert_eq!(game.lit_pad(), Some(Pad::Left));
    // The gap: dark but still Watch.
    game.tick(t1 + WATCH_FLASH_MS);
    assert_eq!(game.phase(), Phase::Watch);
    assert_eq!(game.lit_pad(), None);
    game.tick(t1 + WATCH_FLASH_MS + WATCH_GAP_MS - 1);
    assert_eq!(game.lit_pad(), None);
    // Step 1 (seed 42's second draw: low bits 3).
    game.tick(t1 + WATCH_FLASH_MS + WATCH_GAP_MS);
    assert_eq!(game.lit_pad(), Some(Pad::Right));
    let end = t1 + 2 * WATCH_FLASH_MS + WATCH_GAP_MS;
    game.tick(end - 1);
    assert_eq!(game.phase(), Phase::Watch);
    game.tick(end);
    assert_eq!(game.phase(), Phase::Echo);
    assert_eq!(game.lit_pad(), None);
}

#[test]
fn one_late_tick_lands_where_many_small_ticks_do() {
    // Deadlines chain off the previous deadline, so a Round played back
    // under 1 ms ticks and one under a single late tick agree at every
    // observed moment.
    let t0 = CLOCK_START;
    let mut fine = Game::new(9);
    let mut coarse = Game::new(9);
    for game in [&mut fine, &mut coarse] {
        game.start(t0);
        game.tick(t0 + WATCH_FLASH_MS);
        let first = game.lit_pad();
        assert_eq!(first, None);
    }
    assert_eq!(fine.phase(), Phase::Echo);
    // Seed 9's first draw has low bits 1: Down.
    for game in [&mut fine, &mut coarse] {
        game.press(Pad::Down, t0 + WATCH_FLASH_MS);
        assert_eq!(game.round(), 2);
    }
    let t1 = t0 + WATCH_FLASH_MS;
    let mut ms = 0u64;
    for probe in [100u64, 449, 450, 569, 570, 1000, 1019, 1020, 1200] {
        while ms < probe {
            ms += 1;
            fine.tick(t1 + ms);
        }
        coarse.tick(t1 + probe);
        assert_eq!(fine.phase(), coarse.phase(), "at {probe} ms");
        assert_eq!(fine.lit_pad(), coarse.lit_pad(), "at {probe} ms");
        // A second tick at the same time changes nothing.
        coarse.tick(t1 + probe);
        assert_eq!(fine.lit_pad(), coarse.lit_pad(), "at {probe} ms");
    }
    assert_eq!(coarse.phase(), Phase::Echo);
}

#[test]
fn presses_outside_echo_and_enter_mid_run_change_nothing() {
    let mut game = Game::new(3);
    // At the Title a press is ignored.
    game.press(Pad::Up, CLOCK_START);
    assert_eq!(game.phase(), Phase::Title);
    assert_eq!(game.round(), 0);
    game.start(CLOCK_START);
    let lit = game.lit_pad();
    game.start(CLOCK_START + 100);
    assert_eq!(game.lit_pad(), lit);
    assert_eq!(game.round(), 1);
}

#[test]
fn game_over_keeps_the_round_and_ignores_presses() {
    let mut game = Game::new(42);
    let mut now = CLOCK_START;
    game.start(now);
    let seq = observe_watch(&mut game, &mut now);
    game.press(seq[0], now);
    let seq = observe_watch(&mut game, &mut now);
    game.press(wrong_pad(seq[0]), now);
    assert_eq!(game.phase(), Phase::GameOver);
    assert_eq!(game.round(), 2);
    for pad in [Pad::Up, Pad::Down, Pad::Left, Pad::Right] {
        game.press(pad, now);
    }
    game.tick(now + 10_000);
    assert_eq!(game.phase(), Phase::GameOver);
    assert_eq!(game.round(), 2);
    assert_eq!(game.lit_pad(), None);
}

#[test]
fn echo_flash_lasts_exactly_its_duration() {
    let mut game = Game::new(42);
    let mut now = CLOCK_START;
    game.start(now);
    let seq = observe_watch(&mut game, &mut now);
    game.press(seq[0], now);
    let seq = observe_watch(&mut game, &mut now);
    game.press(seq[0], now);
    game.tick(now + ECHO_FLASH_MS - 1);
    assert_eq!(game.lit_pad(), Some(seq[0]));
    game.tick(now + ECHO_FLASH_MS);
    assert_eq!(game.lit_pad(), None);
}

#[test]
fn zero_seed_still_produces_a_live_stream() {
    let mut game = Game::new(0);
    let mut now = CLOCK_START;
    game.start(now);
    for round in 1..=8u32 {
        assert_eq!(game.round(), round);
        let seq = observe_watch(&mut game, &mut now);
        for &pad in &seq {
            game.press(pad, now);
        }
    }
    assert_eq!(game.round(), 9);
}

/// Tick forward `ms` milliseconds in shell-sized steps.
fn advance_ms(game: &mut Game, now: &mut u64, ms: u64) {
    let target = *now + ms;
    while *now < target {
        *now += 10;
        game.tick(*now);
    }
}

#[test]
fn a_full_run_scores_by_tier_and_records_the_high_score() {
    let mut game = Game::new(42);
    let mut now = CLOCK_START;
    assert_eq!(game.phase(), Phase::Title);
    assert_eq!(game.high_score(), 0);
    game.start(now);
    // Play Rounds 1-5 correctly. Round 5 crosses the first Speed Tier
    // boundary.
    let mut previous: Vec<Pad> = Vec::new();
    for round in 1..=5u32 {
        assert_eq!(game.round(), round);
        let expected_tier = if round < 5 { 1 } else { 2 };
        assert_eq!(game.speed_tier(), expected_tier);
        let sequence = observe_watch(&mut game, &mut now);
        assert_eq!(sequence.len(), round as usize);
        assert_eq!(&sequence[..previous.len()], &previous[..]);
        assert_eq!(game.phase(), Phase::Echo);
        for &pad in &sequence {
            game.press(pad, now);
        }
        previous = sequence;
    }
    // Rounds 1-4 at x1 scored 10+20+30+40; Round 5 at x2 scored 5*20.
    assert_eq!(game.score(), 200);
    // Round 6: one wrong Pad is Sudden Death into Game Over.
    assert_eq!(game.round(), 6);
    let sequence = observe_watch(&mut game, &mut now);
    game.press(wrong_pad(sequence[0]), now);
    assert_eq!(game.phase(), Phase::GameOver);
    assert_eq!(game.mistake(), Some(Mistake::WrongPad));
    assert_eq!(game.score(), 200);
    assert_eq!(game.round(), 6);
    assert_eq!(game.speed_tier(), 2);
    assert!(game.new_high_score());
    assert_eq!(game.high_score(), 200);
    // One more go: dying at 0 leaves the record untouched and uncelebrated.
    game.start(now);
    assert!(!game.new_high_score());
    let sequence = observe_watch(&mut game, &mut now);
    game.press(wrong_pad(sequence[0]), now);
    assert_eq!(game.phase(), Phase::GameOver);
    assert!(!game.new_high_score());
    assert_eq!(game.high_score(), 200);
    assert_eq!(game.score(), 0);
}

#[test]
fn an_idle_echo_times_out_as_a_mistake() {
    let mut game = Game::new(42);
    let mut now = CLOCK_START;
    game.start(now);
    let sequence = observe_watch(&mut game, &mut now);
    game.press(sequence[0], now);
    let sequence = observe_watch(&mut game, &mut now);
    // The flip to Echo came at most one 10 ms tick ago; the first press
    // restarts the 3 s timeout.
    game.press(sequence[0], now);
    assert_eq!(game.score(), 20);
    advance_ms(&mut game, &mut now, ECHO_TIMEOUT_MS - 10);
    assert_eq!(game.phase(), Phase::Echo);
    assert_eq!(game.mistake(), None);
    advance_ms(&mut game, &mut now, 10);
    assert_eq!(game.phase(), Phase::GameOver);
    assert_eq!(game.mistake(), Some(Mistake::TooSlow));
    assert_eq!(game.score(), 20);
    assert_eq!(game.high_score(), 20);
    assert!(game.new_high_score());
}

#[test]
fn the_echo_timeout_runs_from_the_flip() {
    let mut game = Game::new(42);
    let t0 = CLOCK_START;
    game.start(t0);
    // The flip to Echo is at t0 + 450; one late tick long after still
    // crosses the flip and then the timeout.
    game.tick(t0 + WATCH_FLASH_MS + ECHO_TIMEOUT_MS - 1);
    assert_eq!(game.phase(), Phase::Echo);
    game.tick(t0 + WATCH_FLASH_MS + ECHO_TIMEOUT_MS);
    assert_eq!(game.phase(), Phase::GameOver);
    assert_eq!(game.mistake(), Some(Mistake::TooSlow));
    assert_eq!(game.high_score(), 0);
    assert!(!game.new_high_score());
}

#[test]
fn a_stored_high_score_is_kept_until_beaten() {
    let mut game = Game::with_high_score(42, 25);
    assert_eq!(game.high_score(), 25);
    let mut now = CLOCK_START;
    game.start(now);
    let sequence = observe_watch(&mut game, &mut now);
    game.press(sequence[0], now);
    let sequence = observe_watch(&mut game, &mut now);
    game.press(wrong_pad(sequence[0]), now);
    // Scored 10: no new record.
    assert_eq!(game.score(), 10);
    assert_eq!(game.high_score(), 25);
    assert!(!game.new_high_score());
}

#[test]
fn speed_tiers_rise_every_four_rounds_and_quicken_playback() {
    for (round, tier) in [(0, 1), (1, 1), (4, 1), (5, 2), (8, 2), (9, 3), (12, 3), (13, 4), (100, 4)] {
        assert_eq!(tier_for_round(round), tier, "round {round}");
    }
    // Play 5 correct Rounds, then time the Round 6 Watch at tier x2: six
    // 340 ms flashes with five 90 ms gaps.
    let mut game = Game::new(42);
    let mut now = CLOCK_START;
    game.start(now);
    for _ in 1..=5 {
        let sequence = observe_watch(&mut game, &mut now);
        for &pad in &sequence {
            game.press(pad, now);
        }
    }
    assert_eq!(game.round(), 6);
    assert_eq!(game.speed_tier(), 2);
    let t = now;
    game.tick(t + 6 * 340 + 5 * 90 - 1);
    assert_eq!(game.phase(), Phase::Watch);
    game.tick(t + 6 * 340 + 5 * 90);
    assert_eq!(game.phase(), Phase::Echo);
}

#[test]
fn a_tick_at_an_earlier_time_changes_nothing() {
    let mut game = Game::new(42);
    let t0 = CLOCK_START;
    game.start(t0);
    game.tick(t0 + 300);
    assert_eq!(game.lit_pad(), Some(Pad::Left));
    game.tick(t0 + WATCH_FLASH_MS);
    assert_eq!(game.phase(), Phase::Echo);
    // Time reported out of order never rewinds the game.
    game.tick(t0 + 100);
    assert_eq!(game.phase(), Phase::Echo);
    assert_eq!(game.lit_pad(), None);
}

#[test]
fn the_title_holds_until_the_first_enter() {
    let mut game = Game::new(5);
    for (i, pad) in [Pad::Up, Pad::Down, Pad::Left, Pad::Right].into_iter().enumerate() {
        game.press(pad, CLOCK_START + i as u64);
        game.tick(CLOCK_START + 10_000 * i as u64);
        assert_eq!(game.phase(), Phase::Title);
    }
    game.start(CLOCK_START + 50_000);
    assert_eq!(game.phase(), Phase::Watch);
}

#[test]
fn same_seed_and_inputs_give_the_same_game() {
    let mut a = Game::new(77);
    let mut b = Game::new(77);
    let mut now = CLOCK_START;
    a.start(now);
    b.start(now);
    for _ in 0..6 {
        let seq_a = observe_watch(&mut a, &mut now.clone());
        let seq_b = observe_watch(&mut b, &mut now);
        assert_eq!(seq_a, seq_b);
        for &pad in &seq_a {
            a.press(pad, now);
            b.press(pad, now);
        }
        assert_eq!(a.round(), b.round());
        assert_eq!(a.score(), b.score());
    }
}

#[test]
fn press_fits_and_the_record_to_store() {
    let mut game = Game::new(42);
    let mut now = CLOCK_START;
    assert!(game.press_fits(Pad::Up, u64::MAX));
    game.start(now);
    let seq = observe_watch(&mut game, &mut now);
    // A correct keypress needs room for its deadlines; a wrong one does not.
    assert!(!game.press_fits(seq[0], u64::MAX));
    assert!(game.press_fits(wrong_pad(seq[0]), u64::MAX));
    assert!(game.press_fits(seq[0], now));
    let before = game.phase();
    game.press(seq[0], now);
    assert_eq!(game.high_score_to_store(before), None);
    let seq = observe_watch(&mut game, &mut now);
    let before = game.phase();
    game.press(wrong_pad(seq[0]), now);
    assert_eq!(game.high_score_to_store(before), Some(10));
    // Only the call that ended the Run asks for the store.
    assert_eq!(game.high_score_to_store(game.phase()), None);
}
