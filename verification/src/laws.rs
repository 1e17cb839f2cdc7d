//! What holds of every game, whatever the player does and whenever the
//! shell ticks.
use vstd::prelude::*;

use crate::game::{
    end_run_spec, flash_of, gap_of, initial_model, lemma_press_wf, lemma_start_wf,
    lemma_tick_spec, lemma_tick_step, lit_pad_of, mistake_of, model_wf, pad_of, phase_of,
    press_fits, press_spec, start_fits, start_spec, step_points, tick_fits, tick_measure,
    tick_spec, tick_step, tier_of, Flash, GameModel, Mistake, Pad, Phase, State, BASE_POINTS,
    ECHO_FLASH_MS, ECHO_TIMEOUT_MS, LATEST_NOW,
};
use crate::highscore::{
    all_digits, decimal, digits_value, high_score_text_of, is_digit, is_white_space,
    lemma_decimal, stored_score, trim, trim_back, trim_front,
};
use crate::readout::round_label;
use crate::rng::{lemma_xorshift_nonzero, seeded, xorshift};

verus! {

/// The Title idles until the player acts, however long the shell keeps
/// ticking: there is no attract mode.
pub proof fn law_title_never_advances_on_its_own(m: GameModel, now: u64)
    requires
        model_wf(m),
        m.state is Title,
    ensures
        tick_spec(m, now) == m,
{
}

/// Outside Echo a keypress changes nothing: input is locked during Watch,
/// so a stray keypress can never cost the Run.
pub proof fn law_input_is_locked_outside_echo(m: GameModel, pad: Pad, now: u64)
    requires
        !(m.state is Echo),
    ensures
        press_spec(m, pad, now) == m,
{
}

/// Enter during Watch or Echo changes nothing: it can never abort or
/// restart a live Run.
pub proof fn law_enter_mid_run_is_ignored(m: GameModel, now: u64)
    requires
        m.state is Watch || m.state is Echo,
    ensures
        start_spec(m, now) == m,
{
}

/// Enter on the Title or on Game Over starts a fresh Run straight into the
/// Watch of Round 1 at Speed Tier x1, with a length-1 Sequence whose Step
/// is lit, a zero Score, and the High Score kept.
pub proof fn law_enter_starts_a_fresh_run(m: GameModel, now: u64)
    requires
        model_wf(m),
        m.state is Title || m.state is GameOver,
        now <= LATEST_NOW,
    ensures
        ({
            let r = start_spec(m, now);
            &&& model_wf(r)
            &&& phase_of(r.state) == Phase::Watch
            &&& r.round == 1
            &&& tier_of(r.round) == 1
            &&& r.score == 0
            &&& r.sequence.len() == 1
            &&& r.high_score == m.high_score
            &&& !r.new_high_score
            &&& lit_pad_of(r) == Some(r.sequence[0])
        }),
{
    lemma_xorshift_nonzero(m.rng);
}

/// Completing the Echo scores its last Step and rolls the Run into the next
/// Round's Watch, at that Round's tempo: the Sequence grows by exactly one
/// Step and keeps its prefix. There is no win cap: a correct Echo always
/// continues the Run.
pub proof fn law_completed_echo_grows_the_sequence_by_one(
    m: GameModel,
    pad: Pad,
    now: u64,
)
    requires
        model_wf(m),
        m.state matches State::Echo { expected, .. } && expected + 1 == m.sequence.len()
            && m.sequence[expected as int] == pad,
        m.round < u32::MAX,
        m.score + step_points(m.round) <= u32::MAX,
        now <= LATEST_NOW,
    ensures
        ({
            let r = press_spec(m, pad, now);
            &&& model_wf(r)
            &&& phase_of(r.state) == Phase::Watch
            &&& r.round == m.round + 1
            &&& r.score == m.score + step_points(m.round)
            &&& r.sequence.len() == m.sequence.len() + 1
            &&& r.sequence.subrange(0, m.sequence.len() as int) == m.sequence
            &&& r.state == (State::Watch {
                step: 0,
                lit: true,
                until: (now + flash_of(tier_of(r.round))) as u64,
            })
        }),
{
    lemma_xorshift_nonzero(m.rng);
    let r = press_spec(m, pad, now);
    assert(r.sequence.subrange(0, m.sequence.len() as int) =~= m.sequence);
}

/// Sudden Death: the first wrong Pad in Echo ends the Run on the spot as a
/// Mistake. The Run's Sequence, Round and Score are kept for the Game Over
/// report, and the High Score becomes the better of itself and the Score.
pub proof fn law_wrong_pad_is_sudden_death(m: GameModel, pad: Pad, now: u64)
    requires
        model_wf(m),
        m.state matches State::Echo { expected, .. } && m.sequence[expected as int] != pad,
    ensures
        ({
            let r = press_spec(m, pad, now);
            &&& model_wf(r)
            &&& phase_of(r.state) == Phase::GameOver
            &&& mistake_of(r) == Some(Mistake::WrongPad)
            &&& r.sequence == m.sequence
            &&& r.round == m.round
            &&& r.score == m.score
            &&& r.high_score == if m.score > m.high_score {
                m.score
            } else {
                m.high_score
            }
            &&& r.new_high_score == (m.score > m.high_score)
        }),
{
}

/// The per-key timeout: an Echo that gets no keypress by its deadline (the
/// Watch->Echo flip or the last correct keypress, plus
/// [`ECHO_TIMEOUT_MS`]) ends the Run as a Mistake, exactly as a wrong Pad
/// would; before the deadline the Echo keeps waiting.
pub proof fn law_echo_times_out(m: GameModel, now: u64)
    requires
        model_wf(m),
        m.state is Echo,
    ensures
        now >= m.state->deadline ==> tick_spec(m, now) == end_run_spec(m, Mistake::TooSlow),
        now >= m.state->deadline ==> mistake_of(tick_spec(m, now)) == Some(Mistake::TooSlow),
        now < m.state->deadline ==> phase_of(tick_spec(m, now).state) == Phase::Echo,
        ECHO_TIMEOUT_MS == 3000,
{
    lemma_tick_step(m, now);
    let n = tick_step(m, now);
    if let Some(n1) = n {
        lemma_tick_step(n1, now);
        assert(tick_spec(m, now) == tick_spec(n1, now));
        if n1.state is Echo {
            if let Some(n2) = tick_step(n1, now) {
                lemma_tick_step(n2, now);
                assert(tick_spec(n1, now) == tick_spec(n2, now));
                assert(tick_spec(n2, now) == n2);
            } else {
                assert(tick_spec(n1, now) == n1);
            }
        } else {
            assert(tick_spec(n1, now) == n1);
        }
    }
}

/// A correct Echo keypress that leaves Steps pending flashes its Pad as
/// confirmation for [`ECHO_FLASH_MS`] and restarts the per-key timeout;
/// after the flash the Pad goes dark and the Echo still waits on the next
/// Step until the timeout.
pub proof fn law_echo_keypress_flashes_its_pad(m: GameModel, pad: Pad, now: u64, later: u64)
    requires
        model_wf(m),
        m.state matches State::Echo { expected, .. } && expected + 1 < m.sequence.len()
            && m.sequence[expected as int] == pad,
        m.score + step_points(m.round) <= u32::MAX,
        now <= LATEST_NOW,
        now + ECHO_FLASH_MS <= later < now + ECHO_TIMEOUT_MS,
    ensures
        ({
            let r = press_spec(m, pad, now);
            &&& model_wf(r)
            &&& phase_of(r.state) == Phase::Echo
            &&& r.state->deadline == now + ECHO_TIMEOUT_MS
            &&& lit_pad_of(r) == Some(pad)
            &&& lit_pad_of(tick_spec(r, later)) == None::<Pad>
            &&& phase_of(tick_spec(r, later).state) == Phase::Echo
            &&& r.sequence == m.sequence
        }),
{
    let r = press_spec(m, pad, now);
    let n = tick_step(r, later)->0;
    assert(tick_step(n, later) is None);
    assert(tick_spec(n, later) == n);
}

/// Scoring: each correct Step earns [`BASE_POINTS`] times the current
/// Round's Speed Tier; a wrong Pad, a keypress outside Echo and a tick earn
/// nothing; Enter on the Title or Game Over starts the Score at zero.
pub proof fn law_correct_steps_score_by_tier(m: GameModel, pad: Pad, now: u64)
    requires
        model_wf(m),
        m.score + step_points(m.round) <= u32::MAX,
    ensures
        step_points(m.round) == BASE_POINTS * tier_of(m.round),
        BASE_POINTS == 10,
        m.state matches State::Echo { expected, .. } && m.sequence[expected as int] == pad
            ==> press_spec(m, pad, now).score == m.score + 10 * tier_of(m.round),
        !(m.state matches State::Echo { expected, .. } && m.sequence[expected as int] == pad)
            ==> press_spec(m, pad, now).score == m.score,
        tick_spec(m, now).score == m.score,
        !(m.state is Watch || m.state is Echo) ==> start_spec(m, now).score == 0,
{
    lemma_tick_spec(m, now);
}

/// The Speed Tiers: x1 for Rounds 1-4, x2 for 5-8, x3 for 9-12 and x4 from
/// Round 13 on; a later Round never has a lower tier, and a higher tier
/// never plays back slower.
pub proof fn law_speed_tiers(r1: u32, r2: u32)
    requires
        r1 <= r2,
    ensures
        1 <= tier_of(r1) <= 4,
        tier_of(r1) <= tier_of(r2),
        flash_of(tier_of(r2)) <= flash_of(tier_of(r1)),
        gap_of(tier_of(r2)) <= gap_of(tier_of(r1)),
        tier_of(r1) < tier_of(r2) ==> flash_of(tier_of(r2)) < flash_of(tier_of(r1)),
        tier_of(r1) < tier_of(r2) ==> gap_of(tier_of(r2)) < gap_of(tier_of(r1)),
        r1 <= 4 ==> tier_of(r1) == 1,
        5 <= r1 <= 8 ==> tier_of(r1) == 2,
        9 <= r1 <= 12 ==> tier_of(r1) == 3,
        13 <= r1 ==> tier_of(r1) == 4,
{
}

/// The Watch tempo of each Speed Tier: a Step takes 570, 430, 320 and
/// 240 ms at x1 to x4, split as a 450/340/250/180 ms flash and a
/// 120/90/70/60 ms gap, so every higher tier plays back strictly faster,
/// both in its flash and in its gap.
pub proof fn law_watch_tempo_per_tier(t1: u32, t2: u32)
    requires
        1 <= t1 < t2 <= 4,
    ensures
        flash_of(t2) < flash_of(t1),
        gap_of(t2) < gap_of(t1),
        flash_of(t1) + gap_of(t1) == (if t1 == 1 {
            570int
        } else if t1 == 2 {
            430int
        } else {
            320int
        }),
        flash_of(t2) + gap_of(t2) == (if t2 == 2 {
            430int
        } else if t2 == 3 {
            320int
        } else {
            240int
        }),
        flash_of(t1) == (if t1 == 1 {
            450u64
        } else if t1 == 2 {
            340u64
        } else {
            250u64
        }),
        flash_of(t2) == (if t2 == 2 {
            340u64
        } else if t2 == 3 {
            250u64
        } else {
            180u64
        }),
        gap_of(t1) == (if t1 == 1 {
            120u64
        } else if t1 == 2 {
            90u64
        } else {
            70u64
        }),
        gap_of(t2) == (if t2 == 2 {
            90u64
        } else if t2 == 3 {
            70u64
        } else {
            60u64
        }),
{
}

/// Enter from the Title or Game Over draws the fresh Run's one Step from
/// the generator: the Sequence is exactly the Pad of the generator's next
/// output, and the generator has advanced by exactly that one draw.
pub proof fn law_a_fresh_run_draws_its_step(m: GameModel, now: u64)
    requires
        m.state is Title || m.state is GameOver,
    ensures
        start_spec(m, now).sequence == seq![pad_of(xorshift(m.rng))],
        start_spec(m, now).rng == xorshift(m.rng),
        start_spec(m, now).sequence[0] == pad_of(start_spec(m, now).rng),
{
}

/// Completing an Echo draws the next Round's new Step from the generator
/// the same way: the Sequence gains the Pad of the generator's next output,
/// and the generator advances by that one draw.
pub proof fn law_a_new_round_draws_its_step(m: GameModel, pad: Pad, now: u64)
    requires
        model_wf(m),
        m.state matches State::Echo { expected, .. } && expected + 1 == m.sequence.len()
            && m.sequence[expected as int] == pad,
    ensures
        press_spec(m, pad, now).sequence == m.sequence.push(pad_of(xorshift(m.rng))),
        press_spec(m, pad, now).rng == xorshift(m.rng),
{
}

/// A tick never moves an Echo's position: if the game is still in Echo
/// after a tick, it still waits on the same Step (the confirmation flash
/// ending changes only the flash).
pub proof fn law_ticks_never_move_the_echo(m: GameModel, now: u64)
    requires
        model_wf(m),
        m.state is Echo,
    ensures
        tick_spec(m, now).state is Echo ==> tick_spec(m, now).state->expected
            == m.state->expected,
        tick_spec(m, now).state is Echo ==> tick_spec(m, now).state->deadline
            == m.state->deadline,
{
    lemma_tick_step(m, now);
    if let Some(n1) = tick_step(m, now) {
        lemma_tick_step(n1, now);
        assert(tick_spec(m, now) == tick_spec(n1, now));
        if let Some(n2) = tick_step(n1, now) {
            lemma_tick_step(n2, now);
            assert(tick_spec(n1, now) == tick_spec(n2, now));
            assert(tick_step(n2, now) is None);
            assert(tick_spec(n2, now) == n2);
        } else {
            assert(tick_spec(n1, now) == n1);
        }
    }
}

/// After a correct keypress that leaves Steps pending, the Echo waits on
/// the next Step until its timeout, however the shell ticks meanwhile.
pub proof fn law_the_echo_waits_on_the_next_step(m: GameModel, pad: Pad, now: u64, later: u64)
    requires
        model_wf(m),
        m.state matches State::Echo { expected, .. } && expected + 1 < m.sequence.len()
            && m.sequence[expected as int] == pad,
        m.score + step_points(m.round) <= u32::MAX,
        now <= LATEST_NOW,
        later < now + ECHO_TIMEOUT_MS,
    ensures
        tick_spec(press_spec(m, pad, now), later).state is Echo,
        tick_spec(press_spec(m, pad, now), later).state->expected == m.state->expected + 1,
{
    let r = press_spec(m, pad, now);
    lemma_press_wf(m, pad, now);
    law_ticks_never_move_the_echo(r, later);
    law_echo_times_out(r, later);
}

/// The per-key timeout runs 3 s from the moment the Echo last moved on:
/// the flip from Watch sets the deadline 3 s after the last flash ends, and
/// each correct keypress that leaves Steps pending sets it 3 s after the
/// keypress, with its confirmation flash lasting 250 ms.
pub proof fn law_the_timeout_runs_from_the_last_move(m: GameModel, pad: Pad, now: u64)
    requires
        model_wf(m),
        now <= LATEST_NOW,
    ensures
        m.state matches State::Watch { step, lit, until } && lit && step + 1 == m.sequence.len()
            && until <= now ==> tick_step(m, now) == Some(
            GameModel {
                state: State::Echo { expected: 0, flash: None, deadline: (m.state->until + 3000) as u64 },
                ..m
            },
        ),
        m.state matches State::Echo { expected, .. } && expected + 1 < m.sequence.len()
            && m.sequence[expected as int] == pad ==> press_spec(m, pad, now).state == (
        State::Echo {
            expected: (m.state->expected + 1) as usize,
            flash: Some(Flash { pad, until: (now + 250) as u64 }),
            deadline: (now + 3000) as u64,
        }),
{
}

/// A Watch shows the Sequence in order: from a Round's first flash ending
/// at `u`, Step `i` is the Pad lit once the gap before it is over.
pub proof fn law_watch_shows_the_sequence_in_order(m: GameModel, i: int)
    requires
        model_wf(m),
        m.state matches State::Watch { step, lit, .. } && step == 0 && lit,
        1 <= i < m.sequence.len(),
        m.state->until + watch_period(tier_of(m.round)) * (i - 1) + gap_of(tier_of(m.round))
            <= LATEST_NOW,
    ensures
        lit_pad_of(m) == Some(m.sequence[0]),
        ({
            let u = m.state->until;
            let t = tier_of(m.round);
            let now = (u + watch_period(t) * (i - 1) + gap_of(t)) as u64;
            lit_pad_of(tick_spec(m, now)) == Some(m.sequence[i])
        }),
{
    let u = m.state->until;
    let t = tier_of(m.round);
    let p = watch_period(t);
    let g = gap_of(t);
    let k = m.sequence.len() - 1;
    assert(p > g && g > 0);
    assert(p * (i - 1) >= 0) by (nonlinear_arith)
        requires
            i >= 1,
            p > 0,
    ;
    let now = (u + p * (i - 1) + g) as u64;
    let d = now - u;
    assert(d == p * (i - 1) + g);
    assert(d / p == i - 1 && d % p == g) by (nonlinear_arith)
        requires
            d == p * (i - 1) + g,
            0 <= g < p,
            i >= 1,
    ;
    assert(d < p * k) by (nonlinear_arith)
        requires
            d == p * (i - 1) + g,
            g < p,
            i <= k,
            p > 0,
    ;
    law_watch_schedule(m, now);
    lemma_tick_spec(m, now);
}

/// However a Run ends, the High Score becomes the better of itself and the
/// Run's Score, and a new record is flagged exactly when the Score beat the
/// High Score the Run started with; the Run's Score, Round and Sequence are
/// kept for the report.
pub proof fn law_a_run_ends_with_the_best_score(m: GameModel, mistake: Mistake)
    ensures
        end_run_spec(m, mistake).new_high_score == (m.score > m.high_score),
        end_run_spec(m, mistake).high_score >= m.high_score,
        end_run_spec(m, mistake).high_score >= m.score,
        end_run_spec(m, mistake).high_score == m.high_score || end_run_spec(m, mistake).high_score
            == m.score,
        mistake_of(end_run_spec(m, mistake)) == Some(mistake),
        end_run_spec(m, mistake).score == m.score,
        end_run_spec(m, mistake).round == m.round,
        end_run_spec(m, mistake).sequence == m.sequence,
{
}

/// An Echo that times out ends the Run like any Mistake: the record is
/// flagged exactly when the Run's Score beat the High Score, which becomes
/// the better of the two.
pub proof fn law_a_timeout_keeps_the_best_score(m: GameModel, now: u64)
    requires
        model_wf(m),
        m.state is Echo,
        now >= m.state->deadline,
    ensures
        tick_spec(m, now).new_high_score == (m.score > m.high_score),
        tick_spec(m, now).high_score == (if m.score > m.high_score {
            m.score
        } else {
            m.high_score
        }),
        phase_of(tick_spec(m, now).state) == Phase::GameOver,
        tick_spec(m, now).score == m.score,
{
    law_echo_times_out(m, now);
}

/// The Round label is the Round's decimal text: an em dash while no Run is
/// underway, else nonempty digits with no leading zero whose value is the
/// Round.
pub proof fn law_the_round_label_reads_the_round(round: u32)
    ensures
        round == 0 ==> round_label(round) == seq!['\u{2014}'],
        round > 0 ==> all_digits(round_label(round)),
        round > 0 ==> digits_value(round_label(round)) == round,
        round > 0 ==> round_label(round).len() > 0 && round_label(round)[0] != '0',
{
    if round == 0 {
        reveal_strlit("\u{2014}");
    } else {
        lemma_decimal(round as nat);
        lemma_decimal_leads_nonzero(round as nat);
    }
}

/// The decimal text of a positive number does not start with a zero.
proof fn lemma_decimal_leads_nonzero(n: nat)
    requires
        n > 0,
    ensures
        decimal(n)[0] != '0',
    decreases n,
{
    if n >= 10 {
        lemma_decimal_leads_nonzero(n / 10);
        lemma_decimal(n / 10);
        assert(decimal(n)[0] == decimal(n / 10)[0]);
    } else {
        assert(('0' as u32 + n) as char != '0');
    }
}

/// The High Score is the best Score across all Runs: no Enter, keypress or
/// tick ever lowers it, and a finished Run's Score never exceeds it.
pub proof fn law_high_score_is_the_best_score(m: GameModel, pad: Pad, now: u64)
    requires
        model_wf(m),
    ensures
        start_spec(m, now).high_score == m.high_score,
        press_spec(m, pad, now).high_score >= m.high_score,
        tick_spec(m, now).high_score >= m.high_score,
        m.state is GameOver ==> m.score <= m.high_score,
{
    lemma_tick_spec(m, now);
}

/// Deadlines chain off the previous deadline, not off the observing tick:
/// ticking at `t1` and then at `t2` lands exactly where one tick at `t2`
/// does, so playback tempo never drifts with tick granularity (and a second
/// tick at the same time changes nothing).
pub proof fn law_ticks_never_drift(m: GameModel, t1: u64, t2: u64)
    requires
        model_wf(m),
        t1 <= t2,
    ensures
        tick_spec(tick_spec(m, t1), t2) == tick_spec(m, t2),
    decreases tick_measure(m),
{
    lemma_tick_step(m, t1);
    lemma_tick_step(m, t2);
    match tick_step(m, t1) {
        Some(n) => {
            assert(tick_step(m, t2) == Some(n));
            law_ticks_never_drift(n, t1, t2);
        },
        None => {},
    }
}

/// Of two ticks, the later time decides: ticking at `a` and then at `b`
/// lands where one tick at the later of the two does. A tick at a time no
/// later than the last one changes nothing.
pub proof fn law_the_later_tick_decides(m: GameModel, a: u64, b: u64)
    requires
        model_wf(m),
    ensures
        tick_spec(tick_spec(m, a), b) == tick_spec(m, if a <= b {
            b
        } else {
            a
        }),
        b <= a ==> tick_spec(tick_spec(m, a), b) == tick_spec(m, a),
{
    lemma_tick_spec(m, a);
    if a <= b {
        law_ticks_never_drift(m, a, b);
    } else {
        let r = tick_spec(m, a);
        // No deadline is due at `a`, so none is due at the earlier `b`.
        assert(tick_step(r, b) is None);
        assert(tick_spec(r, b) == r);
    }
}

/// Ticking never touches the Run's record: the Sequence, Round, Score and
/// the random stream are exactly as they were, and at the Title or Game
/// Over nothing changes at all.
pub proof fn law_ticks_keep_the_run(m: GameModel, now: u64)
    requires
        model_wf(m),
    ensures
        model_wf(tick_spec(m, now)),
        tick_spec(m, now).sequence == m.sequence,
        tick_spec(m, now).round == m.round,
        tick_spec(m, now).score == m.score,
        tick_spec(m, now).rng == m.rng,
        m.state is Title || m.state is GameOver ==> tick_spec(m, now) == m,
{
    lemma_tick_spec(m, now);
}

/// The Title is launch-only: once left, no Enter, keypress or tick ever
/// returns to it.
pub proof fn law_title_is_never_returned_to(m: GameModel, pad: Pad, now: u64)
    requires
        model_wf(m),
        !(m.state is Title),
    ensures
        !(start_spec(m, now).state is Title),
        !(press_spec(m, pad, now).state is Title),
        !(tick_spec(m, now).state is Title),
    decreases tick_measure(m),
{
    lemma_tick_step(m, now);
    if let Some(n) = tick_step(m, now) {
        law_title_is_never_returned_to(n, pad, now);
    }
}

/// A Run's Sequence is persistent: a keypress either keeps it or appends
/// one Step, and a tick keeps it.
pub proof fn law_the_sequence_only_grows(m: GameModel, pad: Pad, now: u64)
    requires
        model_wf(m),
    ensures
        press_spec(m, pad, now).sequence == m.sequence || exists|p: Pad|
            press_spec(m, pad, now).sequence == #[trigger] m.sequence.push(p),
        tick_spec(m, now).sequence == m.sequence,
{
    lemma_tick_spec(m, now);
    let r = press_spec(m, pad, now);
    if r.sequence != m.sequence {
        assert(r.sequence == m.sequence.push(pad_of(xorshift(m.rng))));
    }
}

/// A new game opens at the Title with zeroed stats at Speed Tier x1, the
/// High Score on record, and a live random stream, whatever the seed (zero
/// included).
pub proof fn law_new_game_opens_at_title(seed: u64, high_score: u32)
    ensures
        model_wf(initial_model(seed, high_score)),
        phase_of(initial_model(seed, high_score).state) == Phase::Title,
        initial_model(seed, high_score).score == 0,
        initial_model(seed, high_score).high_score == high_score,
        initial_model(seed, high_score).round == 0,
        tier_of(initial_model(seed, high_score).round) == 1,
        seeded(seed) != 0,
{
}

/// Each Step is drawn exactly uniformly: the four Pads come from the four
/// values of a draw's two low bits, and shifting a draw by four selects the
/// same Pad, so each Pad is selected by a quarter of all draws.
pub proof fn law_steps_are_drawn_uniformly(x: u64)
    requires
        x <= u64::MAX - 4,
    ensures
        pad_of((x + 4) as u64) == pad_of(x),
        pad_of(0) == Pad::Up,
        pad_of(1) == Pad::Down,
        pad_of(2) == Pad::Left,
        pad_of(3) == Pad::Right,
{
    assert(((x + 4) as u64) & 3u64 == x & 3u64) by (bit_vector)
        requires
            x <= u64::MAX - 4,
    ;
    assert(0u64 & 3u64 == 0u64) by (bit_vector);
    assert(1u64 & 3u64 == 1u64) by (bit_vector);
    assert(2u64 & 3u64 == 2u64) by (bit_vector);
    assert(3u64 & 3u64 == 3u64) by (bit_vector);
}

/// Before the current Watch stage's deadline, ticking changes nothing.
pub proof fn law_watch_waits_for_its_deadline(m: GameModel, now: u64)
    requires
        model_wf(m),
        m.state matches State::Watch { until, .. } && now < until,
    ensures
        tick_spec(m, now) == m,
{
}

/// The time a Watch stage spends per Step at a Speed Tier: one flash and
/// one gap.
pub open spec fn watch_period(tier: u32) -> int {
    flash_of(tier) + gap_of(tier)
}

/// Where the Watch schedule stands at `now`. At the Round's Speed Tier,
/// from the flash of Step `s` that ends at `u`, the remaining Steps of the
/// Sequence each get one flash after one gap; the flip to Echo comes the
/// moment the last flash ends, with no trailing gap, and the per-key
/// timeout runs from there.
pub open spec fn watch_schedule(m: GameModel, now: u64) -> State {
    let s = m.state->step;
    let u = m.state->until;
    let t = tier_of(m.round);
    let p = watch_period(t);
    let k = m.sequence.len() - 1 - s;
    let d = now - u;
    let j = d / p;
    if d >= p * k + ECHO_TIMEOUT_MS {
        State::GameOver { mistake: Mistake::TooSlow }
    } else if d >= p * k {
        State::Echo { expected: 0, flash: None, deadline: (u + p * k + ECHO_TIMEOUT_MS) as u64 }
    } else if d % p < gap_of(t) {
        State::Watch { step: (s + j) as usize, lit: false, until: (u + p * j + gap_of(t)) as u64 }
    } else {
        State::Watch { step: (s + j + 1) as usize, lit: true, until: (u + p * (j + 1)) as u64 }
    }
}

/// The Watch schedule: ticking from a lit Watch stage whose deadline has
/// passed lands where [`watch_schedule`] says.
pub proof fn law_watch_schedule(m: GameModel, now: u64)
    requires
        model_wf(m),
        m.state matches State::Watch { lit, until, .. } && lit && until <= now,
        now <= LATEST_NOW,
    ensures
        tick_spec(m, now).state == watch_schedule(m, now),
    decreases tick_measure(m),
{
    let s = m.state->step;
    let u = m.state->until;
    let len = m.sequence.len();
    let t = tier_of(m.round);
    let g = gap_of(t);
    let p = watch_period(t);
    let k = len - 1 - s;
    let d = now - u;
    assert(p > g && p > 0);
    lemma_tick_step(m, now);
    let n = tick_step(m, now)->0;
    assert(tick_spec(m, now) == tick_spec(n, now));
    lemma_tick_step(n, now);
    if s + 1 == len {
        assert(k == 0);
        assert(p * k == 0) by (nonlinear_arith)
            requires
                k == 0,
        ;
        assert(n.state == (State::Echo {
            expected: 0,
            flash: None,
            deadline: (u + ECHO_TIMEOUT_MS) as u64,
        }));
        if d >= ECHO_TIMEOUT_MS {
            let n2 = tick_step(n, now)->0;
            lemma_tick_step(n2, now);
            assert(tick_spec(n, now) == tick_spec(n2, now));
            assert(tick_spec(n2, now) == n2);
            assert(tick_spec(m, now).state == watch_schedule(m, now));
        } else {
            assert(tick_spec(n, now) == n);
            assert(tick_spec(m, now).state == watch_schedule(m, now));
        }
    } else {
        assert(k >= 1);
        assert(p * k >= p) by (nonlinear_arith)
            requires
                k >= 1,
                p > 0,
        ;
        assert(n.state == (State::Watch { step: s, lit: false, until: (u + g) as u64 }));
        if d < g {
            assert(tick_spec(n, now) == n);
            assert(d / p == 0 && d % p == d) by (nonlinear_arith)
                requires
                    0 <= d < g,
                    g < p,
            ;
            assert(p * (d / p) == 0) by (nonlinear_arith)
                requires
                    d / p == 0,
            ;
            assert(tick_spec(m, now).state == watch_schedule(m, now));
        } else {
            let n2 = tick_step(n, now)->0;
            assert(tick_spec(n, now) == tick_spec(n2, now));
            assert(n2.state == (State::Watch {
                step: (s + 1) as usize,
                lit: true,
                until: (u + p) as u64,
            }));
            lemma_tick_step(n2, now);
            if d < p {
                assert(tick_spec(n2, now) == n2);
                assert(d / p == 0 && d % p == d) by (nonlinear_arith)
                    requires
                        0 <= d < p,
                ;
                assert(p * (d / p) == 0 && p * (d / p + 1) == p) by (nonlinear_arith)
                    requires
                        d / p == 0,
                ;
                assert(tick_spec(m, now).state == watch_schedule(m, now));
            } else {
                law_watch_schedule(n2, now);
                let s2 = n2.state->step;
                let u2 = n2.state->until;
                assert(s2 == s + 1 && u2 == u + p && n2.round == m.round);
                assert((d - p) / p == d / p - 1 && (d - p) % p == d % p) by (nonlinear_arith)
                    requires
                        d >= p,
                        p > 0,
                ;
                assert(p * (k - 1) + p == p * k) by (nonlinear_arith);
                assert(p * (d / p - 1) + p == p * (d / p)) by (nonlinear_arith);
                let j = d / p;
                let j2 = (d - p) / p;
                assert(j2 == j - 1);
                assert(p * j2 + p == p * j) by (nonlinear_arith)
                    requires
                        j2 == j - 1,
                ;
                assert(p * (j2 + 1) + p == p * (j + 1)) by (nonlinear_arith)
                    requires
                        j2 == j - 1,
                ;
                assert(watch_period(tier_of(n2.round)) == p);
                assert(watch_schedule(n2, now) == watch_schedule(m, now));
                assert(tick_spec(m, now).state == watch_schedule(m, now));
            }
        }
    }
}

/// One thing the shell hands the game: Enter, an arrow key, or a tick,
/// each with the time it happened.
pub enum Input {
    Enter(u64),
    Key(Pad, u64),
    Tick(u64),
}

/// The game after one input.
pub open spec fn apply(m: GameModel, input: Input) -> GameModel {
    match input {
        Input::Enter(now) => start_spec(m, now),
        Input::Key(pad, now) => press_spec(m, pad, now),
        Input::Tick(now) => tick_spec(m, now),
    }
}

/// The input's deadlines and counters fit their types, as the call that
/// takes it requires.
pub open spec fn input_fits(m: GameModel, input: Input) -> bool {
    match input {
        Input::Enter(now) => start_fits(m, now),
        Input::Key(pad, now) => press_fits(m, pad, now),
        Input::Tick(now) => tick_fits(m, now),
    }
}

/// The game after a history of inputs, in order.
pub open spec fn replay(m: GameModel, inputs: Seq<Input>) -> GameModel
    decreases inputs.len(),
{
    if inputs.len() == 0 {
        m
    } else {
        apply(replay(m, inputs.drop_last()), inputs.last())
    }
}

/// Every input of the history fits the game it is handed to.
pub open spec fn replay_fits(m: GameModel, inputs: Seq<Input>) -> bool
    decreases inputs.len(),
{
    if inputs.len() == 0 {
        true
    } else {
        replay_fits(m, inputs.drop_last()) && input_fits(replay(m, inputs.drop_last()), inputs.last())
    }
}

/// Every input that fits keeps the game well formed.
pub proof fn lemma_apply_wf(m: GameModel, input: Input)
    requires
        model_wf(m),
        input_fits(m, input),
    ensures
        model_wf(apply(m, input)),
{
    match input {
        Input::Enter(now) => lemma_start_wf(m, now),
        Input::Key(pad, now) => lemma_press_wf(m, pad, now),
        Input::Tick(now) => lemma_tick_spec(m, now),
    }
}

/// A history of fitting inputs keeps the game well formed.
pub proof fn lemma_replay_wf(m: GameModel, inputs: Seq<Input>)
    requires
        model_wf(m),
        replay_fits(m, inputs),
    ensures
        model_wf(replay(m, inputs)),
    decreases inputs.len(),
{
    if inputs.len() > 0 {
        lemma_replay_wf(m, inputs.drop_last());
        lemma_apply_wf(replay(m, inputs.drop_last()), inputs.last());
    }
}

/// The seed is the only entropy and the inputs' times the only clock: two
/// games opened with the same seed and High Score and handed the same
/// inputs agree in everything they read out, at every point.
pub proof fn law_same_history_same_game(
    seed: u64,
    high_score: u32,
    inputs1: Seq<Input>,
    inputs2: Seq<Input>,
)
    requires
        inputs1 == inputs2,
    ensures
        ({
            let g1 = replay(initial_model(seed, high_score), inputs1);
            let g2 = replay(initial_model(seed, high_score), inputs2);
            &&& g1 == g2
            &&& phase_of(g1.state) == phase_of(g2.state)
            &&& lit_pad_of(g1) == lit_pad_of(g2)
            &&& g1.round == g2.round
            &&& tier_of(g1.round) == tier_of(g2.round)
            &&& g1.score == g2.score
            &&& g1.high_score == g2.high_score
        }),
{
}

/// Whether a history holds an Enter.
pub open spec fn has_enter(inputs: Seq<Input>) -> bool {
    exists|i: int| 0 <= i < inputs.len() && #[trigger] inputs[i] is Enter
}

/// The Title holds exactly until the first Enter: a game opened at the
/// Title reads out the Title after a history of inputs if and only if the
/// history holds no Enter.
pub proof fn law_title_holds_until_the_first_enter(
    seed: u64,
    high_score: u32,
    inputs: Seq<Input>,
)
    requires
        replay_fits(initial_model(seed, high_score), inputs),
    ensures
        (replay(initial_model(seed, high_score), inputs).state is Title) <==> !has_enter(inputs),
    decreases inputs.len(),
{
    let m0 = initial_model(seed, high_score);
    if inputs.len() > 0 {
        let prefix = inputs.drop_last();
        let last = inputs.last();
        law_title_holds_until_the_first_enter(seed, high_score, prefix);
        lemma_replay_wf(m0, prefix);
        let m = replay(m0, prefix);
        assert(has_enter(inputs) <==> has_enter(prefix) || last is Enter) by {
            if has_enter(inputs) {
                let i = choose|i: int| 0 <= i < inputs.len() && #[trigger] inputs[i] is Enter;
                if i < prefix.len() {
                    assert(prefix[i] == inputs[i]);
                }
            }
            if has_enter(prefix) {
                let i = choose|i: int| 0 <= i < prefix.len() && #[trigger] prefix[i] is Enter;
                assert(inputs[i] == prefix[i]);
            }
            if last is Enter {
                assert(inputs[inputs.len() - 1] is Enter);
            }
        }
        match last {
            Input::Enter(now) => {},
            Input::Key(pad, now) => {
                if !(m.state is Title) {
                    law_title_is_never_returned_to(m, pad, now);
                }
            },
            Input::Tick(now) => {
                if !(m.state is Title) {
                    law_title_is_never_returned_to(m, Pad::Up, now);
                }
            },
        }
    }
}

/// The High Score round-trips through its stored form: the literal plain
/// text written for a score reads back as that score.
pub proof fn law_high_score_round_trips(score: u32)
    ensures
        stored_score(high_score_text_of(score)) == score,
{
    let d = decimal(score as nat);
    lemma_decimal(score as nat);
    let text = high_score_text_of(score);
    assert(is_digit(d[0]));
    assert(text[0] == d[0]);
    assert(trim_front(text) == text);
    assert(text.drop_last() =~= d);
    assert(is_white_space(text.last()));
    assert(is_digit(d.last()));
    assert(trim_back(d) == d);
    assert(trim_back(text) == d);
    assert(trim(text) == d);
}

} // verus!
