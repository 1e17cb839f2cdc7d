//! The Simon Says state machine: Runs, Rounds, the Watch/Echo cycle, Speed
//! Tiers, scoring, the per-key timeout and Sudden Death. All animation is
//! deadline state checked against the injected `now` each tick: no sleeps,
//! no threads, no clock reads.
//!
//! Time is a count of milliseconds on the caller's monotonic clock; the
//! caller picks the origin.
use vstd::prelude::*;

use crate::rng::{lemma_xorshift_nonzero, seeded, xorshift, XorShift64};

verus! {

/// How long an Echo keypress flashes its Pad as confirmation, in
/// milliseconds.
pub const ECHO_FLASH_MS: u64 = 250;

/// The per-key timeout: how long Echo waits for the next keypress, counted
/// from the Watch->Echo flip or from the last correct keypress, in
/// milliseconds.
pub const ECHO_TIMEOUT_MS: u64 = 3000;

/// The points a correct Step is worth at Speed Tier x1.
pub const BASE_POINTS: u32 = 10;

/// The latest `now` at which every deadline the game can set still fits the
/// clock.
pub const LATEST_NOW: u64 = u64::MAX - ECHO_TIMEOUT_MS;

/// One of the four colored quadrants on the board, each bound to an arrow
/// key.
#[derive(Clone, Copy, Debug, PartialEq, Eq, Structural)]
pub enum Pad {
    Up,
    Down,
    Left,
    Right,
}

/// The screen-flow state the board currently reads out.
#[derive(Clone, Copy, Debug, PartialEq, Eq, Structural)]
pub enum Phase {
    /// The launch-only idle state, shown until the player starts a Run;
    /// never returned to afterward.
    Title,
    /// The Sequence plays back; player input is locked.
    Watch,
    /// The player replays the Sequence; each keypress is judged immediately.
    Echo,
    /// The end-of-Run state; Enter starts a fresh Run.
    GameOver,
}

/// What ended a Run: a wrong Pad, or an expired per-key timeout, during
/// Echo.
#[derive(Clone, Copy, Debug, PartialEq, Eq, Structural)]
pub enum Mistake {
    WrongPad,
    TooSlow,
}

/// A Pad flooding solid as confirmation of an Echo keypress, until the
/// deadline `until`.
#[derive(Clone, Copy, Debug)]
pub struct Flash {
    pub pad: Pad,
    pub until: u64,
}

/// The state machine: [`Phase`] plus each phase's deadline state.
/// Deadlines chain off the previous deadline, not off the observing tick's
/// `now`, so playback tempo never drifts with tick granularity.
#[derive(Clone, Copy, Debug)]
pub enum State {
    Title,
    /// Playing back `sequence[step]`: flooded while `lit`, dark in the gap
    /// after; `until` is when the current stage ends.
    Watch { step: usize, lit: bool, until: u64 },
    /// Waiting on `sequence[expected]` until `deadline`; `flash` is the
    /// confirmation flash of the most recent keypress, if still showing.
    Echo { expected: usize, flash: Option<Flash>, deadline: u64 },
    /// The Run ended on `mistake`.
    GameOver { mistake: Mistake },
}

/// What a [`Game`] is, as the contracts see it.
pub struct GameModel {
    pub state: State,
    pub sequence: Seq<Pad>,
    pub score: u32,
    pub high_score: u32,
    /// Whether the last Run ended with a Score above the High Score it
    /// started with.
    pub new_high_score: bool,
    pub round: u32,
    /// The state of the game's random generator.
    pub rng: u64,
}

/// The Speed Tier of a Round: x1 for Rounds up to 4, x2 from Round 5, x3
/// from Round 9, x4 from Round 13 on. It is both the playback tempo bracket
/// and the score multiplier.
pub open spec fn tier_of(round: u32) -> u32 {
    if round <= 4 {
        1
    } else if round <= 8 {
        2
    } else if round <= 12 {
        3
    } else {
        4
    }
}

/// How long a Pad floods solid during Watch playback at a Speed Tier, in
/// milliseconds. With the gap, a Step takes 570, 430, 320 and 240 ms at
/// tiers x1 to x4.
pub open spec fn flash_of(tier: u32) -> u64 {
    if tier <= 1 {
        450
    } else if tier == 2 {
        340
    } else if tier == 3 {
        250
    } else {
        180
    }
}

/// The dark beat between two Watch flashes at a Speed Tier (also what
/// separates a repeated Pad from one long flash), in milliseconds.
pub open spec fn gap_of(tier: u32) -> u64 {
    if tier <= 1 {
        120
    } else if tier == 2 {
        90
    } else if tier == 3 {
        70
    } else {
        60
    }
}

/// The Speed Tier of a Round.
pub fn tier_for_round(round: u32) -> (r: u32)
    ensures
        r == tier_of(round),
{
    if round <= 4 {
        1
    } else if round <= 8 {
        2
    } else if round <= 12 {
        3
    } else {
        4
    }
}

/// The Watch flash at a Speed Tier.
fn watch_flash_ms(tier: u32) -> (r: u64)
    ensures
        r == flash_of(tier),
{
    if tier <= 1 {
        450
    } else if tier == 2 {
        340
    } else if tier == 3 {
        250
    } else {
        180
    }
}

/// The Watch gap at a Speed Tier.
fn watch_gap_ms(tier: u32) -> (r: u64)
    ensures
        r == gap_of(tier),
{
    if tier <= 1 {
        120
    } else if tier == 2 {
        90
    } else if tier == 3 {
        70
    } else {
        60
    }
}

/// The Pad that a random draw selects: its two low bits, which are exactly
/// uniform over the four Pads.
pub open spec fn pad_of(bits: u64) -> Pad {
    let b = bits & 3u64;
    if b == 0 {
        Pad::Up
    } else if b == 1 {
        Pad::Down
    } else if b == 2 {
        Pad::Left
    } else {
        Pad::Right
    }
}

/// The game as it opens with a given stored High Score: the Title, no Run
/// yet, every other stat at rest.
pub open spec fn initial_model(seed: u64, high_score: u32) -> GameModel {
    GameModel {
        state: State::Title,
        sequence: Seq::empty(),
        score: 0,
        high_score,
        new_high_score: false,
        round: 0,
        rng: seeded(seed),
    }
}

/// The invariant of every game: the generator is live, the Round counts the
/// Sequence, each phase's position lies inside the Sequence, an Echo flash
/// ends before the per-key deadline, and a finished Run's Score is within
/// the High Score.
pub open spec fn model_wf(m: GameModel) -> bool {
    &&& m.rng != 0
    &&& m.round as int == m.sequence.len()
    &&& match m.state {
        State::Title => m.sequence.len() == 0 && m.score == 0,
        State::Watch { step, lit, .. } => step < m.sequence.len() && (!lit ==> step + 1
            < m.sequence.len()),
        State::Echo { expected, flash, deadline } => expected < m.sequence.len() && (
        flash matches Some(f) ==> f.until <= deadline),
        State::GameOver { .. } => m.sequence.len() > 0 && m.score <= m.high_score,
    }
}

/// The Phase a state reads out as.
pub open spec fn phase_of(s: State) -> Phase {
    match s {
        State::Title => Phase::Title,
        State::Watch { .. } => Phase::Watch,
        State::Echo { .. } => Phase::Echo,
        State::GameOver { .. } => Phase::GameOver,
    }
}

/// The Pad flooding solid: the Step being played while lit in Watch, or the
/// confirmation flash in Echo.
pub open spec fn lit_pad_of(m: GameModel) -> Option<Pad> {
    match m.state {
        State::Watch { step, lit: true, .. } => Some(m.sequence[step as int]),
        State::Echo { flash: Some(f), .. } => Some(f.pad),
        _ => None,
    }
}

/// The Mistake that ended the Run, once it is over.
pub open spec fn mistake_of(m: GameModel) -> Option<Mistake> {
    match m.state {
        State::GameOver { mistake } => Some(mistake),
        _ => None,
    }
}

/// Enter: from the Title or Game Over a fresh Run starts with a length-1
/// Sequence in its first Watch; mid-Run, Enter changes nothing.
pub open spec fn start_spec(m: GameModel, now: u64) -> GameModel {
    match m.state {
        State::Watch { .. } | State::Echo { .. } => m,
        _ => {
            let r = xorshift(m.rng);
            GameModel {
                state: State::Watch { step: 0, lit: true, until: (now + flash_of(tier_of(1))) as u64 },
                sequence: seq![pad_of(r)],
                score: 0,
                high_score: m.high_score,
                new_high_score: false,
                round: 1,
                rng: r,
            }
        },
    }
}

/// The deadlines that Enter sets fit the clock.
pub open spec fn start_fits(m: GameModel, now: u64) -> bool {
    match m.state {
        State::Watch { .. } | State::Echo { .. } => true,
        _ => now <= LATEST_NOW,
    }
}

/// The end of a Run on a Mistake: the High Score becomes the better of
/// itself and the Run's Score, and is flagged new when the Score beat it.
pub open spec fn end_run_spec(m: GameModel, mistake: Mistake) -> GameModel {
    GameModel {
        state: State::GameOver { mistake },
        high_score: if m.score > m.high_score {
            m.score
        } else {
            m.high_score
        },
        new_high_score: m.score > m.high_score,
        ..m
    }
}

/// A completed Echo rolls the Run into the next Round: the Sequence grows
/// by exactly one random Step and its Watch begins at that Round's tempo.
pub open spec fn advance_round_spec(m: GameModel, now: u64) -> GameModel {
    let r = xorshift(m.rng);
    let round = (m.round + 1) as u32;
    GameModel {
        state: State::Watch { step: 0, lit: true, until: (now + flash_of(tier_of(round))) as u64 },
        sequence: m.sequence.push(pad_of(r)),
        round,
        rng: r,
        ..m
    }
}

/// The points a correct Step earns in a Round: the base points times the
/// Round's Speed Tier.
pub open spec fn step_points(round: u32) -> int {
    BASE_POINTS * tier_of(round)
}

/// A keypress of `pad` at `now`: judged against the expected Step in Echo,
/// ignored in every other phase. A correct Step scores; the last one
/// completes the Round; a wrong Pad is Sudden Death.
pub open spec fn press_spec(m: GameModel, pad: Pad, now: u64) -> GameModel {
    match m.state {
        State::Echo { expected, .. } => {
            if m.sequence[expected as int] != pad {
                end_run_spec(m, Mistake::WrongPad)
            } else {
                let scored = GameModel {
                    score: (m.score + step_points(m.round)) as u32,
                    ..m
                };
                if expected + 1 == m.sequence.len() {
                    advance_round_spec(scored, now)
                } else {
                    GameModel {
                        state: State::Echo {
                            expected: (expected + 1) as usize,
                            flash: Some(Flash { pad, until: (now + ECHO_FLASH_MS) as u64 }),
                            deadline: (now + ECHO_TIMEOUT_MS) as u64,
                        },
                        ..scored
                    }
                }
            }
        },
        _ => m,
    }
}

/// The Score, the Round counter and the deadlines that a keypress sets fit
/// their types.
pub open spec fn press_fits(m: GameModel, pad: Pad, now: u64) -> bool {
    match m.state {
        State::Echo { expected, .. } => {
            if m.sequence[expected as int] != pad {
                true
            } else {
                &&& m.score + step_points(m.round) <= u32::MAX
                &&& now <= LATEST_NOW
                &&& expected + 1 == m.sequence.len() ==> m.round < u32::MAX
            }
        },
        _ => true,
    }
}

/// The crossing of one deadline that has passed by `now`, if any.
pub open spec fn tick_step(m: GameModel, now: u64) -> Option<GameModel> {
    match m.state {
        State::Watch { step, lit, until } => {
            let tier = tier_of(m.round);
            if now < until {
                None
            } else if lit {
                if step + 1 == m.sequence.len() {
                    // The Watch->Echo flip is instant: no trailing gap.
                    Some(
                        GameModel {
                            state: State::Echo {
                                expected: 0,
                                flash: None,
                                deadline: (until + ECHO_TIMEOUT_MS) as u64,
                            },
                            ..m
                        },
                    )
                } else {
                    Some(
                        GameModel {
                            state: State::Watch {
                                step,
                                lit: false,
                                until: (until + gap_of(tier)) as u64,
                            },
                            ..m
                        },
                    )
                }
            } else {
                Some(
                    GameModel {
                        state: State::Watch {
                            step: (step + 1) as usize,
                            lit: true,
                            until: (until + flash_of(tier)) as u64,
                        },
                        ..m
                    },
                )
            }
        },
        State::Echo { expected, flash, deadline } => {
            if flash is Some && now >= flash->0.until {
                Some(GameModel { state: State::Echo { expected, flash: None, deadline }, ..m })
            } else if now >= deadline {
                Some(end_run_spec(m, Mistake::TooSlow))
            } else {
                None
            }
        },
        _ => None,
    }
}

/// How many deadlines a state can still cross before it rests.
pub open spec fn tick_measure(m: GameModel) -> nat {
    match m.state {
        State::Watch { step, lit, .. } => (2 * (m.sequence.len() - step) + if lit {
            1int
        } else {
            0int
        }) as nat,
        State::Echo { flash, .. } => if flash is Some {
            2
        } else {
            1
        },
        _ => 0,
    }
}

/// Advancing time to `now`: every deadline that has passed is crossed in
/// turn, so one late tick can cross several of them.
pub open spec fn tick_spec(m: GameModel, now: u64) -> GameModel
    decreases tick_measure(m),
    when model_wf(m)
{
    match tick_step(m, now) {
        Some(n) => tick_spec(n, now),
        None => m,
    }
}

/// The deadlines that advancing time to `now` sets fit the clock.
pub open spec fn tick_fits(m: GameModel, now: u64) -> bool
    decreases tick_measure(m),
    when model_wf(m)
{
    match m.state {
        State::Watch { step, lit, until } => {
            let tier = tier_of(m.round);
            if now < until {
                true
            } else if lit {
                if step + 1 == m.sequence.len() {
                    until + ECHO_TIMEOUT_MS <= u64::MAX
                } else {
                    until + gap_of(tier) <= u64::MAX && tick_fits(tick_step(m, now)->0, now)
                }
            } else {
                until + flash_of(tier) <= u64::MAX && tick_fits(tick_step(m, now)->0, now)
            }
        },
        _ => true,
    }
}

/// Crossing a deadline keeps the game well formed and the Run's record; it
/// can only raise the High Score, which it does when it ends the Run.
pub proof fn lemma_tick_step(m: GameModel, now: u64)
    requires
        model_wf(m),
    ensures
        tick_step(m, now) matches Some(n) ==> {
            &&& model_wf(n)
            &&& tick_measure(n) < tick_measure(m)
            &&& n.sequence == m.sequence
            &&& n.score == m.score
            &&& n.round == m.round
            &&& n.rng == m.rng
            &&& n.high_score >= m.high_score
            &&& !(n.state is GameOver) ==> n.high_score == m.high_score
                && n.new_high_score == m.new_high_score
        },
{
}

/// Ticking keeps the game well formed and the Run's record, and can only
/// raise the High Score.
pub proof fn lemma_tick_spec(m: GameModel, now: u64)
    requires
        model_wf(m),
    ensures
        model_wf(tick_spec(m, now)),
        tick_step(tick_spec(m, now), now) is None,
        tick_spec(m, now).sequence == m.sequence,
        tick_spec(m, now).score == m.score,
        tick_spec(m, now).round == m.round,
        tick_spec(m, now).rng == m.rng,
        tick_spec(m, now).high_score >= m.high_score,
        m.state is GameOver || m.state is Title ==> tick_spec(m, now) == m,
    decreases tick_measure(m),
{
    lemma_tick_step(m, now);
    if let Some(n) = tick_step(m, now) {
        lemma_tick_spec(n, now);
    }
}

/// Every `now` up to [`LATEST_NOW`] leaves room for the deadlines a tick
/// sets.
pub proof fn lemma_tick_fits(m: GameModel, now: u64)
    requires
        model_wf(m),
        now <= LATEST_NOW,
    ensures
        tick_fits(m, now),
    decreases tick_measure(m),
{
    lemma_tick_step(m, now);
    if let Some(n) = tick_step(m, now) {
        lemma_tick_fits(n, now);
    }
}

/// Enter keeps the game well formed.
pub proof fn lemma_start_wf(m: GameModel, now: u64)
    requires
        model_wf(m),
    ensures
        model_wf(start_spec(m, now)),
{
    lemma_xorshift_nonzero(m.rng);
}

/// A keypress whose Round counter fits keeps the game well formed.
pub proof fn lemma_press_wf(m: GameModel, pad: Pad, now: u64)
    requires
        model_wf(m),
        press_fits(m, pad, now),
    ensures
        model_wf(press_spec(m, pad, now)),
{
    lemma_xorshift_nonzero(m.rng);
}

/// The fields of a game, worked on in place by the game's operations.
struct GameData {
    rng: XorShift64,
    state: State,
    sequence: Vec<Pad>,
    score: u32,
    high_score: u32,
    new_high_score: bool,
    round: u32,
}

impl GameData {
    spec fn model(&self) -> GameModel {
        GameModel {
            state: self.state,
            sequence: self.sequence@,
            score: self.score,
            high_score: self.high_score,
            new_high_score: self.new_high_score,
            round: self.round,
            rng: self.rng.state(),
        }
    }

    /// A game at the Title.
    fn opening(seed: u64, high_score: u32) -> (r: Self)
        ensures
            r.model() == initial_model(seed, high_score),
    {
        let d = GameData {
            rng: XorShift64::new(seed),
            state: State::Title,
            sequence: Vec::new(),
            score: 0,
            high_score,
            new_high_score: false,
            round: 0,
        };
        assert(d.model().sequence =~= Seq::<Pad>::empty());
        d
    }

    fn start(&mut self, now: u64)
        requires
            model_wf(old(self).model()),
            start_fits(old(self).model(), now),
        ensures
            final(self).model() == start_spec(old(self).model(), now),
    {
        match self.state {
            State::Title | State::GameOver { .. } => {},
            State::Watch { .. } | State::Echo { .. } => return ,
        }
        self.score = 0;
        self.new_high_score = false;
        self.round = 1;
        self.sequence.clear();
        let step = self.random_step();
        self.sequence.push(step);
        self.state = State::Watch { step: 0, lit: true, until: now + watch_flash_ms(tier_for_round(1)) };
        assert(self.model().sequence =~= seq![step]);
    }

    fn press(&mut self, pad: Pad, now: u64)
        requires
            model_wf(old(self).model()),
            press_fits(old(self).model(), pad, now),
        ensures
            final(self).model() == press_spec(old(self).model(), pad, now),
    {
        let expected = match self.state {
            State::Echo { expected, .. } => expected,
            _ => return ,
        };
        if self.sequence[expected] != pad {
            // Sudden Death: the first Mistake ends the Run on the spot.
            self.end_run(Mistake::WrongPad);
            return ;
        }
        // Each correct Step is worth the base points times the Speed Tier.
        self.score = self.score + BASE_POINTS * tier_for_round(self.round);
        if expected + 1 == self.sequence.len() {
            self.advance_round(now);
        } else {
            self.state = State::Echo {
                expected: expected + 1,
                flash: Some(Flash { pad, until: now + ECHO_FLASH_MS }),
                deadline: now + ECHO_TIMEOUT_MS,
            };
        }
    }

    fn tick(&mut self, now: u64)
        requires
            model_wf(old(self).model()),
            tick_fits(old(self).model(), now),
        ensures
            final(self).model() == tick_spec(old(self).model(), now),
    {
        let ghost start = self.model();
        loop
            invariant
                model_wf(self.model()),
                tick_fits(self.model(), now),
                tick_spec(self.model(), now) == tick_spec(start, now),
            ensures
                self.model() == tick_spec(start, now),
            decreases tick_measure(self.model()),
        {
            proof {
                lemma_tick_step(self.model(), now);
            }
            match self.state {
                State::Watch { step, lit: true, until } if now >= until => {
                    if step + 1 == self.sequence.len() {
                        // The Watch->Echo flip is instant: no trailing gap.
                        self.state = State::Echo {
                            expected: 0,
                            flash: None,
                            deadline: until + ECHO_TIMEOUT_MS,
                        };
                    } else {
                        self.state = State::Watch {
                            step,
                            lit: false,
                            until: until + watch_gap_ms(tier_for_round(self.round)),
                        };
                    }
                },
                State::Watch { step, lit: false, until } if now >= until => {
                    self.state = State::Watch {
                        step: step + 1,
                        lit: true,
                        until: until + watch_flash_ms(tier_for_round(self.round)),
                    };
                },
                State::Echo { expected, flash: Some(flash), deadline } if now >= flash.until => {
                    self.state = State::Echo { expected, flash: None, deadline };
                },
                State::Echo { deadline, .. } if now >= deadline => {
                    // The per-key timeout expired: a Mistake, so Sudden Death.
                    self.end_run(Mistake::TooSlow);
                },
                _ => {
                    break ;
                },
            }
        }
    }

    /// Ends the Run on `mistake`, keeping the better of the High Score and
    /// the Run's Score.
    fn end_run(&mut self, mistake: Mistake)
        ensures
            final(self).model() == end_run_spec(old(self).model(), mistake),
    {
        self.new_high_score = self.score > self.high_score;
        if self.score > self.high_score {
            self.high_score = self.score;
        }
        self.state = State::GameOver { mistake };
    }

    /// A completed Echo rolls the Run into the next Round: the Sequence
    /// grows by exactly one uniformly-random Step (repeats allowed) and its
    /// Watch begins.
    fn advance_round(&mut self, now: u64)
        requires
            model_wf(old(self).model()),
            old(self).round < u32::MAX,
            now <= LATEST_NOW,
        ensures
            final(self).model() == advance_round_spec(old(self).model(), now),
    {
        self.round = self.round + 1;
        let step = self.random_step();
        self.sequence.push(step);
        self.state = State::Watch {
            step: 0,
            lit: true,
            until: now + watch_flash_ms(tier_for_round(self.round)),
        };
    }

    /// One uniformly-random Step. `next_u64() & 3` is exactly uniform over
    /// the four Pads because 2^64 divides evenly by 4.
    fn random_step(&mut self) -> (r: Pad)
        requires
            old(self).model().rng != 0,
        ensures
            r == pad_of(xorshift(old(self).model().rng)),
            final(self).model() == (GameModel {
                rng: xorshift(old(self).model().rng),
                ..old(self).model()
            }),
    {
        match self.rng.next_u64() & 3u64 {
            0 => Pad::Up,
            1 => Pad::Down,
            2 => Pad::Left,
            _ => Pad::Right,
        }
    }
}

/// One complete game's worth of state: the single object the shell drives.
///
/// At the Title there is no Run yet, so every stat reads as its resting
/// placeholder: zero Score, Round 0, Speed Tier x1.
pub struct Game {
    data: GameData,
}

impl View for Game {
    type V = GameModel;

    closed spec fn view(&self) -> GameModel {
        self.data.model()
    }
}

impl Game {
    /// Every game is well formed.
    #[verifier::type_invariant]
    spec fn well_formed(&self) -> bool {
        model_wf(self@)
    }

    /// Takes the game's fields out to work on, leaving a resting game in
    /// their place until they are put back.
    fn take_data(&mut self) -> (r: GameData)
        ensures
            r.model() == old(self)@,
            model_wf(r.model()),
            final(self)@ == initial_model(1, 0),
    {
        proof {
            use_type_invariant(&*self);
        }
        let mut d = GameData::opening(1, 0);
        std::mem::swap(&mut self.data, &mut d);
        d
    }

    /// `seed` is the randomness seam: the only entropy the core ever sees.
    /// No High Score is on record.
    pub fn new(seed: u64) -> (r: Self)
        ensures
            r@ == initial_model(seed, 0),
    {
        Self::with_high_score(seed, 0)
    }

    /// A game whose High Score on record is `high_score`, as the shell
    /// loaded it.
    pub fn with_high_score(seed: u64, high_score: u32) -> (r: Self)
        ensures
            r@ == initial_model(seed, high_score),
    {
        Game { data: GameData::opening(seed, high_score) }
    }

    /// Start a Run: Enter on the Title or Game Over. Mid-Run, Enter is
    /// ignored so it can never abort a live Run. The Title is never
    /// returned to afterward.
    pub fn start(&mut self, now: u64)
        requires
            start_fits(old(self)@, now),
        ensures
            final(self)@ == start_spec(old(self)@, now),
    {
        let mut d = self.take_data();
        d.start(now);
        proof {
            lemma_start_wf(old(self)@, now);
        }
        self.data = d;
    }

    /// Echo input from an arrow key, judged immediately against the
    /// expected Step. Outside Echo this is a no-op: input is locked during
    /// Watch, so a stray keypress can never cost the Run.
    pub fn press(&mut self, pad: Pad, now: u64)
        requires
            press_fits(old(self)@, pad, now),
        ensures
            final(self)@ == press_spec(old(self)@, pad, now),
    {
        let mut d = self.take_data();
        d.press(pad, now);
        proof {
            lemma_press_wf(old(self)@, pad, now);
        }
        self.data = d;
    }

    /// Whether a keypress of `pad` at `now` leaves room for the Score, the
    /// Round counter and the deadlines it may set, as [`Game::press`]
    /// requires.
    pub fn press_fits(&self, pad: Pad, now: u64) -> (r: bool)
        ensures
            r == press_fits(self@, pad, now),
    {
        proof {
            use_type_invariant(self);
        }
        let d = &self.data;
        match d.state {
            State::Echo { expected, .. } => {
                if d.sequence[expected] != pad {
                    true
                } else {
                    let points = BASE_POINTS as u64 * tier_for_round(d.round) as u64;
                    d.score as u64 + points <= u32::MAX as u64 && now <= LATEST_NOW && (expected
                        + 1 != d.sequence.len() || d.round < u32::MAX)
                }
            },
            _ => true,
        }
    }

    /// The High Score to store once a call has moved the game on from
    /// `before`: the new record, when that call ended a Run that beat the
    /// High Score, and nothing otherwise.
    pub fn high_score_to_store(&self, before: Phase) -> (r: Option<u32>)
        ensures
            r == (if before != Phase::GameOver && phase_of(self@.state) == Phase::GameOver
                && self@.new_high_score {
                Some(self@.high_score)
            } else {
                None
            }),
    {
        if before != Phase::GameOver && self.phase() == Phase::GameOver && self.data.new_high_score {
            Some(self.data.high_score)
        } else {
            None
        }
    }

    /// Advance time-driven state. `now` is the time seam: the shell calls
    /// this every tick; tests script their own timeline. Loops so one late
    /// tick can cross several deadlines.
    pub fn tick(&mut self, now: u64)
        requires
            tick_fits(old(self)@, now),
        ensures
            final(self)@ == tick_spec(old(self)@, now),
    {
        let mut d = self.take_data();
        d.tick(now);
        proof {
            lemma_tick_spec(old(self)@, now);
        }
        self.data = d;
    }

    /// The Pad currently flooding solid with its bright color, if any. Pads
    /// flash only for game reasons: Watch playback and Echo presses.
    pub fn lit_pad(&self) -> (r: Option<Pad>)
        ensures
            r == lit_pad_of(self@),
    {
        proof {
            use_type_invariant(self);
        }
        match self.data.state {
            State::Watch { step, lit: true, .. } => Some(self.data.sequence[step]),
            State::Echo { flash: Some(flash), .. } => Some(flash.pad),
            _ => None,
        }
    }

    /// The Phase the board reads out.
    pub fn phase(&self) -> (r: Phase)
        ensures
            r == phase_of(self@.state),
    {
        match self.data.state {
            State::Title => Phase::Title,
            State::Watch { .. } => Phase::Watch,
            State::Echo { .. } => Phase::Echo,
            State::GameOver { .. } => Phase::GameOver,
        }
    }

    /// The Mistake that ended the Run, once it is over.
    pub fn mistake(&self) -> (r: Option<Mistake>)
        ensures
            r == mistake_of(self@),
    {
        match self.data.state {
            State::GameOver { mistake } => Some(mistake),
            _ => None,
        }
    }

    pub fn score(&self) -> (r: u32)
        ensures
            r == self@.score,
    {
        self.data.score
    }

    /// The best Score across all Runs, including the one on record when the
    /// game opened.
    pub fn high_score(&self) -> (r: u32)
        ensures
            r == self@.high_score,
    {
        self.data.high_score
    }

    /// Whether the last Run ended with a Score above the High Score it
    /// started with.
    pub fn new_high_score(&self) -> (r: bool)
        ensures
            r == self@.new_high_score,
    {
        self.data.new_high_score
    }

    /// The current Round, or 0 while no Run is underway.
    pub fn round(&self) -> (r: u32)
        ensures
            r == self@.round,
    {
        self.data.round
    }

    /// The Speed Tier's score multiplier (x1 to x4) for the current Round,
    /// or for the last Round once the Run is over.
    pub fn speed_tier(&self) -> (r: u32)
        ensures
            r == tier_of(self@.round),
    {
        tier_for_round(self.data.round)
    }
}

} // verus!
