# simon_says

A terminal Simon Says game. The library (`src/`) is verified with Verus:

- `game`: the state machine (Title, Watch, Echo, Game Over) with Speed
  Tiers, scoring, the per-key timeout and the High Score, every operation
  specified as a function on a `GameModel` (`start_spec`, `press_spec`,
  `tick_spec`). Time is a millisecond count supplied by the caller.
- `rng`: the xorshift64 generator behind each new Step.
- `highscore`: where the High Score file lives and what its text is worth.
- `readout`: the Phase and Round labels and the overlay placement arithmetic.
- `laws`: properties proved of every game (no tempo drift across ticks, the
  Watch schedule per tier, scoring, the timeout, Sudden Death, the High
  Score, the round trip of its stored form, ...).

`app/` is the ratatui shell: terminal loop, rendering, and loading and
saving the High Score file.

The screen flow goes Enter -> Watch, Echo -> next Watch, and Mistake ->
Game Over with no beats between: the game's unit scenarios (a Run starts
straight into Watch; a wrong Pad is straight into Game Over) fix that flow,
so the Get Ready, Round Break and Death Freeze beats of the design notes,
and the Round Break's SPEED UP! callout, are not part of this game.
