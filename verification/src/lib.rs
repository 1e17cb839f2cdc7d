//! The Simon Says game core: the state machine, its random source, and the
//! High Score storage rules. No terminal or UI types appear here; the shell
//! owns the tick loop, the rendering and the file access.
//!
//! Two seams keep the core deterministic: time never originates inside this
//! crate (every time-sensitive call takes `now`, in milliseconds), and
//! randomness comes only from the seed passed to [`game::Game::new`].
pub mod game;
pub mod highscore;
pub mod laws;
pub mod readout;
pub mod rng;

pub use game::{Game, Mistake, Pad, Phase};
