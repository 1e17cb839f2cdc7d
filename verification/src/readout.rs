//! What the board reads out: the labels of the Phase and the Round, and
//! the placement arithmetic of the overlays. Rendering itself belongs to
//! the shell.
use vstd::prelude::*;

use crate::game::{phase_of, Game, Mistake, Phase};
use crate::highscore::{decimal, push_decimal};

verus! {

/// A rectangle of terminal cells.
#[derive(Clone, Copy, Debug, PartialEq, Eq, Structural)]
pub struct Area {
    pub x: u16,
    pub y: u16,
    pub width: u16,
    pub height: u16,
}

/// The label a Phase reads out as.
pub open spec fn phase_label(p: Phase) -> Seq<char> {
    match p {
        Phase::Title => "TITLE"@,
        Phase::Watch => "WATCH"@,
        Phase::Echo => "ECHO"@,
        Phase::GameOver => "GAME OVER"@,
    }
}

/// The label a Mistake reads out as.
pub open spec fn mistake_label(m: Mistake) -> Seq<char> {
    match m {
        Mistake::WrongPad => "WRONG PAD"@,
        Mistake::TooSlow => "TOO SLOW"@,
    }
}

/// The Mistake that ended a Run, as a label.
pub fn mistake_text(mistake: Mistake) -> (r: &'static str)
    ensures
        r@ == mistake_label(mistake),
{
    match mistake {
        Mistake::WrongPad => "WRONG PAD",
        Mistake::TooSlow => "TOO SLOW",
    }
}

/// The label a Round reads out as: an em dash while no Run is underway
/// (Round 0), else its decimal number.
pub open spec fn round_label(round: u32) -> Seq<char> {
    if round == 0 {
        "\u{2014}"@
    } else {
        decimal(round as nat)
    }
}

/// The game's Phase, as a label.
pub fn phase_text(game: &Game) -> (r: &'static str)
    ensures
        r@ == phase_label(phase_of(game@.state)),
{
    match game.phase() {
        Phase::Title => "TITLE",
        Phase::Watch => "WATCH",
        Phase::Echo => "ECHO",
        Phase::GameOver => "GAME OVER",
    }
}

/// The game's Round, as a label.
pub fn round_text(game: &Game) -> (r: String)
    ensures
        r@ == round_label(game@.round),
{
    // Round 0 means no Run is underway yet.
    if game.round() == 0 {
        "\u{2014}".to_owned()
    } else {
        let mut s = String::new();
        push_decimal(&mut s, game.round());
        assert(s@ =~= decimal(game@.round as nat));
        s
    }
}

/// `a - b`, or 0 when `b` exceeds `a`.
pub open spec fn saturating_sub(a: int, b: int) -> int {
    if a > b {
        a - b
    } else {
        0
    }
}

/// A `width` x `height` box centered in `area`, clipped to it.
pub open spec fn centered_spec(area: Area, width: u16, height: u16) -> Area {
    Area {
        x: (area.x + saturating_sub(area.width as int, width as int) / 2) as u16,
        y: (area.y + saturating_sub(area.height as int, height as int) / 2) as u16,
        width: if width < area.width {
            width
        } else {
            area.width
        },
        height: if height < area.height {
            height
        } else {
            area.height
        },
    }
}

/// The centered box's corner fits the coordinate type.
pub open spec fn centered_fits(area: Area, width: u16, height: u16) -> bool {
    &&& area.x + saturating_sub(area.width as int, width as int) / 2 <= u16::MAX
    &&& area.y + saturating_sub(area.height as int, height as int) / 2 <= u16::MAX
}

/// A `width` x `height` box centered in `area`, clipped to it.
pub fn centered(area: Area, width: u16, height: u16) -> (r: Area)
    requires
        centered_fits(area, width, height),
    ensures
        r == centered_spec(area, width, height),
{
    Area {
        x: area.x + area.width.saturating_sub(width) / 2,
        y: area.y + area.height.saturating_sub(height) / 2,
        width: if width < area.width {
            width
        } else {
            area.width
        },
        height: if height < area.height {
            height
        } else {
            area.height
        },
    }
}

/// The blank lines above `lines` lines of content that center it in
/// `height` rows: half the spare rows, rounded down, none when the content
/// does not fit.
pub fn vertical_padding(height: u16, lines: usize) -> (r: usize)
    ensures
        r == saturating_sub(height as int, lines as int) / 2,
{
    (height as usize).saturating_sub(lines) / 2
}

} // verus!
