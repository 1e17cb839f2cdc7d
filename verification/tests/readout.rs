use simon_says::readout::{centered, mistake_text, phase_text, round_text, vertical_padding, Area};
use simon_says::{Game, Mistake};

#[test]
fn labels_read_out_phase_and_round() {
    let mut game = Game::new(42);
    assert_eq!(phase_text(&game), "TITLE");
    assert_eq!(round_text(&game), "\u{2014}");
    game.start(1_000);
    assert_eq!(phase_text(&game), "WATCH");
    assert_eq!(round_text(&game), "1");
    game.tick(1_450);
    assert_eq!(phase_text(&game), "ECHO");
    game.press(simon_says::Pad::Up, 1_450);
    assert_eq!(phase_text(&game), "GAME OVER");
    assert_eq!(round_text(&game), "1");
}

#[test]
fn overlays_center_and_clip() {
    let board = Area { x: 0, y: 0, width: 100, height: 30 };
    assert_eq!(centered(board, 44, 9), Area { x: 28, y: 10, width: 44, height: 9 });
    let small = Area { x: 3, y: 4, width: 20, height: 5 };
    assert_eq!(centered(small, 44, 9), Area { x: 3, y: 4, width: 20, height: 5 });
    let odd = Area { x: 1, y: 1, width: 45, height: 10 };
    assert_eq!(centered(odd, 44, 9), Area { x: 1, y: 1, width: 44, height: 9 });
}

#[test]
fn vertical_padding_splits_spare_rows() {
    assert_eq!(vertical_padding(10, 2), 4);
    assert_eq!(vertical_padding(7, 6), 0);
    assert_eq!(vertical_padding(3, 6), 0);
    assert_eq!(vertical_padding(0, 0), 0);
}

#[test]
fn mistakes_read_out_by_name() {
    assert_eq!(mistake_text(Mistake::WrongPad), "WRONG PAD");
    assert_eq!(mistake_text(Mistake::TooSlow), "TOO SLOW");
}
