//! Move handling against the real rules oracle: turn order, legality,
//! checkmate and stalemate.

use threadrook::chess_match::{ChessMatch, Colour, GameState, PlayerTime};
use threadrook::command::{GameEnd, MatchCommand, Outcome};

fn playing_match() -> ChessMatch {
    let mut m = ChessMatch::new(1, Colour::White, 90, PlayerTime { white: 300, black: 300 });
    let r = m.handle_command(&MatchCommand::JoinMatch { target: 1, joiner: 2 });
    assert_eq!(r, Outcome::OpponentJoined);
    m
}

fn make_move(m: &mut ChessMatch, mover: u64, text: &str) -> Outcome {
    m.handle_command(&MatchCommand::MakeMove { mover, move_text: text.to_string() })
}

#[test]
fn stranger_cannot_move() {
    let mut m = playing_match();
    let r = make_move(&mut m, 42, "e2e4");
    assert_eq!(r, Outcome::NotAParticipant);
    assert_eq!(m.state, GameState::Playing);
    assert_eq!(m.acting_colour, Colour::White);
    // The position was left untouched: white's opening move is still there
    // to be played.
    assert_eq!(make_move(&mut m, 1, "e2e4"), Outcome::MoveAccepted { game_end: None });
}

#[test]
fn moving_out_of_turn_is_refused() {
    let mut m = playing_match();
    let r = make_move(&mut m, 2, "e7e5");
    assert_eq!(r, Outcome::NotYourTurn);
    assert_eq!(m.state, GameState::Playing);
    assert_eq!(m.acting_colour, Colour::White);
}

#[test]
fn illegal_move_text_is_refused() {
    let mut m = playing_match();
    let r = make_move(&mut m, 1, "zzzz");
    assert_eq!(r, Outcome::IllegalMove);
    assert_eq!(m.state, GameState::Playing);
    assert_eq!(m.acting_colour, Colour::White);
    // A pawn cannot jump three ranks either.
    assert_eq!(make_move(&mut m, 1, "e2e5"), Outcome::IllegalMove);
    // The position is unchanged: the legal opening move still goes through.
    assert_eq!(make_move(&mut m, 1, "e2e4"), Outcome::MoveAccepted { game_end: None });
}

#[test]
fn accepted_move_flips_acting_colour() {
    let mut m = playing_match();
    assert_eq!(m.acting_colour, Colour::White);
    assert_eq!(make_move(&mut m, 1, "e2e4"), Outcome::MoveAccepted { game_end: None });
    assert_eq!(m.acting_colour, Colour::Black);
    assert_eq!(make_move(&mut m, 2, "e7e5"), Outcome::MoveAccepted { game_end: None });
    assert_eq!(m.acting_colour, Colour::White);
    assert_eq!(m.state, GameState::Playing);
}

#[test]
fn participants_keep_their_colours_across_moves() {
    let mut m = ChessMatch::new(1, Colour::Black, 90, PlayerTime { white: 300, black: 300 });
    m.handle_command(&MatchCommand::JoinMatch { target: 1, joiner: 2 });
    // Participant 1 took black, so participant 2 plays white and must move
    // first.
    assert_eq!(make_move(&mut m, 1, "e2e4"), Outcome::NotYourTurn);
    assert_eq!(make_move(&mut m, 2, "e2e4"), Outcome::MoveAccepted { game_end: None });
    assert_eq!(make_move(&mut m, 1, "e7e5"), Outcome::MoveAccepted { game_end: None });
}

#[test]
fn fools_mate_ends_the_game_without_flipping_the_turn() {
    let mut m = playing_match();
    assert_eq!(make_move(&mut m, 1, "f2f3"), Outcome::MoveAccepted { game_end: None });
    assert_eq!(make_move(&mut m, 2, "e7e5"), Outcome::MoveAccepted { game_end: None });
    assert_eq!(make_move(&mut m, 1, "g2g4"), Outcome::MoveAccepted { game_end: None });
    assert_eq!(m.acting_colour, Colour::Black);
    let r = make_move(&mut m, 2, "d8h4");
    assert_eq!(
        r,
        Outcome::MoveAccepted { game_end: Some(GameEnd::Checkmate { winner: Colour::Black }) }
    );
    assert_eq!(m.state, GameState::GameOver);
    // The mating side keeps the turn: no flip on a game-ending move.
    assert_eq!(m.acting_colour, Colour::Black);
}

#[test]
fn quickest_stalemate_is_reported() {
    let mut m = playing_match();
    let white_moves = [
        "e2e3", "d1h5", "h5a5", "h2h4", "a5c7", "c7d7", "d7b7", "b7b8", "b8c8", "c8e6",
    ];
    let black_moves = ["a7a5", "a8a6", "h7h5", "a6h6", "f7f6", "e8f7", "d8d3", "d3h7", "f7g6"];
    for i in 0..9 {
        assert_eq!(
            make_move(&mut m, 1, white_moves[i]),
            Outcome::MoveAccepted { game_end: None },
            "white move {} was refused or ended the game",
            white_moves[i]
        );
        assert_eq!(
            make_move(&mut m, 2, black_moves[i]),
            Outcome::MoveAccepted { game_end: None },
            "black move {} was refused or ended the game",
            black_moves[i]
        );
    }
    let r = make_move(&mut m, 1, white_moves[9]);
    assert_eq!(r, Outcome::MoveAccepted { game_end: Some(GameEnd::Stalemate) });
    assert_eq!(m.state, GameState::GameOver);
}

#[test]
fn clock_runs_for_the_acting_colour_only() {
    let mut m = playing_match();
    make_move(&mut m, 1, "e2e4");
    assert_eq!(m.acting_colour, Colour::Black);
    let r = m.handle_command(&MatchCommand::TimeTick);
    assert_eq!(r, Outcome::ClockTicked);
    assert_eq!(m.player_time.black, 299);
    assert_eq!(m.player_time.white, 300);
}

#[test]
fn outcome_reports_which_sessions_end() {
    let mut m = playing_match();
    let ongoing = make_move(&mut m, 1, "e2e4");
    assert!(!ongoing.ends_session());
    let r = m.handle_command(&MatchCommand::Resign { mover: 1 });
    assert!(r.ends_session());
}
