//! The pure decision helpers: participant resolution, colour lookup, and
//! clock reads.

use threadrook::chess_match::{
    get_member_from_chessplayer, get_opposite_colour, ChessMatch, Colour, MatchError, PlayerSlot,
    PlayerTime,
};
use threadrook::command::MatchCommand;

fn playing_match() -> ChessMatch {
    let mut m = ChessMatch::new(10, Colour::White, 90, PlayerTime { white: 55, black: 44 });
    m.handle_command(&MatchCommand::JoinMatch { target: 10, joiner: 20 });
    m
}

#[test]
fn opposite_colour_swaps_sides() {
    assert_eq!(get_opposite_colour(Colour::White), Colour::Black);
    assert_eq!(get_opposite_colour(Colour::Black), Colour::White);
}

#[test]
fn members_resolve_to_their_slots() {
    let m = playing_match();
    let p1 = m.check_if_member_is_in_game(10).expect("creator must be found");
    assert_eq!(p1.player_slot, PlayerSlot::Player1);
    assert_eq!(p1.user_id, Some(10));
    assert_eq!(p1.in_game_representation, Colour::White);
    let p2 = m.check_if_member_is_in_game(20).expect("joiner must be found");
    assert_eq!(p2.player_slot, PlayerSlot::Player2);
    assert_eq!(p2.in_game_representation, Colour::Black);
    assert_eq!(m.check_if_member_is_in_game(30), Err(MatchError::NotAParticipant));
}

#[test]
fn is_participant_matches_both_slots() {
    let m = playing_match();
    assert!(m.is_participant(10));
    assert!(m.is_participant(20));
    assert!(!m.is_participant(30));
}

#[test]
fn acting_chessplayer_is_found_by_colour() {
    let m = playing_match();
    let white = m.get_acting_chessplayer(Colour::White).expect("white is assigned");
    assert_eq!(white.user_id, Some(10));
    let black = m.get_acting_chessplayer(Colour::Black).expect("black is assigned");
    assert_eq!(black.user_id, Some(20));
}

#[test]
fn timeleft_reads_the_right_clock() {
    let m = playing_match();
    assert_eq!(m.get_colour_timeleft(Colour::White), 55);
    assert_eq!(m.get_colour_timeleft(Colour::Black), 44);
}

#[test]
fn chessplayer_maps_back_to_member_identity() {
    let m = playing_match();
    let p1 = m.check_if_member_is_in_game(10).unwrap();
    let p2 = m.check_if_member_is_in_game(20).unwrap();
    assert_eq!(get_member_from_chessplayer(&p1, 10, 20), Ok(10));
    assert_eq!(get_member_from_chessplayer(&p2, 10, 20), Ok(20));
    assert_eq!(get_member_from_chessplayer(&p1, 77, 88), Err(MatchError::UnknownPlayer));
}

#[test]
fn random_colour_draw_yields_a_side() {
    let c = threadrook::chess_match::choose_random_colour();
    assert!(c == Colour::White || c == Colour::Black);
}
