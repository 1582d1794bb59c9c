//! Trusted boundary to the chess rules oracle.
//!
//! The session coordinator treats a position as an opaque value: it threads
//! `pleco::Board` through the oracle's calls and never inspects it. Each call
//! the coordinator needs is wrapped here with a contract over named results:
//! the legal-move texts, the position after a move, and the end-of-game
//! tests are all functions of the position value alone, so each gets an
//! uninterpreted name that the wrappers' contracts share.

use vstd::prelude::*;

verus! {

#[verifier::external_type_specification]
#[verifier::external_body]
pub struct ExBoard(pleco::Board);

/// The legal moves of a position, each rendered as its move text, in the
/// oracle's generation order.
pub uninterp spec fn oracle_legal_moves(p: pleco::Board) -> Seq<Seq<char>>;

/// The position reached by playing the `n`-th legal move of `p`.
pub uninterp spec fn oracle_position_after(p: pleco::Board, n: int) -> pleco::Board;

/// Whether the side to move in `p` is checkmated.
pub uninterp spec fn oracle_checkmate(p: pleco::Board) -> bool;

/// Whether the side to move in `p` is stalemated.
pub uninterp spec fn oracle_stalemate(p: pleco::Board) -> bool;

/// Relies on `pleco::Board::start_pos`: the standard chess starting position.
#[verifier::external_body]
pub(crate) fn initial_position() -> (r: pleco::Board) {
    pleco::Board::start_pos()
}

/// Relies on `pleco::Board::generate_moves` and `pleco::BitMove::stringify`:
/// the legal moves of the position, converted one for one to their texts.
#[verifier::external_body]
pub(crate) fn legal_move_texts(p: &pleco::Board) -> (r: Vec<String>)
    ensures
        r.deep_view() == oracle_legal_moves(*p),
{
    p.generate_moves().iter_mut().map(|chess_move| chess_move.stringify()).collect()
}

/// Relies on `pleco::Board::apply_move` (and `generate_moves` to look the
/// move up again): plays the `n`-th legal move on the position.
#[verifier::external_body]
pub(crate) fn apply_nth_legal_move(p: &mut pleco::Board, n: usize)
    requires
        n < oracle_legal_moves(*old(p)).len(),
    ensures
        *final(p) == oracle_position_after(*old(p), n as int),
{
    let bit_move = p.generate_moves()[n];
    p.apply_move(bit_move);
}

/// Relies on `pleco::Board::checkmate`.
#[verifier::external_body]
pub(crate) fn is_checkmate(p: &pleco::Board) -> (r: bool)
    ensures
        r == oracle_checkmate(*p),
{
    p.checkmate()
}

/// Relies on `pleco::Board::stalemate`.
#[verifier::external_body]
pub(crate) fn is_stalemate(p: &pleco::Board) -> (r: bool)
    ensures
        r == oracle_stalemate(*p),
{
    p.stalemate()
}

} // verus!
