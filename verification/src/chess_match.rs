//! The per-session state machine and turn authority.
//!
//! A `ChessMatch` owns all mutable state of one session: the lifecycle state,
//! the two participant slots, the clocks, the join deadline, the acting
//! colour, and the opaque position. `handle_command` applies one bus command
//! and returns the `Outcome` the surrounding loop acts on; the transition it
//! performs is pinned down, case by case, by the `step` relation below, and
//! the laws of the state machine are proved of that relation.

use vstd::prelude::*;

use crate::command::{GameEnd, MatchCommand, Outcome};
use crate::oracle::{
    apply_nth_legal_move, initial_position, is_checkmate, is_stalemate, legal_move_texts,
    oracle_checkmate, oracle_legal_moves, oracle_position_after, oracle_stalemate,
};

verus! {

/// The two sides of the game, fixed at session creation.
#[derive(Debug, Clone, Copy, PartialEq, Eq, Structural)]
pub enum Colour {
    White,
    Black,
}

/// Lifecycle state of a session; transitions are strictly forward.
#[derive(Debug, Clone, Copy, PartialEq, Eq, Structural)]
pub enum GameState {
    WaitingForOpponent,
    Playing,
    GameOver,
}

/// Which of the two slots a participant occupies.
#[derive(Debug, Clone, Copy, PartialEq, Eq, Structural)]
pub enum PlayerSlot {
    Player1,
    Player2,
}

/// Remaining time units for each colour.
#[derive(Debug, Clone, Copy, PartialEq, Eq, Structural)]
pub struct PlayerTime {
    pub white: i32,
    pub black: i32,
}

/// One participant slot: the identity is unset until somebody takes the slot.
#[derive(Debug, Clone, Copy, PartialEq, Eq)]
pub struct ChessPlayer {
    pub user_id: Option<u64>,
    pub player_slot: PlayerSlot,
    pub in_game_representation: Colour,
}

/// The recoverable faults the turn authority reports; none of them mutates
/// session state.
#[derive(Debug, Clone, Copy, PartialEq, Eq, Structural)]
pub enum MatchError {
    /// The identity is not a participant of this session.
    NotAParticipant,
    /// Neither participant is assigned the queried colour.
    NoPlayerWithColour,
    /// The participant record matches neither given identity.
    UnknownPlayer,
}

/// One session's whole mutable state.
pub struct ChessMatch {
    pub state: GameState,
    pub opponent_join_deadline: i32,
    pub player_one: ChessPlayer,
    pub player_two: ChessPlayer,
    pub player_time: PlayerTime,
    /// The colour entitled to act while `Playing`. White starts.
    pub acting_colour: Colour,
    /// The position, owned by the rules oracle; held and threaded through
    /// oracle calls, never inspected.
    pub position: pleco::Board,
}

/// The other side.
pub open spec fn spec_opposite_colour(colour: Colour) -> Colour {
    match colour {
        Colour::White => Colour::Black,
        Colour::Black => Colour::White,
    }
}

/// The other side.
pub fn get_opposite_colour(colour: Colour) -> (r: Colour)
    ensures
        r == spec_opposite_colour(colour),
{
    if colour == Colour::White {
        Colour::Black
    } else {
        Colour::White
    }
}

/// Position of a state in the one-way lifecycle.
pub open spec fn state_rank(s: GameState) -> int {
    match s {
        GameState::WaitingForOpponent => 0,
        GameState::Playing => 1,
        GameState::GameOver => 2,
    }
}

/// Default number of time units an opponent has to join.
pub const DEFAULT_JOIN_DEADLINE: i32 = 90;

/// Default number of time units on each colour's clock.
pub const DEFAULT_TIME_UNITS: i32 = 300;

impl ChessMatch {
    /// Well-formedness: slot assignment, opposed colours, and the clock and
    /// deadline bounds each lifecycle state maintains.
    pub open spec fn wf(self) -> bool {
        &&& self.player_one.player_slot is Player1
        &&& self.player_two.player_slot is Player2
        &&& self.player_one.user_id is Some
        &&& self.player_two.in_game_representation == spec_opposite_colour(
            self.player_one.in_game_representation,
        )
        &&& self.opponent_join_deadline >= 0
        &&& self.player_time.white >= 0
        &&& self.player_time.black >= 0
        &&& self.state is WaitingForOpponent ==> {
            &&& self.player_two.user_id is None
            &&& self.opponent_join_deadline >= 1
            &&& self.player_time.white >= 1
            &&& self.player_time.black >= 1
        }
        &&& self.state is Playing ==> {
            &&& self.player_two.user_id is Some
            &&& self.player_time.white >= 1
            &&& self.player_time.black >= 1
        }
    }

    /// Whether `identity` occupies one of the two participant slots.
    pub open spec fn spec_is_participant(self, identity: u64) -> bool {
        self.player_one.user_id == Some(identity) || self.player_two.user_id == Some(identity)
    }

    /// The colour of the participant with `identity`; the first slot wins a
    /// tie, as the lookup order does.
    pub open spec fn spec_participant_colour(self, identity: u64) -> Colour {
        if self.player_one.user_id == Some(identity) {
            self.player_one.in_game_representation
        } else {
            self.player_two.in_game_representation
        }
    }

    /// Remaining time units of `colour`.
    pub open spec fn spec_timeleft(self, colour: Colour) -> int {
        match colour {
            Colour::White => self.player_time.white as int,
            Colour::Black => self.player_time.black as int,
        }
    }

    /// `self` with `colour`'s clock set to `t`.
    pub open spec fn spec_with_clock(self, colour: Colour, t: i32) -> ChessMatch {
        match colour {
            Colour::White => ChessMatch {
                player_time: PlayerTime { white: t, ..self.player_time },
                ..self
            },
            Colour::Black => ChessMatch {
                player_time: PlayerTime { black: t, ..self.player_time },
                ..self
            },
        }
    }

    /// Build a fresh session in `WaitingForOpponent`: the creator holds the
    /// first slot with the given colour, the second slot is open with the
    /// opposite colour, and White is the side that will start.
    pub fn new(
        creator: u64,
        player_one_colour: Colour,
        opponent_join_deadline: i32,
        player_time: PlayerTime,
    ) -> (m: ChessMatch)
        requires
            opponent_join_deadline >= 1,
            player_time.white >= 1,
            player_time.black >= 1,
        ensures
            m.wf(),
            m.state is WaitingForOpponent,
            m.player_one.user_id == Some(creator),
            m.player_one.in_game_representation == player_one_colour,
            m.player_two.user_id is None,
            m.player_two.in_game_representation == spec_opposite_colour(player_one_colour),
            m.opponent_join_deadline == opponent_join_deadline,
            m.player_time == player_time,
            m.acting_colour is White,
    {
        ChessMatch {
            state: GameState::WaitingForOpponent,
            opponent_join_deadline,
            player_one: ChessPlayer {
                user_id: Some(creator),
                player_slot: PlayerSlot::Player1,
                in_game_representation: player_one_colour,
            },
            player_two: ChessPlayer {
                user_id: None,
                player_slot: PlayerSlot::Player2,
                in_game_representation: get_opposite_colour(player_one_colour),
            },
            player_time,
            acting_colour: Colour::White,
            position: initial_position(),
        }
    }

    /// Executable form of `spec_is_participant`.
    pub fn is_participant(&self, identity: u64) -> (r: bool)
        ensures
            r == self.spec_is_participant(identity),
    {
        self.player_one.user_id == Some(identity) || self.player_two.user_id == Some(identity)
    }

    /// Resolve `query_member` to the participant record it occupies, the
    /// first slot winning a tie.
    pub fn check_if_member_is_in_game(&self, query_member: u64) -> (r: Result<
        ChessPlayer,
        MatchError,
    >)
        ensures
            self.player_one.user_id == Some(query_member) ==> r == Ok::<
                ChessPlayer,
                MatchError,
            >(self.player_one),
            self.player_one.user_id != Some(query_member) && self.player_two.user_id == Some(
                query_member,
            ) ==> r == Ok::<ChessPlayer, MatchError>(self.player_two),
            !self.spec_is_participant(query_member) ==> r == Err::<
                ChessPlayer,
                MatchError,
            >(MatchError::NotAParticipant),
            r is Ok ==> self.spec_is_participant(query_member),
            r matches Ok(p) ==> p.in_game_representation == self.spec_participant_colour(
                query_member,
            ),
    {
        if self.player_one.user_id == Some(query_member) {
            Ok(self.player_one)
        } else if self.player_two.user_id == Some(query_member) {
            Ok(self.player_two)
        } else {
            Err(MatchError::NotAParticipant)
        }
    }

    /// The participant record holding `acting_player_colour`, the first slot
    /// checked first.
    pub fn get_acting_chessplayer(&self, acting_player_colour: Colour) -> (r: Result<
        ChessPlayer,
        MatchError,
    >)
        ensures
            self.player_one.in_game_representation == acting_player_colour ==> r == Ok::<
                ChessPlayer,
                MatchError,
            >(self.player_one),
            self.player_one.in_game_representation != acting_player_colour
                && self.player_two.in_game_representation == acting_player_colour ==> r == Ok::<
                ChessPlayer,
                MatchError,
            >(self.player_two),
            self.player_one.in_game_representation != acting_player_colour
                && self.player_two.in_game_representation != acting_player_colour ==> r == Err::<
                ChessPlayer,
                MatchError,
            >(MatchError::NoPlayerWithColour),
    {
        if self.player_one.in_game_representation == acting_player_colour {
            Ok(self.player_one)
        } else if self.player_two.in_game_representation == acting_player_colour {
            Ok(self.player_two)
        } else {
            Err(MatchError::NoPlayerWithColour)
        }
    }

    /// Remaining time units of `query_colour`.
    pub fn get_colour_timeleft(&self, query_colour: Colour) -> (r: i32)
        ensures
            r as int == self.spec_timeleft(query_colour),
    {
        match query_colour {
            Colour::White => self.player_time.white,
            Colour::Black => self.player_time.black,
        }
    }
}

/// Map a participant record back to whichever of the two given identities it
/// carries.
pub fn get_member_from_chessplayer(
    query_chessplayer: &ChessPlayer,
    player_one_id: u64,
    player_two_id: u64,
) -> (r: Result<u64, MatchError>)
    requires
        query_chessplayer.user_id is Some,
    ensures
        query_chessplayer.user_id == Some(player_one_id) ==> r == Ok::<u64, MatchError>(
            player_one_id,
        ),
        query_chessplayer.user_id != Some(player_one_id) && query_chessplayer.user_id == Some(
            player_two_id,
        ) ==> r == Ok::<u64, MatchError>(player_two_id),
        query_chessplayer.user_id != Some(player_one_id) && query_chessplayer.user_id != Some(
            player_two_id,
        ) ==> r == Err::<u64, MatchError>(MatchError::UnknownPlayer),
{
    if query_chessplayer.user_id == Some(player_one_id) {
        Ok(player_one_id)
    } else if query_chessplayer.user_id == Some(player_two_id) {
        Ok(player_two_id)
    } else {
        Err(MatchError::UnknownPlayer)
    }
}

/// The transition relation while `WaitingForOpponent`.
pub open spec fn waiting_step(
    pre: ChessMatch,
    cmd: MatchCommand,
    post: ChessMatch,
    r: Outcome,
) -> bool {
    match cmd {
        MatchCommand::JoinMatch { target, joiner } => {
            if pre.player_one.user_id == Some(target) {
                &&& post == ChessMatch {
                    state: GameState::Playing,
                    player_two: ChessPlayer { user_id: Some(joiner), ..pre.player_two },
                    ..pre
                }
                &&& r == Outcome::OpponentJoined
            } else {
                post == pre && r == Outcome::Ignored
            }
        },
        MatchCommand::MakeMove { .. } => post == pre && r == Outcome::Ignored,
        MatchCommand::Resign { .. } => post == pre && r == Outcome::Ignored,
        MatchCommand::VerifyIfAlreadyInMatch { identity } => {
            &&& post == pre
            &&& r == if pre.player_one.user_id == Some(identity) {
                Outcome::InMatch
            } else {
                Outcome::NotInMatch
            }
        },
        MatchCommand::TimeTick => {
            let ticked = ChessMatch {
                opponent_join_deadline: (pre.opponent_join_deadline - 1) as i32,
                ..pre
            };
            if pre.opponent_join_deadline - 1 == 0 {
                &&& post == ChessMatch { state: GameState::GameOver, ..ticked }
                &&& r == Outcome::MatchAbandoned
            } else {
                &&& post == ticked
                &&& r == Outcome::DeadlineTicked
            }
        },
    }
}

/// The transition relation for a `MakeMove` while `Playing`.
pub open spec fn playing_move_step(
    pre: ChessMatch,
    mover: u64,
    move_text: Seq<char>,
    post: ChessMatch,
    r: Outcome,
) -> bool {
    if !pre.spec_is_participant(mover) {
        post == pre && r == Outcome::NotAParticipant
    } else if pre.spec_participant_colour(mover) != pre.acting_colour {
        post == pre && r == Outcome::NotYourTurn
    } else if !oracle_legal_moves(pre.position).contains(move_text) {
        post == pre && r == Outcome::IllegalMove
    } else {
        exists|i: int|
            {
                &&& 0 <= i < oracle_legal_moves(pre.position).len()
                &&& #[trigger] oracle_legal_moves(pre.position)[i] == move_text
                &&& accepted_move_step(pre, i, post, r)
            }
    }
}

/// After the `i`-th legal move is applied: the game ends on checkmate or
/// stalemate, else the acting colour flips; nothing else changes.
pub open spec fn accepted_move_step(pre: ChessMatch, i: int, post: ChessMatch, r: Outcome) -> bool {
    let newpos = oracle_position_after(pre.position, i);
    if oracle_checkmate(newpos) {
        &&& post == ChessMatch { position: newpos, state: GameState::GameOver, ..pre }
        &&& r == Outcome::MoveAccepted {
            game_end: Some(GameEnd::Checkmate { winner: pre.acting_colour }),
        }
    } else if oracle_stalemate(newpos) {
        &&& post == ChessMatch { position: newpos, state: GameState::GameOver, ..pre }
        &&& r == Outcome::MoveAccepted { game_end: Some(GameEnd::Stalemate) }
    } else {
        &&& post == ChessMatch {
            position: newpos,
            acting_colour: spec_opposite_colour(pre.acting_colour),
            ..pre
        }
        &&& r == Outcome::MoveAccepted { game_end: None }
    }
}

/// The transition relation while `Playing`. Two policies are fixed here: a
/// join attempt against a running game is rejected with a notification, and
/// a resignation is accepted from either participant at any point, the
/// opposite colour winning at once.
pub open spec fn playing_step(
    pre: ChessMatch,
    cmd: MatchCommand,
    post: ChessMatch,
    r: Outcome,
) -> bool {
    match cmd {
        MatchCommand::JoinMatch { .. } => post == pre && r == Outcome::JoinRejected,
        MatchCommand::MakeMove { mover, move_text } => playing_move_step(
            pre,
            mover,
            move_text@,
            post,
            r,
        ),
        MatchCommand::Resign { mover } => {
            if pre.spec_is_participant(mover) {
                &&& post == ChessMatch { state: GameState::GameOver, ..pre }
                &&& r == Outcome::Resigned {
                    winner: spec_opposite_colour(pre.spec_participant_colour(mover)),
                }
            } else {
                post == pre && r == Outcome::NotAParticipant
            }
        },
        MatchCommand::VerifyIfAlreadyInMatch { identity } => {
            &&& post == pre
            &&& r == if pre.spec_is_participant(identity) {
                Outcome::InMatch
            } else {
                Outcome::NotInMatch
            }
        },
        MatchCommand::TimeTick => {
            let t = pre.spec_timeleft(pre.acting_colour) - 1;
            let ticked = pre.spec_with_clock(pre.acting_colour, t as i32);
            if t == 0 {
                &&& post == ChessMatch { state: GameState::GameOver, ..ticked }
                &&& r == Outcome::TimeForfeit {
                    winner: spec_opposite_colour(pre.acting_colour),
                }
            } else {
                post == ticked && r == Outcome::ClockTicked
            }
        },
    }
}

/// The full transition relation of the session state machine: what
/// `handle_command` promises for one command in each lifecycle state.
pub open spec fn step(pre: ChessMatch, cmd: MatchCommand, post: ChessMatch, r: Outcome) -> bool {
    match pre.state {
        GameState::WaitingForOpponent => waiting_step(pre, cmd, post, r),
        GameState::Playing => playing_step(pre, cmd, post, r),
        GameState::GameOver => post == pre && r == Outcome::Ignored,
    }
}

/// Look `move_text` up in the legal-move texts; `Some` returns a witness
/// index, `None` means it occurs nowhere.
fn find_move_index(legal: &Vec<String>, move_text: &String) -> (r: Option<usize>)
    ensures
        match r {
            Some(i) => i < legal.len() && legal.deep_view()[i as int] == move_text@,
            None => !legal.deep_view().contains(move_text@),
        },
{
    let mut idx: usize = 0;
    while idx < legal.len()
        invariant
            idx <= legal.len(),
            forall|j: int| 0 <= j < idx ==> legal.deep_view()[j] != move_text@,
        decreases legal.len() - idx,
    {
        if legal[idx] == *move_text {
            return Some(idx);
        }
        idx = idx + 1;
    }
    None
}

/// Relies on `rand::random`: one draw of a uniformly random value.
pub assume_specification<T>[ rand::random::<T> ]() -> (r: T)
    where
        rand::distr::StandardUniform: rand::distr::Distribution<T>,
;

/// Draw a colour at random; either side can come back.
pub fn choose_random_colour() -> Colour {
    if rand::random::<bool>() {
        Colour::White
    } else {
        Colour::Black
    }
}

/// The decision core of creating a match: draw the creator's colour at
/// random and open a waiting session with the default deadline and clocks.
pub fn create_match_session(creator: u64) -> (m: ChessMatch)
    ensures
        m.wf(),
        m.state is WaitingForOpponent,
        m.player_one.user_id == Some(creator),
        m.player_two.user_id is None,
        m.player_two.in_game_representation == spec_opposite_colour(
            m.player_one.in_game_representation,
        ),
        m.opponent_join_deadline == DEFAULT_JOIN_DEADLINE,
        m.player_time == (PlayerTime { white: DEFAULT_TIME_UNITS, black: DEFAULT_TIME_UNITS }),
        m.acting_colour is White,
{
    let player_one_colour = choose_random_colour();
    ChessMatch::new(
        creator,
        player_one_colour,
        DEFAULT_JOIN_DEADLINE,
        PlayerTime { white: DEFAULT_TIME_UNITS, black: DEFAULT_TIME_UNITS },
    )
}

impl ChessMatch {
    /// Apply one command to the session and report what was decided. The
    /// transition is exactly the `step` relation.
    pub fn handle_command(&mut self, cmd: &MatchCommand) -> (r: Outcome)
        requires
            old(self).wf(),
        ensures
            final(self).wf(),
            step(*old(self), *cmd, *final(self), r),
    {
        match self.state {
            GameState::WaitingForOpponent => self.handle_waiting(cmd),
            GameState::Playing => self.handle_playing(cmd),
            GameState::GameOver => Outcome::Ignored,
        }
    }

    /// Command dispatch while `WaitingForOpponent`.
    fn handle_waiting(&mut self, cmd: &MatchCommand) -> (r: Outcome)
        requires
            old(self).wf(),
            old(self).state is WaitingForOpponent,
        ensures
            final(self).wf(),
            waiting_step(*old(self), *cmd, *final(self), r),
    {
        match cmd {
            MatchCommand::JoinMatch { target, joiner } => {
                if self.player_one.user_id == Some(*target) {
                    self.player_two.user_id = Some(*joiner);
                    self.state = GameState::Playing;
                    Outcome::OpponentJoined
                } else {
                    Outcome::Ignored
                }
            },
            MatchCommand::MakeMove { .. } => Outcome::Ignored,
            MatchCommand::Resign { .. } => Outcome::Ignored,
            MatchCommand::VerifyIfAlreadyInMatch { identity } => {
                if self.player_one.user_id == Some(*identity) {
                    Outcome::InMatch
                } else {
                    Outcome::NotInMatch
                }
            },
            MatchCommand::TimeTick => {
                self.opponent_join_deadline = self.opponent_join_deadline - 1;
                if self.opponent_join_deadline == 0 {
                    self.state = GameState::GameOver;
                    Outcome::MatchAbandoned
                } else {
                    Outcome::DeadlineTicked
                }
            },
        }
    }

    /// Command dispatch while `Playing`.
    fn handle_playing(&mut self, cmd: &MatchCommand) -> (r: Outcome)
        requires
            old(self).wf(),
            old(self).state is Playing,
        ensures
            final(self).wf(),
            playing_step(*old(self), *cmd, *final(self), r),
    {
        match cmd {
            MatchCommand::JoinMatch { .. } => Outcome::JoinRejected,
            MatchCommand::MakeMove { mover, move_text } => self.handle_make_move(
                *mover,
                move_text,
            ),
            MatchCommand::Resign { mover } => {
                match self.check_if_member_is_in_game(*mover) {
                    Ok(resigning_player) => {
                        self.state = GameState::GameOver;
                        Outcome::Resigned {
                            winner: get_opposite_colour(resigning_player.in_game_representation),
                        }
                    },
                    Err(_) => Outcome::NotAParticipant,
                }
            },
            MatchCommand::VerifyIfAlreadyInMatch { identity } => {
                if self.is_participant(*identity) {
                    Outcome::InMatch
                } else {
                    Outcome::NotInMatch
                }
            },
            MatchCommand::TimeTick => {
                match self.acting_colour {
                    Colour::White => {
                        self.player_time.white = self.player_time.white - 1;
                    },
                    Colour::Black => {
                        self.player_time.black = self.player_time.black - 1;
                    },
                }
                if self.get_colour_timeleft(self.acting_colour) == 0 {
                    self.state = GameState::GameOver;
                    Outcome::TimeForfeit { winner: get_opposite_colour(self.acting_colour) }
                } else {
                    Outcome::ClockTicked
                }
            },
        }
    }

    /// A move request while `Playing`: turn authority first, then the oracle.
    /// The index handed to the oracle is proved in range of the legal-move
    /// list, so a text found in the list but missing from the oracle's moves
    /// cannot arise.
    fn handle_make_move(&mut self, mover: u64, move_text: &String) -> (r: Outcome)
        requires
            old(self).wf(),
            old(self).state is Playing,
        ensures
            final(self).wf(),
            playing_move_step(*old(self), mover, move_text@, *final(self), r),
    {
        let query_player = match self.check_if_member_is_in_game(mover) {
            Ok(p) => p,
            Err(_) => {
                return Outcome::NotAParticipant;
            },
        };
        if query_player.in_game_representation != self.acting_colour {
            return Outcome::NotYourTurn;
        }
        let legal = legal_move_texts(&self.position);
        match find_move_index(&legal, move_text) {
            None => Outcome::IllegalMove,
            Some(i) => {
                apply_nth_legal_move(&mut self.position, i);
                let r: Outcome = if is_checkmate(&self.position) {
                    self.state = GameState::GameOver;
                    Outcome::MoveAccepted {
                        game_end: Some(GameEnd::Checkmate { winner: self.acting_colour }),
                    }
                } else if is_stalemate(&self.position) {
                    self.state = GameState::GameOver;
                    Outcome::MoveAccepted { game_end: Some(GameEnd::Stalemate) }
                } else {
                    self.acting_colour = get_opposite_colour(self.acting_colour);
                    Outcome::MoveAccepted { game_end: None }
                };
                r
            },
        }
    }
}

/// Law: the lifecycle only moves forward. Since `new` starts every session
/// in `WaitingForOpponent`, each observed state sequence follows the one-way
/// order WaitingForOpponent, Playing, GameOver, skipping but never
/// revisiting states.
pub proof fn lemma_state_monotonic(pre: ChessMatch, cmd: MatchCommand, post: ChessMatch, r: Outcome)
    requires
        step(pre, cmd, post, r),
    ensures
        state_rank(post.state) >= state_rank(pre.state),
{
}

/// Law: once GameOver, a session never changes again.
pub proof fn lemma_game_over_is_terminal(
    pre: ChessMatch,
    cmd: MatchCommand,
    post: ChessMatch,
    r: Outcome,
)
    requires
        pre.state is GameOver,
        step(pre, cmd, post, r),
    ensures
        post == pre,
        r == Outcome::Ignored,
{
}

/// Law: an accepted move that does not end the game hands the turn to the
/// opposite colour and the game goes on.
pub proof fn lemma_accepted_move_flips_colour(
    pre: ChessMatch,
    cmd: MatchCommand,
    post: ChessMatch,
    r: Outcome,
)
    requires
        step(pre, cmd, post, r),
        r == (Outcome::MoveAccepted { game_end: None }),
    ensures
        pre.state is Playing,
        post.state is Playing,
        post.acting_colour == spec_opposite_colour(pre.acting_colour),
{
}

/// Law: a checkmating move ends the session at once: GameOver, no colour
/// flip, and the mover's own colour is the declared winner.
pub proof fn lemma_checkmate_ends_game(
    pre: ChessMatch,
    cmd: MatchCommand,
    post: ChessMatch,
    r: Outcome,
    winner: Colour,
)
    requires
        step(pre, cmd, post, r),
        r == (Outcome::MoveAccepted { game_end: Some(GameEnd::Checkmate { winner }) }),
    ensures
        post.state is GameOver,
        post.acting_colour == pre.acting_colour,
        winner == pre.acting_colour,
{
}

/// Law: a move from an identity that is neither participant changes nothing
/// and is reported as not a participant.
pub proof fn lemma_stranger_move_rejected(
    pre: ChessMatch,
    cmd: MatchCommand,
    post: ChessMatch,
    r: Outcome,
)
    requires
        pre.state is Playing,
        step(pre, cmd, post, r),
        cmd is MakeMove,
        !pre.spec_is_participant(cmd->MakeMove_mover),
    ensures
        post == pre,
        r == Outcome::NotAParticipant,
{
}

/// Law: a move whose text is not among the oracle's legal moves for the
/// current position changes nothing and is reported illegal.
pub proof fn lemma_illegal_move_rejected(
    pre: ChessMatch,
    cmd: MatchCommand,
    post: ChessMatch,
    r: Outcome,
)
    requires
        pre.state is Playing,
        step(pre, cmd, post, r),
        cmd is MakeMove,
        pre.spec_is_participant(cmd->MakeMove_mover),
        pre.spec_participant_colour(cmd->MakeMove_mover) == pre.acting_colour,
        !oracle_legal_moves(pre.position).contains(cmd->MakeMove_move_text@),
    ensures
        post == pre,
        r == Outcome::IllegalMove,
{
}

/// Law: a colour's clock only ever moves by a tick taken while that colour
/// is the acting colour of a playing session; no other command touches it.
pub proof fn lemma_clock_only_ticks_for_acting(
    pre: ChessMatch,
    cmd: MatchCommand,
    post: ChessMatch,
    r: Outcome,
    colour: Colour,
)
    requires
        pre.wf(),
        step(pre, cmd, post, r),
    ensures
        post.spec_timeleft(colour) == pre.spec_timeleft(colour) || (pre.state is Playing
            && cmd is TimeTick && colour == pre.acting_colour && post.spec_timeleft(colour)
            == pre.spec_timeleft(colour) - 1),
{
}

/// Law: while a session waits for an opponent, only the join deadline and
/// the second participant's identity can change; the first participant, the
/// colours, the clocks, the acting colour and the position are untouched.
pub proof fn lemma_waiting_frame(
    pre: ChessMatch,
    cmd: MatchCommand,
    post: ChessMatch,
    r: Outcome,
)
    requires
        pre.state is WaitingForOpponent,
        step(pre, cmd, post, r),
    ensures
        post.player_one == pre.player_one,
        post.player_two.player_slot == pre.player_two.player_slot,
        post.player_two.in_game_representation == pre.player_two.in_game_representation,
        post.player_time == pre.player_time,
        post.acting_colour == pre.acting_colour,
        post.position == pre.position,
{
}

/// Law: once a session is playing, the participant slots are fixed; no
/// command changes who is in the match or which colour they hold.
pub proof fn lemma_playing_participants_fixed(
    pre: ChessMatch,
    cmd: MatchCommand,
    post: ChessMatch,
    r: Outcome,
)
    requires
        pre.state is Playing,
        step(pre, cmd, post, r),
    ensures
        post.player_one == pre.player_one,
        post.player_two == pre.player_two,
{
}

/// Law: while waiting for an opponent, a tick lowers the deadline by one,
/// and the session is abandoned exactly when the deadline runs out.
pub proof fn lemma_join_deadline(pre: ChessMatch, post: ChessMatch, r: Outcome)
    requires
        pre.wf(),
        pre.state is WaitingForOpponent,
        step(pre, MatchCommand::TimeTick, post, r),
    ensures
        post.opponent_join_deadline == pre.opponent_join_deadline - 1,
        post.state is GameOver <==> pre.opponent_join_deadline == 1,
        post.state is WaitingForOpponent <==> pre.opponent_join_deadline != 1,
        post.state is GameOver <==> r == Outcome::MatchAbandoned,
        post.player_time == pre.player_time,
        post.player_two == pre.player_two,
{
}

/// Law: while playing, a tick lowers only the acting colour's clock, and
/// the acting colour forfeits on time exactly when that clock runs out.
pub proof fn lemma_time_forfeit(pre: ChessMatch, post: ChessMatch, r: Outcome)
    requires
        pre.wf(),
        pre.state is Playing,
        step(pre, MatchCommand::TimeTick, post, r),
    ensures
        post.spec_timeleft(pre.acting_colour) == pre.spec_timeleft(pre.acting_colour) - 1,
        post.spec_timeleft(spec_opposite_colour(pre.acting_colour)) == pre.spec_timeleft(
            spec_opposite_colour(pre.acting_colour),
        ),
        post.state is GameOver <==> pre.spec_timeleft(pre.acting_colour) == 1,
        post.state is GameOver <==> r == (Outcome::TimeForfeit {
            winner: spec_opposite_colour(pre.acting_colour),
        }),
        post.position == pre.position,
        post.acting_colour == pre.acting_colour,
{
}

} // verus!
