//! Commands that a session receives from the event bus, and the outcome the
//! coordinator reports back for each one.

use vstd::prelude::*;

use crate::chess_match::Colour;

verus! {

/// A command addressed to one session. Identities are the plain numeric ids
/// of the participants; the scoping id that routes a command to its session
/// travels in the bus envelope, outside this core.
#[derive(Debug)]
pub enum MatchCommand {
    /// `target` is the identity of the participant who opened the session;
    /// `joiner` is the identity asking to take the second slot.
    JoinMatch { target: u64, joiner: u64 },
    /// `mover` asks to play the move written as `move_text`.
    MakeMove { mover: u64, move_text: String },
    /// `mover` forfeits the game.
    Resign { mover: u64 },
    /// Query: is `identity` one of this session's participants? A positive
    /// answer is sent back on the caller's reply channel; silence is the
    /// negative answer.
    VerifyIfAlreadyInMatch { identity: u64 },
    /// One time unit has elapsed.
    TimeTick,
}

/// How an accepted move ended the game, if it did.
#[derive(Debug, Clone, Copy, PartialEq, Eq)]
pub enum GameEnd {
    Checkmate { winner: Colour },
    Stalemate,
}

/// What the coordinator decided for one command. The caller performs the
/// matching side effects (announcements, reply channel, stopping the ticker);
/// the session state itself is already updated when the outcome is returned.
#[derive(Debug, Clone, Copy, PartialEq, Eq)]
pub enum Outcome {
    /// The command is not relevant in the current state.
    Ignored,
    /// The second participant joined; the game begins.
    OpponentJoined,
    /// A join was asked for while the game is already under way: rejected.
    JoinRejected,
    /// The join deadline was decremented and has not yet expired.
    DeadlineTicked,
    /// The join deadline expired with no opponent; the session is over.
    MatchAbandoned,
    /// Positive answer to a presence query: send `true` on the reply channel.
    InMatch,
    /// Negative answer to a presence query: send nothing.
    NotInMatch,
    /// The issuer is not a participant of this session.
    NotAParticipant,
    /// The issuer is a participant but it is not their turn.
    NotYourTurn,
    /// The move text is not among the legal moves of the current position.
    IllegalMove,
    /// The move was applied; `game_end` says whether it ended the game.
    MoveAccepted { game_end: Option<GameEnd> },
    /// The acting colour ran out of time; the opposite colour wins.
    TimeForfeit { winner: Colour },
    /// A participant resigned; the opposite colour wins.
    Resigned { winner: Colour },
    /// The acting colour's clock was decremented and has not reached zero.
    ClockTicked,
}

impl Outcome {
    /// True for the outcomes that end the session: on these the caller stops
    /// the clock ticker and tears the session down after the grace period.
    pub open spec fn spec_ends_session(self) -> bool {
        match self {
            Outcome::MatchAbandoned => true,
            Outcome::TimeForfeit { .. } => true,
            Outcome::Resigned { .. } => true,
            Outcome::MoveAccepted { game_end } => game_end is Some,
            _ => false,
        }
    }

    /// Executable form of `spec_ends_session`.
    pub fn ends_session(&self) -> (r: bool)
        ensures
            r == self.spec_ends_session(),
    {
        match self {
            Outcome::MatchAbandoned => true,
            Outcome::TimeForfeit { .. } => true,
            Outcome::Resigned { .. } => true,
            Outcome::MoveAccepted { game_end } => game_end.is_some(),
            _ => false,
        }
    }
}

} // verus!
