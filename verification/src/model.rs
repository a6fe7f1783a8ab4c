//! The data of a match: what a player can do, how a round ends, and who holds
//! which hit points.

use vstd::prelude::*;

verus! {

/// Hit points every player starts with.
pub const PLAYER_HP: u16 = 1000;

/// Hit points the loser of a decisive round gives up.
pub const PLAYER_BIG_DAMAGE: u16 = 300;

/// Hit points each player gives up in a drawn round.
pub const PLAYER_SMALL_DAMAGE: u16 = 100;

/// What a player may ask for: a seat in the match, or one of the three moves.
#[derive(Debug, Clone, Copy, PartialEq, Eq, Structural)]
pub enum PlayerAction {
    FindGame,
    Paper,
    Scissors,
    Stone,
}

/// How a round ends, seen from the player who acted.
#[derive(Debug, Clone, Copy, PartialEq, Eq, Structural)]
pub enum RoundResult {
    Win,
    Lose,
    Draw,
}

impl PlayerAction {
    /// A move is any action but the request for a seat.
    pub open spec fn is_move(self) -> bool {
        self != PlayerAction::FindGame
    }
}

impl RoundResult {
    /// The same round, seen from the other side of the table.
    pub open spec fn reversed(self) -> RoundResult {
        match self {
            RoundResult::Win => RoundResult::Lose,
            RoundResult::Lose => RoundResult::Win,
            RoundResult::Draw => RoundResult::Draw,
        }
    }
}

/// Who came out ahead, of a round or of the whole match.
#[derive(Debug, PartialEq, Eq)]
pub enum GameWinner {
    Player(String),
    Draw,
    /// Nothing is decided yet.
    Undecided,
}

/// A `GameWinner` as a mathematical value.
pub enum GameWinnerView {
    Player(Seq<char>),
    Draw,
    Undecided,
}

impl View for GameWinner {
    type V = GameWinnerView;

    open spec fn view(&self) -> GameWinnerView {
        match self {
            GameWinner::Player(name) => GameWinnerView::Player(name@),
            GameWinner::Draw => GameWinnerView::Draw,
            GameWinner::Undecided => GameWinnerView::Undecided,
        }
    }
}

impl Clone for GameWinner {
    fn clone(&self) -> (copy: GameWinner)
        ensures
            copy == *self,
    {
        match self {
            GameWinner::Player(name) => GameWinner::Player(name.clone()),
            GameWinner::Draw => GameWinner::Draw,
            GameWinner::Undecided => GameWinner::Undecided,
        }
    }
}

/// One seat at the table.
#[derive(Debug, PartialEq, Eq)]
pub struct Player {
    /// The player's identity as the caller gave it. No two seats share one.
    pub name: String,
    pub hp: u16,
    /// The move handed in for the running round, if any.
    pub current_action: Option<PlayerAction>,
}

impl Clone for Player {
    fn clone(&self) -> (copy: Player)
        ensures
            copy == *self,
    {
        Player { name: self.name.clone(), hp: self.hp, current_action: self.current_action }
    }
}

/// A `Player` as a mathematical value.
pub struct PlayerView {
    pub name: Seq<char>,
    pub hp: nat,
    pub current_action: Option<PlayerAction>,
}

impl View for Player {
    type V = PlayerView;

    open spec fn view(&self) -> PlayerView {
        PlayerView { name: self.name@, hp: self.hp as nat, current_action: self.current_action }
    }
}

/// Why the match turned a request down.
#[derive(Debug, Clone, Copy, PartialEq, Eq, Structural)]
pub enum GameError {
    /// The only player at the table asked for a seat again.
    AlreadyInMatch,
    /// Both seats are taken.
    RoomFull,
    /// The match is decided; nothing can be played any more.
    MatchEnded,
    /// Nobody of that name sits at the table.
    UnknownPlayer,
    /// The second seat is still empty.
    WaitingForOpponent,
    /// The action is a request for a seat, which cannot be played as a move.
    NotAMove,
}

/// Why a request was answered with `reject`.
#[derive(Debug, Clone, Copy, PartialEq, Eq, Structural)]
pub enum Rejection {
    /// The payload is no hex text.
    InvalidHex,
    /// The bytes behind the hex text are no game request.
    InvalidRequest,
    /// The operation of the game request names no action.
    UnknownOperation,
    /// The match turned the request down.
    Game(GameError),
    /// The dispatcher did not acknowledge the notice.
    NoticeFailed,
}

/// The record that the dispatcher is asked to publish.
#[derive(Debug, Clone, PartialEq, Eq)]
pub struct Notice {
    /// `0x`, then the published bytes as lower-case hex text.
    pub payload: String,
}

/// What the dispatcher is told about the request that was handled last.
#[derive(Debug, Clone, Copy, PartialEq, Eq, Structural)]
pub enum FinishStatus {
    Accept,
    Reject,
}

/// The kinds of request that the dispatcher hands out.
#[derive(Debug, Clone, Copy, PartialEq, Eq, Structural)]
pub enum RequestType {
    AdvanceState,
    InspectState,
}

/// A word on the wire named none of the variants asked for.
#[derive(Debug, Clone, Copy, PartialEq, Eq, Structural)]
pub enum ParseError {
    VariantNotFound,
}

/// Where an input came from, as the dispatcher recorded it. The rules of the
/// match do not look at it.
#[derive(Debug, Clone, PartialEq, Eq)]
pub struct AdvanceMetadata {
    pub msg_sender: String,
    pub epoch_index: u64,
    pub input_index: u64,
    pub block_number: u64,
    pub time_stamp: u64,
}

/// An input as the dispatcher hands it over.
#[derive(Debug, Clone, PartialEq, Eq)]
pub struct AdvanceRequest {
    pub metadata: AdvanceMetadata,
    /// A game request, encoded and written as hex text, with or without a
    /// `0x` prefix.
    pub payload: String,
}

/// What a player asks for.
#[derive(Debug, Clone, PartialEq, Eq)]
pub struct GameRequest {
    /// The word for a `PlayerAction`.
    pub operation: String,
    pub player_name: String,
}

/// The dispatcher's answer to a report, when a request is pending.
#[derive(Debug, Clone, PartialEq, Eq)]
pub struct RollupResponse {
    /// The word for a `RequestType`.
    pub request_type: String,
    pub data: AdvanceRequest,
}

} // verus!
