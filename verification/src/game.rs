//! The match itself: who sits at the table, and how joining and moving change
//! it.

use crate::model::{
    GameError, GameWinner, GameWinnerView, Player, PlayerAction, PlayerView, RoundResult,
    PLAYER_BIG_DAMAGE, PLAYER_HP, PLAYER_SMALL_DAMAGE,
};
use crate::rules::{beats, hit, paper_scissors_stone};
use vstd::prelude::*;

verus! {

/// The whole match: the seats taken, in the order of arrival, the round that
/// is being played, and what has been decided so far.
///
/// Every value of this type is well formed (see [`GameStateView::wf`]): the
/// fields can be read through the methods below and change only through the
/// rules of the match.
#[derive(Debug, PartialEq, Eq)]
pub struct GameState {
    round: u32,
    players: Vec<Player>,
    round_result: GameWinner,
    game_result: GameWinner,
}

/// A `GameState` as a mathematical value.
pub struct GameStateView {
    pub round: nat,
    pub players: Seq<PlayerView>,
    pub round_result: GameWinnerView,
    pub game_result: GameWinnerView,
}

/// The number of rounds that no match exceeds: two players with full hit
/// points cannot both survive more draws than this, and a decisive round
/// costs more than a draw.
pub const MAX_ROUNDS: u32 = 10;

/// What two players' hit points say about the match: a player at zero has
/// lost, and two at zero have drawn.
pub open spec fn standing(first: PlayerView, second: PlayerView) -> GameWinnerView {
    if first.hp == 0 && second.hp == 0 {
        GameWinnerView::Draw
    } else if first.hp == 0 {
        GameWinnerView::Player(second.name)
    } else if second.hp == 0 {
        GameWinnerView::Player(first.name)
    } else {
        GameWinnerView::Undecided
    }
}

impl PlayerView {
    /// A player as seated: full hit points, no move handed in.
    pub open spec fn fresh(name: Seq<char>) -> PlayerView {
        PlayerView { name, hp: PLAYER_HP as nat, current_action: None }
    }

    /// What a seat may hold at any time: at most the starting hit points, and
    /// as a pending action only a move.
    pub open spec fn wf(self) -> bool {
        &&& self.hp <= PLAYER_HP
        &&& self.current_action matches Some(action) ==> action.is_move()
    }
}

impl GameStateView {
    /// The match before anybody has joined.
    pub open spec fn initial() -> GameStateView {
        GameStateView {
            round: 1,
            players: Seq::empty(),
            round_result: GameWinnerView::Undecided,
            game_result: GameWinnerView::Undecided,
        }
    }

    /// The seat of the player called `name`, if there is one.
    pub open spec fn seat_of(self, name: Seq<char>) -> Option<int> {
        if self.players.len() >= 1 && self.players[0].name == name {
            Some(0int)
        } else if self.players.len() >= 2 && self.players[1].name == name {
            Some(1int)
        } else {
            None
        }
    }

    /// The player called `name`, if enrolled.
    pub open spec fn player(self, name: Seq<char>) -> Option<PlayerView> {
        match self.seat_of(name) {
            Some(seat) => Some(self.players[seat]),
            None => None,
        }
    }

    /// The opponent of the player called `name`, once both are at the table.
    pub open spec fn opponent(self, name: Seq<char>) -> Option<PlayerView> {
        match self.seat_of(name) {
            Some(seat) => if self.players.len() == 2 {
                Some(self.players[1 - seat])
            } else {
                None
            },
            None => None,
        }
    }

    /// The table as a mapping: each name at the table, with the player of
    /// that name.
    pub open spec fn roster(self) -> Map<Seq<char>, PlayerView> {
        Map::new(
            |name: Seq<char>| self.seat_of(name) is Some,
            |name: Seq<char>| self.players[self.seat_of(name)->Some_0],
        )
    }

    /// The match is over: its result is decided, and stays so.
    pub open spec fn ended(self) -> bool {
        self.game_result != GameWinnerView::Undecided
    }

    /// The table with the player at `seat` replaced by `mine` and the other
    /// by `theirs`.
    pub open spec fn reseated(seat: int, mine: PlayerView, theirs: PlayerView) -> Seq<PlayerView> {
        if seat == 0 {
            seq![mine, theirs]
        } else {
            seq![theirs, mine]
        }
    }

    /// The match after the player at `seat` has handed in `action` while the
    /// opponent has not moved yet: the action is pending, nothing else changes.
    pub open spec fn with_pending(self, seat: int, action: PlayerAction) -> GameStateView {
        let mine = PlayerView { current_action: Some(action), ..self.players[seat] };
        GameStateView { players: Self::reseated(seat, mine, self.players[1 - seat]), ..self }
    }

    /// The match after the player at `seat` has handed in `action` against a
    /// pending move of the opponent, and the round went `result` for that
    /// player.
    ///
    /// A draw costs both players the small damage, a decisive round costs
    /// the loser the big one. A player at zero has lost the match. While it
    /// goes on, the next round begins with no move pending; once it is over
    /// the round counter and the last moves stay as they are.
    pub open spec fn resolved(self, seat: int, action: PlayerAction, result: RoundResult)
        -> GameStateView {
        let me = self.players[seat];
        let other = self.players[1 - seat];
        let mine = PlayerView {
            hp: match result {
                RoundResult::Win => me.hp,
                RoundResult::Lose => hit(me.hp, PLAYER_BIG_DAMAGE as nat),
                RoundResult::Draw => hit(me.hp, PLAYER_SMALL_DAMAGE as nat),
            },
            current_action: Some(action),
            ..me
        };
        let theirs = PlayerView {
            hp: match result {
                RoundResult::Win => hit(other.hp, PLAYER_BIG_DAMAGE as nat),
                RoundResult::Lose => other.hp,
                RoundResult::Draw => hit(other.hp, PLAYER_SMALL_DAMAGE as nat),
            },
            ..other
        };
        let round_result = match result {
            RoundResult::Win => GameWinnerView::Player(me.name),
            RoundResult::Lose => GameWinnerView::Player(other.name),
            RoundResult::Draw => GameWinnerView::Draw,
        };
        let game_result = standing(mine, theirs);
        if game_result == GameWinnerView::Undecided {
            GameStateView {
                round: self.round + 1,
                players: Self::reseated(
                    seat,
                    PlayerView { current_action: None, ..mine },
                    PlayerView { current_action: None, ..theirs },
                ),
                round_result,
                game_result,
            }
        } else {
            GameStateView {
                round: self.round,
                players: Self::reseated(seat, mine, theirs),
                round_result,
                game_result,
            }
        }
    }

    /// Nothing has healed from `self` to `later`: everybody at the table of
    /// `self` is still there, in the same seat, with at most the hit points
    /// held before.
    pub open spec fn no_healing_to(self, later: GameStateView) -> bool {
        &&& self.players.len() <= later.players.len()
        &&& forall|seat: int|
            #![trigger later.players[seat]]
            0 <= seat < self.players.len() ==> {
                &&& later.players[seat].name == self.players[seat].name
                &&& later.players[seat].hp <= self.players[seat].hp
            }
    }

    /// What a request for a seat does to the match: the first two players of
    /// different names are seated, the only player at the table cannot join
    /// again, and nobody joins a full table.
    pub open spec fn after_join(self, name: Seq<char>) -> Result<GameStateView, GameError> {
        if self.players.len() == 0 {
            Ok(GameStateView { players: seq![PlayerView::fresh(name)], ..self })
        } else if self.players.len() == 1 {
            if self.players[0].name == name {
                Err(GameError::AlreadyInMatch)
            } else {
                Ok(GameStateView { players: self.players.push(PlayerView::fresh(name)), ..self })
            }
        } else {
            Err(GameError::RoomFull)
        }
    }

    /// The match after each of `names` has asked for a seat, one after the
    /// other. A request that is turned down changes nothing.
    pub open spec fn after_joins(self, names: Seq<Seq<char>>) -> GameStateView
        decreases names.len(),
    {
        if names.len() == 0 {
            self
        } else {
            let before = self.after_joins(names.drop_last());
            match before.after_join(names.last()) {
                Ok(next) => next,
                Err(_) => before,
            }
        }
    }

    /// What a move does to the match. In this order:
    /// - a match that is over takes no move;
    /// - nor does it take one from somebody who is not at the table,
    /// - or while the second seat is empty,
    /// - or an action that is no move;
    /// - if the opponent has not moved yet the move is kept pending;
    /// - else the round is resolved.
    pub open spec fn after_move(self, name: Seq<char>, action: PlayerAction) -> Result<
        GameStateView,
        GameError,
    > {
        if self.ended() {
            Err(GameError::MatchEnded)
        } else {
            match self.seat_of(name) {
                None => Err(GameError::UnknownPlayer),
                Some(seat) => if self.players.len() < 2 {
                    Err(GameError::WaitingForOpponent)
                } else if !action.is_move() {
                    Err(GameError::NotAMove)
                } else {
                    match self.players[1 - seat].current_action {
                        None => Ok(self.with_pending(seat, action)),
                        Some(reply) => match beats(action, reply) {
                            None => Err(GameError::NotAMove),
                            Some(result) => Ok(self.resolved(seat, action, result)),
                        },
                    }
                },
            }
        }
    }

    /// What holds of every match:
    /// - at most two seats are taken, by players of different names;
    /// - until both seats are taken nothing has been played: the round is the
    ///   first, nothing is decided, nobody is hurt or has handed in a move;
    /// - every round that has been left behind cost 200 hit points or more,
    ///   so there is no eleventh round;
    /// - the result of the match is exactly what the hit points say;
    /// - the winner of a round is a player at the table;
    /// - while the match goes on at most one move is pending.
    pub open spec fn wf(self) -> bool {
        &&& self.round >= 1
        &&& self.players.len() <= 2
        &&& self.players.len() == 0 ==> {
            &&& self.round == 1
            &&& self.round_result == GameWinnerView::Undecided
            &&& self.game_result == GameWinnerView::Undecided
        }
        &&& self.players.len() == 1 ==> {
            &&& self.round == 1
            &&& self.round_result == GameWinnerView::Undecided
            &&& self.game_result == GameWinnerView::Undecided
            &&& self.players[0] == PlayerView::fresh(self.players[0].name)
        }
        &&& self.players.len() == 2 ==> {
            let first = self.players[0];
            let second = self.players[1];
            &&& first.name != second.name
            &&& first.wf()
            &&& second.wf()
            &&& 2 * PLAYER_SMALL_DAMAGE * (self.round - 1) + first.hp + second.hp <= 2
                * PLAYER_HP
            &&& self.round <= MAX_ROUNDS
            &&& self.game_result == standing(first, second)
            &&& self.round_result matches GameWinnerView::Player(name) ==> name == first.name
                || name == second.name
            &&& !self.ended() ==> first.current_action is None || second.current_action is None
        }
    }
}

/// The players of a table as mathematical values, seat by seat.
spec fn seats(players: Seq<Player>) -> Seq<PlayerView> {
    Seq::new(players.len(), |i: int| players[i]@)
}

impl View for GameState {
    type V = GameStateView;

    closed spec fn view(&self) -> GameStateView {
        GameStateView {
            round: self.round as nat,
            players: seats(self.players@),
            round_result: self.round_result@,
            game_result: self.game_result@,
        }
    }
}

impl GameState {
    /// Every match is well formed, at any time.
    #[verifier::type_invariant]
    pub open spec fn inv(self) -> bool {
        self@.wf()
    }

    /// The match before anybody has joined: first round, no players, nothing
    /// decided.
    pub fn new() -> (game: GameState)
        ensures
            game@ == GameStateView::initial(),
    {
        let players: Vec<Player> = Vec::new();
        assert(seats(players@) =~= Seq::empty());
        GameState {
            round: 1,
            players,
            round_result: GameWinner::Undecided,
            game_result: GameWinner::Undecided,
        }
    }

    /// The number of the round that is being played, counted from one.
    pub fn round(&self) -> (round: u32)
        ensures
            round == self@.round,
    {
        self.round
    }

    /// The players at the table, in the order in which they sat down.
    pub fn players(&self) -> (players: &Vec<Player>)
        ensures
            players@.len() == self@.players.len(),
            forall|i: int| 0 <= i < players@.len() ==> players@[i]@ == self@.players[i],
    {
        &self.players
    }

    /// The player called `name`, if enrolled.
    pub fn player(&self, name: &str) -> (player: Option<&Player>)
        ensures
            match self@.player(name@) {
                Some(found) => player matches Some(p) && p@ == found,
                None => player is None,
            },
    {
        proof {
            use_type_invariant(self);
        }
        let name = String::from_str(name);
        match find_seat(&self.players, &name) {
            Some(seat) => Some(&self.players[seat]),
            None => None,
        }
    }

    /// Who won the round that was resolved last.
    pub fn round_result(&self) -> (result: &GameWinner)
        ensures
            result@ == self@.round_result,
    {
        &self.round_result
    }

    /// Who won the match.
    pub fn game_result(&self) -> (result: &GameWinner)
        ensures
            result@ == self@.game_result,
    {
        &self.game_result
    }
}

impl Clone for GameState {
    fn clone(&self) -> (copy: GameState)
        ensures
            copy@ == self@,
    {
        proof {
            use_type_invariant(self);
        }
        let mut players: Vec<Player> = Vec::new();
        let mut i: usize = 0;
        while i < self.players.len()
            invariant
                i <= self.players.len(),
                players.len() == i,
                forall|j: int| 0 <= j < i ==> players[j] == self.players[j],
            decreases self.players.len() - i,
        {
            players.push(self.players[i].clone());
            i += 1;
        }
        assert(seats(players@) =~= seats(self.players@));
        GameState {
            round: self.round,
            players,
            round_result: self.round_result.clone(),
            game_result: self.game_result.clone(),
        }
    }
}

/// The seat at which `name` sits, looked up among `players`.
fn find_seat(players: &Vec<Player>, name: &String) -> (seat: Option<usize>)
    requires
        players.len() <= 2,
    ensures
        seat matches Some(i) ==> i < players.len() && players[i as int].name@ == name@ && (i == 1
            ==> players[0].name@ != name@),
        seat is None ==> forall|i: int| 0 <= i < players.len() ==> players[i].name@ != name@,
{
    if players.len() >= 1 && players[0].name == *name {
        Some(0)
    } else if players.len() >= 2 && players[1].name == *name {
        Some(1)
    } else {
        None
    }
}

/// Seats the player called `player_name`, with full hit points and no move
/// handed in.
///
/// On success the match has changed as [`GameStateView::after_join`] says; on
/// failure it has not changed at all.
pub fn find_game(player_name: String, mut_game: &mut GameState) -> (outcome: Result<
    (),
    GameError,
>)
    ensures
        match old(mut_game)@.after_join(player_name@) {
            Ok(next) => outcome is Ok && final(mut_game)@ == next,
            Err(reason) => outcome == Err::<(), GameError>(reason) && final(mut_game)@ == old(
                mut_game,
            )@,
        },
        final(mut_game)@.wf(),
{
    proof {
        use_type_invariant(&*mut_game);
    }
    let mut players: Vec<Player> = Vec::new();
    match mut_game.players.len() {
        0 => {},
        1 => {
            if mut_game.players[0].name == player_name {
                return Err(GameError::AlreadyInMatch);
            }
            players.push(mut_game.players[0].clone());
        },
        _ => {
            return Err(GameError::RoomFull);
        },
    }
    players.push(Player { name: player_name, hp: PLAYER_HP, current_action: None });
    proof {
        assert(seats(players@) =~= old(mut_game)@.after_join(player_name@)->Ok_0.players);
    }
    *mut_game =
    GameState {
        round: mut_game.round,
        players,
        round_result: GameWinner::Undecided,
        game_result: GameWinner::Undecided,
    };
    Ok(())
}

/// Hit points left after `damage`, never below zero.
fn damaged(hp: u16, damage: u16) -> (left: u16)
    ensures
        left == hit(hp as nat, damage as nat),
{
    hp.saturating_sub(damage)
}

/// Plays `player_action` for the player called `player_name`.
///
/// On success the match has changed as [`GameStateView::after_move`] says; on
/// failure it has not changed at all.
pub fn handle_player_action(
    player_name: String,
    player_action: PlayerAction,
    mut_game: &mut GameState,
) -> (outcome: Result<(), GameError>)
    ensures
        match old(mut_game)@.after_move(player_name@, player_action) {
            Ok(next) => outcome is Ok && final(mut_game)@ == next,
            Err(reason) => outcome == Err::<(), GameError>(reason) && final(mut_game)@ == old(
                mut_game,
            )@,
        },
        final(mut_game)@.wf(),
{
    proof {
        use_type_invariant(&*mut_game);
    }
    match mut_game.game_result {
        GameWinner::Undecided => {},
        _ => {
            return Err(GameError::MatchEnded);
        },
    }
    let seat = match find_seat(&mut_game.players, &player_name) {
        Some(seat) => seat,
        None => {
            return Err(GameError::UnknownPlayer);
        },
    };
    if mut_game.players.len() < 2 {
        return Err(GameError::WaitingForOpponent);
    }
    let other_seat: usize = 1 - seat;
    let other_action = mut_game.players[other_seat].current_action;
    let result = match player_action {
        PlayerAction::FindGame => {
            return Err(GameError::NotAMove);
        },
        _ => match other_action {
            None => None,
            Some(reply) => match paper_scissors_stone(player_action, reply) {
                Some(result) => Some(result),
                None => {
                    return Err(GameError::NotAMove);
                },
            },
        },
    };
    let mut mine = mut_game.players[seat].clone();
    let mut theirs = mut_game.players[other_seat].clone();
    mine.current_action = Some(player_action);
    let mut round = mut_game.round;
    let mut round_result = mut_game.round_result.clone();
    let mut game_result = GameWinner::Undecided;
    match result {
        None => {},
        Some(result) => {
            match result {
                RoundResult::Draw => {
                    mine.hp = damaged(mine.hp, PLAYER_SMALL_DAMAGE);
                    theirs.hp = damaged(theirs.hp, PLAYER_SMALL_DAMAGE);
                    round_result = GameWinner::Draw;
                },
                RoundResult::Lose => {
                    mine.hp = damaged(mine.hp, PLAYER_BIG_DAMAGE);
                    round_result = GameWinner::Player(theirs.name.clone());
                },
                RoundResult::Win => {
                    theirs.hp = damaged(theirs.hp, PLAYER_BIG_DAMAGE);
                    round_result = GameWinner::Player(mine.name.clone());
                },
            }
            if mine.hp == 0 && theirs.hp == 0 {
                game_result = GameWinner::Draw;
            } else if mine.hp == 0 {
                game_result = GameWinner::Player(theirs.name.clone());
            } else if theirs.hp == 0 {
                game_result = GameWinner::Player(mine.name.clone());
            } else {
                round = round + 1;
                mine.current_action = None;
                theirs.current_action = None;
            }
        },
    }
    let mut players: Vec<Player> = Vec::new();
    if seat == 0 {
        players.push(mine);
        players.push(theirs);
    } else {
        players.push(theirs);
        players.push(mine);
    }
    proof {
        let next = old(mut_game)@.after_move(player_name@, player_action)->Ok_0;
        assert(seats(players@) =~= next.players);
    }
    *mut_game = GameState { round, players, round_result, game_result };
    Ok(())
}

/// Joining and moving keep a match well formed.
pub proof fn lemma_rules_keep_wf(game: GameStateView, name: Seq<char>, action: PlayerAction)
    requires
        game.wf(),
    ensures
        game.after_join(name) matches Ok(next) ==> next.wf(),
        game.after_move(name, action) matches Ok(next) ==> next.wf(),
{
}

/// Who may join, in every match: a request for a seat succeeds exactly while
/// a seat is free and the name is not at the table yet. The only player at
/// the table is told so; at a full table everybody is told that it is full.
/// Whoever is seated takes the next seat; nobody else is touched.
pub proof fn lemma_join_rules(game: GameStateView, name: Seq<char>)
    requires
        game.wf(),
    ensures
        game.after_join(name) is Ok <==> game.players.len() < 2 && game.player(name) is None,
        game.after_join(name) == Err::<GameStateView, GameError>(GameError::AlreadyInMatch)
            <==> game.players.len() == 1 && game.player(name) is Some,
        game.after_join(name) == Err::<GameStateView, GameError>(GameError::RoomFull)
            <==> game.players.len() == 2,
        game.after_join(name) matches Ok(next) ==> next.players == game.players.push(
            PlayerView::fresh(name),
        ) && next.round == game.round && next.round_result == game.round_result
            && next.game_result == game.game_result,
{
}

/// The table is a mapping from names to players: it has as many entries as
/// seats are taken, two at most, and each player is found under the
/// player's own name. Joining adds the entry of the new player and leaves the
/// others alone; a move adds and removes none.
pub proof fn lemma_roster(game: GameStateView, name: Seq<char>, action: PlayerAction)
    requires
        game.wf(),
    ensures
        game.roster().dom().finite(),
        game.roster().dom().len() == game.players.len() <= 2,
        forall|key: Seq<char>| #[trigger]
            game.roster().dom().contains(key) ==> game.roster()[key].name == key,
        forall|seat: int|
            0 <= seat < game.players.len() ==> game.roster().dom().contains(
                #[trigger] game.players[seat].name,
            ) && game.roster()[game.players[seat].name] == game.players[seat],
        game.after_join(name) matches Ok(next) ==> next.roster() == game.roster().insert(
            name,
            PlayerView::fresh(name),
        ),
        game.after_move(name, action) matches Ok(next) ==> next.roster().dom()
            == game.roster().dom(),
{
    let names = game.roster().dom();
    if game.players.len() == 0 {
        assert(names =~= Set::empty());
    } else if game.players.len() == 1 {
        assert(names =~= Set::empty().insert(game.players[0].name));
    } else {
        assert(names =~= Set::empty().insert(game.players[0].name).insert(game.players[1].name));
    }
}

/// From the empty table: the first name is seated, the same name is then
/// turned down, a second and different name is seated, and after that every
/// name is turned down, a new one as well as the two at the table.
pub proof fn lemma_join_sequence(first: Seq<char>, second: Seq<char>, third: Seq<char>)
    requires
        first != second,
    ensures
        ({
            let alone = GameStateView::initial().after_join(first);
            let both = alone->Ok_0.after_join(second);
            &&& alone is Ok
            &&& alone->Ok_0.players == seq![PlayerView::fresh(first)]
            &&& alone->Ok_0.after_join(first) == Err::<GameStateView, GameError>(
                GameError::AlreadyInMatch,
            )
            &&& both is Ok
            &&& both->Ok_0.players == seq![PlayerView::fresh(first), PlayerView::fresh(second)]
            &&& both->Ok_0.after_join(third) == Err::<GameStateView, GameError>(
                GameError::RoomFull,
            )
        }),
{
}

/// `names[k]` is the first of `names` that differs from the first of all.
pub open spec fn is_first_other(names: Seq<Seq<char>>, k: int) -> bool {
    &&& 0 < k < names.len()
    &&& names[k] != names[0]
    &&& forall|j: int| 0 <= j < k ==> #[trigger] names[j] == names[0]
}

/// Whoever asks for a seat at the empty table, in whatever order and however
/// often: the first name is seated, then the first name that differs from
/// it, and nobody else. Nothing has been played by then.
pub proof fn lemma_join_sequences(names: Seq<Seq<char>>)
    ensures
        ({
            let table = GameStateView::initial().after_joins(names);
            &&& table.wf()
            &&& table == GameStateView { players: table.players, ..GameStateView::initial() }
            &&& names.len() == 0 ==> table.players.len() == 0
            &&& names.len() > 0 ==> table.players.len() >= 1 && table.players[0]
                == PlayerView::fresh(names[0])
            &&& table.players.len() == 2 <==> exists|k: int| is_first_other(names, k)
            &&& forall|k: int| #[trigger]
                is_first_other(names, k) ==> table.players[1] == PlayerView::fresh(names[k])
        }),
    decreases names.len(),
{
    if names.len() > 0 {
        let earlier = names.drop_last();
        let before = GameStateView::initial().after_joins(earlier);
        let last = names.len() - 1;
        lemma_join_sequences(earlier);
        assert(forall|j: int|
            #![trigger earlier[j]]
            #![trigger names[j]]
            0 <= j < last ==> earlier[j] == names[j]);
        if before.players.len() == 2 {
            let k = choose|k: int| is_first_other(earlier, k);
            assert(is_first_other(names, k));
        } else if before.players.len() == 1 {
            if names[last] != names[0] {
                assert(is_first_other(names, last)) by {
                    assert forall|j: int| 0 <= j < last implies #[trigger] names[j] == names[0] by {
                        if names[j] != names[0] {
                            lemma_first_other_exists(earlier, j);
                        }
                    }
                }
            } else {
                assert forall|k: int| is_first_other(names, k) implies false by {
                    if k < last {
                        assert(is_first_other(earlier, k));
                    }
                }
            }
        }
    }
}

/// Where one name differs from the first, some name is the first to do so.
proof fn lemma_first_other_exists(names: Seq<Seq<char>>, i: int)
    requires
        0 <= i < names.len(),
        names[i] != names[0],
    ensures
        exists|k: int| is_first_other(names, k),
    decreases i,
{
    if forall|j: int| 0 <= j < i ==> #[trigger] names[j] == names[0] {
        assert(is_first_other(names, i));
    } else {
        let j = choose|j: int| 0 <= j < i && #[trigger] names[j] != names[0];
        lemma_first_other_exists(names, j);
    }
}

/// A move against an opponent who has not moved yet changes one thing only:
/// the pending action of the player who made it. Hit points, round and both
/// results stay, and so does everything about the opponent.
pub proof fn lemma_one_sided_move(game: GameStateView, name: Seq<char>, action: PlayerAction)
    requires
        game.wf(),
        game.after_move(name, action) is Ok,
        game.opponent(name) matches Some(other) && other.current_action is None,
    ensures
        ({
            let next = game.after_move(name, action)->Ok_0;
            &&& next == GameStateView { players: next.players, ..game }
            &&& next.players.len() == game.players.len()
            &&& next.opponent(name) == game.opponent(name)
            &&& next.player(name) == Some(
                PlayerView { current_action: Some(action), ..game.player(name)->Some_0 },
            )
        }),
{
}

/// Nothing heals: whatever a request does to a match, everybody who was at
/// the table is still there, in the same seat, with at most the hit points
/// held before. (Hit points are natural numbers: damage stops at zero.)
pub proof fn lemma_hp_never_rises(game: GameStateView, name: Seq<char>, action: PlayerAction)
    requires
        game.wf(),
    ensures
        game.after_join(name) matches Ok(next) ==> game.no_healing_to(next),
        game.after_move(name, action) matches Ok(next) ==> game.no_healing_to(next),
{
}

/// No match has an eleventh round.
pub proof fn lemma_match_is_short(game: GameStateView)
    requires
        game.wf(),
    ensures
        1 <= game.round <= MAX_ROUNDS,
{
}

/// A match that is over stays as it is: no move is taken any more, whoever
/// makes it, and no seat is free.
pub proof fn lemma_ended_match_is_final(game: GameStateView, name: Seq<char>, action: PlayerAction)
    requires
        game.wf(),
        game.ended(),
    ensures
        game.after_move(name, action) == Err::<GameStateView, GameError>(GameError::MatchEnded),
        game.after_join(name) == Err::<GameStateView, GameError>(GameError::RoomFull),
{
}

} // verus!
