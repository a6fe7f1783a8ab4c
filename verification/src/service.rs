//! The rollup session: what to do with each answer of the dispatcher.
//!
//! The session itself talks to nobody. It is told what happened, as an
//! [`Event`], and says what is to be done next, as an [`Action`]; whoever
//! drives it does the talking.

use crate::game::{
    find_game, handle_player_action, lemma_hp_never_rises, lemma_rules_keep_wf, GameState,
    GameStateView,
};
use crate::model::{
    FinishStatus, GameRequest, PlayerAction, Rejection, RequestType, RollupResponse,
};
use crate::payload::{decode_payload, payload_data};
use vstd::prelude::*;

verus! {

/// What a game request does to the match: its operation names an action, and
/// the action is a request for a seat or a move of the player it names.
pub open spec fn after_request(game: GameStateView, operation: Seq<char>, player_name: Seq<char>)
    -> Result<GameStateView, Rejection> {
    match PlayerAction::named_by(operation) {
        None => Err(Rejection::UnknownOperation),
        Some(PlayerAction::FindGame) => match game.after_join(player_name) {
            Ok(next) => Ok(next),
            Err(reason) => Err(Rejection::Game(reason)),
        },
        Some(action) => match game.after_move(player_name, action) {
            Ok(next) => Ok(next),
            Err(reason) => Err(Rejection::Game(reason)),
        },
    }
}

/// Applies a game request to the match.
///
/// On success the match has changed as [`after_request`] says; on failure it
/// has not changed at all.
pub fn advance_state(mut_game: &mut GameState, request: GameRequest) -> (outcome: Result<
    (),
    Rejection,
>)
    ensures
        match after_request(old(mut_game)@, request.operation@, request.player_name@) {
            Ok(next) => outcome is Ok && final(mut_game)@ == next,
            Err(reason) => outcome == Err::<(), Rejection>(reason) && final(mut_game)@ == old(
                mut_game,
            )@,
        },
        final(mut_game)@.wf(),
{
    let player_name = request.player_name;
    let played = match PlayerAction::from_str(request.operation.as_str()) {
        Ok(PlayerAction::FindGame) => find_game(player_name, mut_game),
        Ok(action) => handle_player_action(player_name, action, mut_game),
        Err(_) => {
            proof {
                use_type_invariant(&*mut_game);
            }
            return Err(Rejection::UnknownOperation);
        },
    };
    match played {
        Ok(()) => Ok(()),
        Err(reason) => Err(Rejection::Game(reason)),
    }
}

/// What the session is waiting for: the next request, or one of the two
/// things that handling a request needs from outside.
#[derive(Debug, Clone, Copy, PartialEq, Eq, Structural)]
pub enum Phase {
    /// The dispatcher is being asked for the next request.
    Polling,
    /// The bytes of a payload are being read as a game request.
    Decoding,
    /// The dispatcher is being asked to publish the match as a notice.
    Publishing,
}

/// What the session is told.
#[derive(Debug, Clone, PartialEq, Eq)]
pub enum Event {
    /// The report did not get through, or its answer could not be read.
    FetchFailed,
    /// The dispatcher has no request pending.
    NothingPending,
    /// The dispatcher handed over a request.
    Request(RollupResponse),
    /// The bytes handed out with [`Action::Parse`] were read: as this game
    /// request, or as none.
    Parsed(Option<GameRequest>),
    /// The notice asked for with [`Action::Publish`] was acknowledged, or was
    /// not.
    Published(bool),
}

/// What the session asks for.
#[derive(Debug, PartialEq, Eq)]
pub enum Action {
    /// Report `verdict` to the dispatcher and fetch the next request; answer
    /// with [`Event::FetchFailed`], [`Event::NothingPending`] or
    /// [`Event::Request`]. If the request just handled was turned down,
    /// `rejection` says why.
    Poll { verdict: FinishStatus, rejection: Option<Rejection> },
    /// Read these bytes as a game request; answer with [`Event::Parsed`].
    Parse(Vec<u8>),
    /// Publish this match as a notice; answer with [`Event::Published`].
    Publish(GameState),
}

/// An `Action` as a mathematical value.
pub enum ActionView {
    Poll { verdict: FinishStatus, rejection: Option<Rejection> },
    Parse(Seq<u8>),
    Publish(GameStateView),
}

impl View for Action {
    type V = ActionView;

    open spec fn view(&self) -> ActionView {
        match self {
            Action::Poll { verdict, rejection } => ActionView::Poll {
                verdict: *verdict,
                rejection: *rejection,
            },
            Action::Parse(bytes) => ActionView::Parse(bytes@),
            Action::Publish(game) => ActionView::Publish(game@),
        }
    }
}

/// One match and the verdict on the request handled last, driven by the
/// answers of the dispatcher.
#[derive(Debug)]
pub struct Session {
    game: GameState,
    verdict: FinishStatus,
    phase: Phase,
}

/// A `Session` as a mathematical value.
pub struct SessionView {
    pub game: GameStateView,
    pub verdict: FinishStatus,
    pub phase: Phase,
}

impl SessionView {
    /// A session at its start: nobody has joined, nothing was turned down,
    /// and the first thing to do is to poll.
    pub open spec fn initial() -> SessionView {
        SessionView {
            game: GameStateView::initial(),
            verdict: FinishStatus::Accept,
            phase: Phase::Polling,
        }
    }

    /// Back to polling, with `verdict` to report.
    pub open spec fn poll(self, verdict: FinishStatus, rejection: Option<Rejection>) -> (
        SessionView,
        ActionView,
    ) {
        (
            SessionView { verdict, phase: Phase::Polling, ..self },
            ActionView::Poll { verdict, rejection },
        )
    }

    /// A request came in. One that advances the state has the bytes of its
    /// payload read as a game request, or is turned down if the payload is no
    /// hex text. Any other request, of a known kind or not, changes nothing,
    /// not even the verdict.
    pub open spec fn on_request(self, request: RollupResponse) -> (SessionView, ActionView) {
        match RequestType::named_by(request.request_type@) {
            Some(RequestType::AdvanceState) => match payload_data(request.data.payload@) {
                Some(data) => (
                    SessionView { phase: Phase::Decoding, ..self },
                    ActionView::Parse(data),
                ),
                None => self.poll(FinishStatus::Reject, Some(Rejection::InvalidHex)),
            },
            _ => self.poll(self.verdict, None),
        }
    }

    /// The bytes of a payload were read. A game request is put to the match:
    /// if the match takes it, it has changed and is to be published; if not,
    /// or if the bytes were no game request, the request is turned down.
    pub open spec fn on_parsed(self, parsed: Option<GameRequest>) -> (SessionView, ActionView) {
        match parsed {
            None => self.poll(FinishStatus::Reject, Some(Rejection::InvalidRequest)),
            Some(request) => match after_request(
                self.game,
                request.operation@,
                request.player_name@,
            ) {
                Ok(next) => (
                    SessionView { game: next, phase: Phase::Publishing, ..self },
                    ActionView::Publish(next),
                ),
                Err(reason) => self.poll(FinishStatus::Reject, Some(reason)),
            },
        }
    }

    /// The notice was sent: the request is accepted if the dispatcher
    /// acknowledged it, and turned down if not.
    pub open spec fn on_published(self, acknowledged: bool) -> (SessionView, ActionView) {
        if acknowledged {
            self.poll(FinishStatus::Accept, None)
        } else {
            self.poll(FinishStatus::Reject, Some(Rejection::NoticeFailed))
        }
    }

    /// What an event does to the session, and what is to be done next.
    ///
    /// Each phase waits for the answer to the action that led to it. While
    /// polling, anything but a request leaves everything as it is, and the
    /// session polls again. While a request is being handled, an event that
    /// is no answer to the action in flight counts as its failure.
    pub open spec fn step(self, event: Event) -> (SessionView, ActionView) {
        match self.phase {
            Phase::Polling => match event {
                Event::Request(request) => self.on_request(request),
                _ => self.poll(self.verdict, None),
            },
            Phase::Decoding => match event {
                Event::Parsed(parsed) => self.on_parsed(parsed),
                _ => self.on_parsed(None),
            },
            Phase::Publishing => match event {
                Event::Published(acknowledged) => self.on_published(acknowledged),
                _ => self.on_published(false),
            },
        }
    }
}

impl View for Session {
    type V = SessionView;

    closed spec fn view(&self) -> SessionView {
        SessionView { game: self.game@, verdict: self.verdict, phase: self.phase }
    }
}

impl Session {
    /// A session at its start. The first action is to poll with
    /// [`Session::verdict`], which is `Accept`.
    pub fn new() -> (session: Session)
        ensures
            session@ == SessionView::initial(),
    {
        Session { game: GameState::new(), verdict: FinishStatus::Accept, phase: Phase::Polling }
    }

    /// The match as it stands.
    pub fn game(&self) -> (game: &GameState)
        ensures
            game@ == self@.game,
    {
        &self.game
    }

    /// The verdict on the request that was handled last.
    pub fn verdict(&self) -> (verdict: FinishStatus)
        ensures
            verdict == self@.verdict,
    {
        self.verdict
    }

    /// What the session is waiting for.
    pub fn phase(&self) -> (phase: Phase)
        ensures
            phase == self@.phase,
    {
        self.phase
    }

    fn poll(&mut self, verdict: FinishStatus, rejection: Option<Rejection>) -> (action: Action)
        ensures
            (final(self)@, action@) == old(self)@.poll(verdict, rejection),
    {
        self.verdict = verdict;
        self.phase = Phase::Polling;
        Action::Poll { verdict, rejection }
    }

    fn on_request(&mut self, request: RollupResponse) -> (action: Action)
        ensures
            (final(self)@, action@) == old(self)@.on_request(request),
    {
        match RequestType::from_str(request.request_type.as_str()) {
            Ok(RequestType::AdvanceState) => match decode_payload(request.data.payload.as_str()) {
                Ok(bytes) => {
                    self.phase = Phase::Decoding;
                    Action::Parse(bytes)
                },
                Err(reason) => self.poll(FinishStatus::Reject, Some(reason)),
            },
            _ => self.poll(self.verdict, None),
        }
    }

    fn on_parsed(&mut self, parsed: Option<GameRequest>) -> (action: Action)
        ensures
            (final(self)@, action@) == old(self)@.on_parsed(parsed),
    {
        match parsed {
            None => self.poll(FinishStatus::Reject, Some(Rejection::InvalidRequest)),
            Some(request) => match advance_state(&mut self.game, request) {
                Ok(()) => {
                    self.phase = Phase::Publishing;
                    Action::Publish(self.game.clone())
                },
                Err(reason) => self.poll(FinishStatus::Reject, Some(reason)),
            },
        }
    }

    fn on_published(&mut self, acknowledged: bool) -> (action: Action)
        ensures
            (final(self)@, action@) == old(self)@.on_published(acknowledged),
    {
        if acknowledged {
            self.poll(FinishStatus::Accept, None)
        } else {
            self.poll(FinishStatus::Reject, Some(Rejection::NoticeFailed))
        }
    }

    /// Takes in `event` and says what to do next.
    pub fn step(&mut self, event: Event) -> (action: Action)
        ensures
            (final(self)@, action@) == old(self)@.step(event),
            final(self)@.game.wf(),
    {
        proof {
            use_type_invariant(&self.game);
        }
        let action = match self.phase {
            Phase::Polling => match event {
                Event::Request(request) => self.on_request(request),
                _ => self.poll(self.verdict, None),
            },
            Phase::Decoding => match event {
                Event::Parsed(parsed) => self.on_parsed(parsed),
                _ => self.on_parsed(None),
            },
            Phase::Publishing => match event {
                Event::Published(acknowledged) => self.on_published(acknowledged),
                _ => self.on_published(false),
            },
        };
        proof {
            use_type_invariant(&self.game);
        }
        action
    }
}

/// The action tells what the session waits for next: it polls exactly when
/// it asks for a poll, decodes exactly when it hands out bytes, and publishes
/// exactly when it hands out the match. The verdict to report is the one it
/// holds, and the match to publish is the match as it stands.
pub proof fn lemma_action_tells_phase(session: SessionView, event: Event)
    ensures
        ({
            let (next, action) = session.step(event);
            &&& next.phase == Phase::Polling <==> action is Poll
            &&& next.phase == Phase::Decoding <==> action is Parse
            &&& next.phase == Phase::Publishing <==> action is Publish
            &&& action matches ActionView::Poll { verdict, .. } ==> verdict == next.verdict
            &&& action matches ActionView::Publish(game) ==> game == next.game
        }),
{
}

/// A request changes the match at most once: only the step that takes in a
/// game request can change it, and that step goes on to publish, from where
/// the next step polls again. A well-formed match stays well formed.
pub proof fn lemma_match_changes_once(session: SessionView, event: Event)
    ensures
        ({
            let (next, action) = session.step(event);
            &&& next.game != session.game ==> session.phase == Phase::Decoding && event is Parsed
                && event->Parsed_0 is Some
            &&& action is Publish ==> session.phase == Phase::Decoding && Ok::<
                GameStateView,
                Rejection,
            >(next.game) == after_request(
                session.game,
                event->Parsed_0->Some_0.operation@,
                event->Parsed_0->Some_0.player_name@,
            )
            &&& session.phase != Phase::Polling ==> !(next.phase == session.phase)
            &&& session.phase == Phase::Publishing ==> next.phase == Phase::Polling
            &&& session.game.wf() ==> next.game.wf()
        }),
{
    if session.step(event).1 is Publish && session.game.wf() {
        let request = event->Parsed_0->Some_0;
        let named = PlayerAction::named_by(request.operation@)->Some_0;
        lemma_rules_keep_wf(session.game, request.player_name@, named);
    }
}

/// The verdict follows the requests. A request that is turned down leaves
/// the match as it was and the verdict at `Reject`; the verdict becomes
/// `Accept` only when a notice is acknowledged; and while nothing is handled
/// (no answer, nothing pending, a request that does not advance the state)
/// verdict and match stay as they are.
pub proof fn lemma_verdict_follows_requests(session: SessionView, event: Event)
    ensures
        ({
            let (next, action) = session.step(event);
            &&& action matches ActionView::Poll { rejection: Some(_), .. } ==> next.verdict
                == FinishStatus::Reject && next.game == session.game
            &&& action matches ActionView::Poll { rejection: None, .. } ==> next.game
                == session.game && (next.verdict == session.verdict || (session.phase
                == Phase::Publishing && event == Event::Published(true) && next.verdict
                == FinishStatus::Accept))
            &&& !(action is Poll) ==> next.verdict == session.verdict
            &&& session.phase == Phase::Polling && !(event is Request) ==> next == session
        }),
{
}

/// Whatever the session is told, nobody at the table heals, and a match that
/// is over stays exactly as it is.
pub proof fn lemma_session_keeps_the_rules(session: SessionView, event: Event)
    requires
        session.game.wf(),
    ensures
        session.game.no_healing_to(session.step(event).0.game),
        session.game.ended() ==> session.step(event).0.game == session.game,
{
    if session.step(event).0.game != session.game {
        let request = event->Parsed_0->Some_0;
        let named = PlayerAction::named_by(request.operation@)->Some_0;
        lemma_hp_never_rises(session.game, request.player_name@, named);
    }
}

/// A game request whose operation names no action is turned down, whatever
/// the match looks like, and the match stays as it is.
pub proof fn lemma_unknown_operation_is_rejected(session: SessionView, request: GameRequest)
    requires
        session.phase == Phase::Decoding,
        PlayerAction::named_by(request.operation@) is None,
    ensures
        session.step(Event::Parsed(Some(request))) == session.poll(
            FinishStatus::Reject,
            Some(Rejection::UnknownOperation),
        ),
        session.step(Event::Parsed(Some(request))).0.game == session.game,
{
}

} // verus!
