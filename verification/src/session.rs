//! The session of one connection: the handshake, the heartbeat and the
//! dispatch of events, as a state machine.
//!
//! The machine takes what happened (a frame came in, the heartbeat is due,
//! somebody asked to stop) and says what to do next (send a frame, hand an
//! event to its handler, finish). Waiting for the things that happen is left
//! to the caller, and so is doing what the machine says.

use vstd::prelude::*;
use crate::client::{Error, ErrorView, frame_debug};
use crate::gateway::{
    Frame, FrameView, OpCodeEvent, OpCodeEventView, OpCodeHello, OpCodeLogin, OpCodeLoginView,
};

verus! {

/// Where a session stands.
#[derive(Clone, Copy, Debug, PartialEq, Eq, Structural)]
pub enum SessionState {
    /// Nothing has come in yet; the first frame has to be `Hello`.
    AwaitingHello,
    /// `Hello` came and `Login` is on its way out.
    Authenticating { interval: u16 },
    /// The heartbeat runs and events are dispatched.
    Active { interval: u16 },
    /// The session is over, and its cancellation has fired.
    Closed,
}

/// What can happen to a session.
#[derive(Clone, Debug, PartialEq, Eq)]
pub enum SessionEvent {
    /// A frame came in from the transport.
    Inbound(Frame),
    /// The transport will hand over no more frames.
    InboundClosed,
    /// `Login` has been handed to the transport.
    LoginSent,
    /// The heartbeat interval has passed and nothing cancelled the wait.
    HeartbeatDue,
    /// The transport takes no more frames.
    SendFailed,
    /// Somebody asked the session to stop.
    Stop,
}

/// The content of a [`SessionEvent`].
pub enum SessionEventView {
    Inbound(FrameView),
    InboundClosed,
    LoginSent,
    HeartbeatDue,
    SendFailed,
    Stop,
}

impl View for SessionEvent {
    type V = SessionEventView;

    open spec fn view(&self) -> SessionEventView {
        match self {
            SessionEvent::Inbound(frame) => SessionEventView::Inbound(frame@),
            SessionEvent::InboundClosed => SessionEventView::InboundClosed,
            SessionEvent::LoginSent => SessionEventView::LoginSent,
            SessionEvent::HeartbeatDue => SessionEventView::HeartbeatDue,
            SessionEvent::SendFailed => SessionEventView::SendFailed,
            SessionEvent::Stop => SessionEventView::Stop,
        }
    }
}

/// What a session asks its caller to do.
#[derive(Debug, PartialEq, Eq)]
pub enum SessionAction {
    /// Go on waiting.
    Nothing,
    /// Hand the frame to the transport.
    Send(Frame),
    /// Start the heartbeat, with this many milliseconds between two beats,
    /// and the dispatch of events.
    Activate { interval: u16 },
    /// Hand the event to its handler.
    Dispatch(OpCodeEvent),
    /// Fire the cancellation and end the session with this outcome.
    Finish(Result<(), Error>),
}

/// The content of a [`SessionAction`].
pub enum SessionActionView {
    Nothing,
    Send(FrameView),
    Activate { interval: u16 },
    Dispatch(OpCodeEventView),
    Finish(Result<(), ErrorView>),
}

impl View for SessionAction {
    type V = SessionActionView;

    open spec fn view(&self) -> SessionActionView {
        match self {
            SessionAction::Nothing => SessionActionView::Nothing,
            SessionAction::Send(frame) => SessionActionView::Send(frame@),
            SessionAction::Activate { interval } => SessionActionView::Activate {
                interval: *interval,
            },
            SessionAction::Dispatch(event) => SessionActionView::Dispatch(event@),
            SessionAction::Finish(Ok(())) => SessionActionView::Finish(Ok(())),
            SessionAction::Finish(Err(error)) => SessionActionView::Finish(Err(error@)),
        }
    }
}

/// What a frame that came in means once the handshake is under way: an
/// event is dispatched, anything else breaks the protocol.
pub open spec fn after_frame(state: SessionState, frame: FrameView) -> (
    SessionState,
    SessionActionView,
) {
    match frame {
        FrameView::Event(event) => (state, SessionActionView::Dispatch(event)),
        _ => (
            SessionState::Closed,
            SessionActionView::Finish(
                Err(ErrorView::ExpectationFailed("Frame::Event(...)"@, frame_debug(frame))),
            ),
        ),
    }
}

/// The state that follows, and what is to be done, when `event` happens to
/// the session of the client with this token.
pub open spec fn step_of(state: SessionState, token: Seq<char>, event: SessionEventView) -> (
    SessionState,
    SessionActionView,
) {
    let finished = (SessionState::Closed, SessionActionView::Finish(Ok(())));
    let unmoved = (state, SessionActionView::Nothing);
    match state {
        SessionState::Closed => unmoved,
        SessionState::AwaitingHello => match event {
            SessionEventView::Inbound(FrameView::Hello(hello)) => (
                SessionState::Authenticating { interval: hello.heart_beat },
                SessionActionView::Send(FrameView::Login(OpCodeLoginView { token })),
            ),
            SessionEventView::Inbound(frame) => (
                SessionState::Closed,
                SessionActionView::Finish(
                    Err(ErrorView::ExpectationFailed("Frame::Hello(...)"@, frame_debug(frame))),
                ),
            ),
            SessionEventView::InboundClosed => finished,
            SessionEventView::SendFailed => finished,
            SessionEventView::Stop => finished,
            _ => unmoved,
        },
        SessionState::Authenticating { interval } => match event {
            SessionEventView::LoginSent => (
                SessionState::Active { interval },
                SessionActionView::Activate { interval },
            ),
            SessionEventView::Inbound(frame) => after_frame(state, frame),
            SessionEventView::InboundClosed => finished,
            SessionEventView::SendFailed => finished,
            SessionEventView::Stop => finished,
            _ => unmoved,
        },
        SessionState::Active { interval } => match event {
            SessionEventView::HeartbeatDue => (
                state,
                SessionActionView::Send(FrameView::HeartBeat),
            ),
            SessionEventView::Inbound(frame) => after_frame(state, frame),
            SessionEventView::InboundClosed => finished,
            SessionEventView::SendFailed => finished,
            SessionEventView::Stop => finished,
            _ => unmoved,
        },
    }
}

/// The state of a session after a run of events.
pub open spec fn run_state(state: SessionState, token: Seq<char>, events: Seq<SessionEventView>)
    -> SessionState
    decreases events.len(),
{
    if events.len() == 0 {
        state
    } else {
        run_state(step_of(state, token, events[0]).0, token, events.drop_first())
    }
}

/// What a session asks for during a run of events, one action for each.
pub open spec fn run_actions(
    state: SessionState,
    token: Seq<char>,
    events: Seq<SessionEventView>,
) -> Seq<SessionActionView>
    decreases events.len(),
{
    if events.len() == 0 {
        Seq::empty()
    } else {
        seq![step_of(state, token, events[0]).1] + run_actions(
            step_of(state, token, events[0]).0,
            token,
            events.drop_first(),
        )
    }
}

/// A run asks for one action for each of its events.
pub proof fn lemma_run_length(
    state: SessionState,
    token: Seq<char>,
    events: Seq<SessionEventView>,
)
    ensures
        run_actions(state, token, events).len() == events.len(),
    decreases events.len(),
{
    if events.len() > 0 {
        lemma_run_length(step_of(state, token, events[0]).0, token, events.drop_first());
    }
}

/// Whether a session is closed or runs on the given heartbeat interval.
pub open spec fn closed_or_on(state: SessionState, interval: u16) -> bool {
    state == SessionState::Closed || state == (SessionState::Authenticating { interval })
        || state == (SessionState::Active { interval })
}

/// The heartbeat interval is fixed for the lifetime of a session: whatever
/// happens after `Hello`, the session runs on the interval that `Hello`
/// named until it is closed.
pub proof fn lemma_interval_is_fixed(
    token: Seq<char>,
    hello: OpCodeHello,
    later: Seq<SessionEventView>,
)
    ensures
        ({
            let greeted = step_of(
                SessionState::AwaitingHello,
                token,
                SessionEventView::Inbound(FrameView::Hello(hello)),
            ).0;
            &&& greeted == (SessionState::Authenticating { interval: hello.heart_beat })
            &&& closed_or_on(run_state(greeted, token, later), hello.heart_beat)
        }),
{
    lemma_interval_stays(
        SessionState::Authenticating { interval: hello.heart_beat },
        token,
        later,
        hello.heart_beat,
    );
}

/// A session that is closed or runs on an interval is, after any run of
/// events, closed or running on the same interval.
pub proof fn lemma_interval_stays(
    state: SessionState,
    token: Seq<char>,
    events: Seq<SessionEventView>,
    interval: u16,
)
    requires
        closed_or_on(state, interval),
    ensures
        closed_or_on(run_state(state, token, events), interval),
    decreases events.len(),
{
    if events.len() > 0 {
        lemma_interval_stays(
            step_of(state, token, events[0]).0,
            token,
            events.drop_first(),
            interval,
        );
    }
}

/// The only frames that a session sends are `Login`, as the answer to
/// `Hello`, and `HeartBeat`, while it is active.
pub proof fn lemma_what_is_sent(state: SessionState, token: Seq<char>, event: SessionEventView)
    ensures
        step_of(state, token, event).1 matches SessionActionView::Send(frame) ==> {
            ||| frame == FrameView::Login(OpCodeLoginView { token }) && state
                == SessionState::AwaitingHello && event matches SessionEventView::Inbound(
                FrameView::Hello(_),
            )
            ||| frame == FrameView::HeartBeat && state is Active && event
                == SessionEventView::HeartbeatDue
        },
{
}

/// A closed session stays closed and asks for nothing more, whatever
/// happens to it.
pub proof fn lemma_closed_is_final(token: Seq<char>, events: Seq<SessionEventView>)
    ensures
        run_state(SessionState::Closed, token, events) == SessionState::Closed,
        forall|i: int|
            0 <= i < events.len() ==> #[trigger] run_actions(SessionState::Closed, token, events)[i]
                == SessionActionView::Nothing,
    decreases events.len(),
{
    lemma_run_length(SessionState::Closed, token, events);
    if events.len() > 0 {
        lemma_closed_is_final(token, events.drop_first());
        lemma_run_length(SessionState::Closed, token, events.drop_first());
        let rest = run_actions(SessionState::Closed, token, events.drop_first());
        let all = run_actions(SessionState::Closed, token, events);
        assert forall|i: int| 0 <= i < events.len() implies #[trigger] all[i]
            == SessionActionView::Nothing by {
            if i > 0 {
                assert(all[i] == rest[i - 1]);
            }
        }
    }
}

/// A session whose first frame is not `Hello` ends at once with
/// `ExpectationFailed`, and never asks for anything after that: no `Login`
/// is sent.
pub proof fn lemma_first_frame_must_be_hello(
    token: Seq<char>,
    frame: FrameView,
    later: Seq<SessionEventView>,
)
    requires
        !(frame is Hello),
    ensures
        ({
            let events = seq![SessionEventView::Inbound(frame)] + later;
            let actions = run_actions(SessionState::AwaitingHello, token, events);
            &&& run_state(SessionState::AwaitingHello, token, events) == SessionState::Closed
            &&& actions.len() == events.len()
            &&& actions[0] == SessionActionView::Finish(
                Err(ErrorView::ExpectationFailed("Frame::Hello(...)"@, frame_debug(frame))),
            )
            &&& forall|i: int| 0 <= i < actions.len() ==> !(#[trigger] actions[i] is Send)
        }),
{
    let events = seq![SessionEventView::Inbound(frame)] + later;
    assert(events.drop_first() =~= later);
    lemma_run_length(SessionState::AwaitingHello, token, events);
    lemma_run_length(SessionState::Closed, token, later);
    lemma_closed_is_final(token, later);
    let actions = run_actions(SessionState::AwaitingHello, token, events);
    let rest = run_actions(SessionState::Closed, token, later);
    assert forall|i: int| 0 <= i < actions.len() implies !(#[trigger] actions[i] is Send) by {
        if i > 0 {
            assert(actions[i] == rest[i - 1]);
        }
    }
}

/// While nothing else happens, an active session sends exactly one
/// `HeartBeat` each time its interval has passed, and the interval stays what
/// `Hello` said.
pub proof fn lemma_one_heartbeat_per_interval(interval: u16, token: Seq<char>, beats: nat)
    ensures
        ({
            let events = Seq::new(beats, |i: int| SessionEventView::HeartbeatDue);
            &&& run_state(SessionState::Active { interval }, token, events) == (
            SessionState::Active { interval })
            &&& run_actions(SessionState::Active { interval }, token, events) == Seq::new(
                beats,
                |i: int| SessionActionView::Send(FrameView::HeartBeat),
            )
        }),
    decreases beats,
{
    let state = SessionState::Active { interval };
    let events = Seq::new(beats, |i: int| SessionEventView::HeartbeatDue);
    if beats > 0 {
        let fewer = Seq::new((beats - 1) as nat, |i: int| SessionEventView::HeartbeatDue);
        assert(events.drop_first() =~= fewer);
        lemma_one_heartbeat_per_interval(interval, token, (beats - 1) as nat);
        assert(run_actions(state, token, events) =~= Seq::new(
            beats,
            |i: int| SessionActionView::Send(FrameView::HeartBeat),
        ));
    } else {
        assert(run_actions(state, token, events) =~= Seq::new(
            beats,
            |i: int| SessionActionView::Send(FrameView::HeartBeat),
        ));
    }
}

/// Stopping is idempotent: the first request to stop ends a running session
/// without an error, and whatever happens after that, another request to
/// stop or a heartbeat that falls due, asks for nothing more.
pub proof fn lemma_stop_is_idempotent(
    state: SessionState,
    token: Seq<char>,
    later: Seq<SessionEventView>,
)
    ensures
        step_of(state, token, SessionEventView::Stop).0 == SessionState::Closed,
        !(state is Closed) ==> step_of(state, token, SessionEventView::Stop).1
            == SessionActionView::Finish(Ok(())),
        state is Closed ==> step_of(state, token, SessionEventView::Stop).1
            == SessionActionView::Nothing,
        run_state(SessionState::Closed, token, later) == SessionState::Closed,
        forall|i: int|
            0 <= i < later.len() ==> #[trigger] run_actions(SessionState::Closed, token, later)[i]
                == SessionActionView::Nothing,
{
    lemma_closed_is_final(token, later);
}

/// How many times a run of actions starts the heartbeat and the dispatch of
/// events.
pub open spec fn activations(actions: Seq<SessionActionView>) -> nat
    decreases actions.len(),
{
    if actions.len() == 0 {
        0
    } else if actions[0] is Activate {
        1 + activations(actions.drop_first())
    } else {
        activations(actions.drop_first())
    }
}

/// Whatever happens to a session, its heartbeat and its dispatch of events
/// are started at most once, and never again once they run or the session is
/// closed.
pub proof fn lemma_loops_start_once(
    state: SessionState,
    token: Seq<char>,
    events: Seq<SessionEventView>,
)
    ensures
        activations(run_actions(state, token, events)) <= 1,
        state is Active || state is Closed ==> activations(run_actions(state, token, events))
            == 0,
    decreases events.len(),
{
    if events.len() > 0 {
        let next = step_of(state, token, events[0]).0;
        let rest = run_actions(next, token, events.drop_first());
        lemma_loops_start_once(next, token, events.drop_first());
        assert(run_actions(state, token, events).drop_first() =~= rest);
    }
}

/// The session of one connection.
pub struct Session {
    state: SessionState,
    token: String,
}

impl Session {
    /// Where the session stands.
    pub closed spec fn state_of(self) -> SessionState {
        self.state
    }

    /// The token that the session logs in with.
    pub closed spec fn token_of(self) -> Seq<char> {
        self.token@
    }

    /// A session that has yet to see its first frame.
    pub fn new(token: String) -> (session: Session)
        ensures
            session.state_of() == SessionState::AwaitingHello,
            session.token_of() == token@,
    {
        Session { state: SessionState::AwaitingHello, token }
    }

    /// Where the session stands.
    pub fn state(&self) -> (state: SessionState)
        ensures
            state == self.state_of(),
    {
        self.state
    }

    /// Whether the session is over, so that whoever waits on its cancellation
    /// is to stop waiting.
    pub fn is_cancelled(&self) -> (cancelled: bool)
        ensures
            cancelled == (self.state_of() is Closed),
    {
        match self.state {
            SessionState::Closed => true,
            _ => false,
        }
    }

    /// How many milliseconds to wait for the cancellation before the next
    /// heartbeat is due; `None` while no heartbeat runs.
    pub fn heartbeat_interval(&self) -> (wait: Option<u16>)
        ensures
            match wait {
                Some(interval) => self.state_of() == (SessionState::Active { interval }),
                None => !(self.state_of() is Active),
            },
    {
        match self.state {
            SessionState::Active { interval } => Some(interval),
            _ => None,
        }
    }

    /// Ends the session with its last action.
    fn finish(&mut self, outcome: Result<(), Error>) -> (action: SessionAction)
        ensures
            final(self).state_of() == SessionState::Closed,
            final(self).token_of() == old(self).token_of(),
            action == SessionAction::Finish(outcome),
    {
        self.state = SessionState::Closed;
        SessionAction::Finish(outcome)
    }

    /// Takes a frame that came in once the handshake is under way.
    fn take_frame(&mut self, frame: Frame) -> (action: SessionAction)
        requires
            !(old(self).state_of() is Closed),
        ensures
            final(self).state_of() == after_frame(old(self).state_of(), frame@).0,
            final(self).token_of() == old(self).token_of(),
            action@ == after_frame(old(self).state_of(), frame@).1,
    {
        match frame {
            Frame::Event(event) => SessionAction::Dispatch(event),
            other => {
                let error = Error::unexpected_frame("Frame::Event(...)", &other);
                self.finish(Err(error))
            },
        }
    }

    /// Takes what happened and says what to do next.
    pub fn step(&mut self, event: SessionEvent) -> (action: SessionAction)
        ensures
            final(self).state_of() == step_of(
                old(self).state_of(),
                old(self).token_of(),
                event@,
            ).0,
            final(self).token_of() == old(self).token_of(),
            action@ == step_of(old(self).state_of(), old(self).token_of(), event@).1,
    {
        match self.state {
            SessionState::Closed => SessionAction::Nothing,
            SessionState::AwaitingHello => match event {
                SessionEvent::Inbound(Frame::Hello(hello)) => {
                    self.state = SessionState::Authenticating { interval: hello.heart_beat };
                    SessionAction::Send(Frame::Login(OpCodeLogin { token: self.token.clone() }))
                },
                SessionEvent::Inbound(frame) => {
                    let error = Error::unexpected_frame("Frame::Hello(...)", &frame);
                    self.finish(Err(error))
                },
                SessionEvent::InboundClosed | SessionEvent::SendFailed | SessionEvent::Stop => {
                    self.finish(Ok(()))
                },
                _ => SessionAction::Nothing,
            },
            SessionState::Authenticating { interval } => match event {
                SessionEvent::LoginSent => {
                    self.state = SessionState::Active { interval };
                    SessionAction::Activate { interval }
                },
                SessionEvent::Inbound(frame) => self.take_frame(frame),
                SessionEvent::InboundClosed | SessionEvent::SendFailed | SessionEvent::Stop => {
                    self.finish(Ok(()))
                },
                _ => SessionAction::Nothing,
            },
            SessionState::Active { interval } => match event {
                SessionEvent::HeartbeatDue => SessionAction::Send(Frame::HeartBeat),
                SessionEvent::Inbound(frame) => self.take_frame(frame),
                SessionEvent::InboundClosed | SessionEvent::SendFailed | SessionEvent::Stop => {
                    self.finish(Ok(()))
                },
                _ => SessionAction::Nothing,
            },
        }
    }

    /// Asks the session to stop. Asking again changes nothing.
    pub fn stop(&mut self) -> (action: SessionAction)
        ensures
            final(self).state_of() == SessionState::Closed,
            final(self).token_of() == old(self).token_of(),
            old(self).state_of() is Closed ==> action@ == SessionActionView::Nothing,
            !(old(self).state_of() is Closed) ==> action@ == SessionActionView::Finish(Ok(())),
    {
        self.step(SessionEvent::Stop)
    }
}

} // verus!
