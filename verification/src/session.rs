//! The per-connection session: a protocol state machine driven by multiplexer
//! events, owning the transcript and deciding every outbound frame.

use crate::frames::spec_error_frame;
use crate::frames::spec_heartbeat_frame;
use crate::frames::spec_reply_frame;
use crate::frames::error_frame;
use crate::frames::heartbeat_frame;
use crate::frames::reply_frame;
use crate::transcript::assistant_turn;
use crate::transcript::spec_assistant_turn;
use crate::transcript::spec_system_turn;
use crate::transcript::spec_user_turn;
use crate::transcript::user_turn;
use crate::transcript::Role;
use crate::transcript::Transcript;
use crate::transcript::Turn;
use crate::transcript::TurnView;
use crate::transcript::turns_view;
use vstd::prelude::*;

verus! {

/// Protocol phase of one session.
#[derive(Clone, Copy, PartialEq, Eq, Structural, Debug)]
pub enum Phase {
    /// Connection upgraded; the initial generation call is outstanding.
    Handshaking,
    /// The multiplexer is waiting on an inbound frame or a heartbeat tick.
    Active,
    /// A generation call for a user turn is outstanding; every other event
    /// waits until it resolves.
    Generating,
    /// Terminal: no further frame is sent or accepted.
    Closed,
}

/// One inbound frame as the engine sees it. A binary frame's payload arrives
/// as its text form; frames the protocol layer answers by itself are `Other`.
pub enum Frame {
    Text(String),
    Close,
    Other,
}

/// Model of an inbound frame.
pub ghost enum FrameView {
    Text(Seq<char>),
    Close,
    Other,
}

impl View for Frame {
    type V = FrameView;

    open spec fn view(&self) -> FrameView {
        match self {
            Frame::Text(s) => FrameView::Text(s@),
            Frame::Close => FrameView::Close,
            Frame::Other => FrameView::Other,
        }
    }
}

/// One event the multiplexer can wake on while the session is active.
pub enum Event {
    /// The next inbound frame arrived.
    Inbound(Frame),
    /// The receive side is exhausted: no more frames will ever arrive.
    Exhausted,
    /// The heartbeat timer fired.
    Tick,
}

/// Model of a multiplexer event.
pub ghost enum EventView {
    Inbound(FrameView),
    Exhausted,
    Tick,
}

impl View for Event {
    type V = EventView;

    open spec fn view(&self) -> EventView {
        match self {
            Event::Inbound(f) => EventView::Inbound(f@),
            Event::Exhausted => EventView::Exhausted,
            Event::Tick => EventView::Tick,
        }
    }
}

/// What the driver owes after handing the engine an event or an outcome.
pub enum Action {
    /// Send this text frame to the peer and keep looping.
    Send(String),
    /// Call the generation backend with `snapshot()` and hand the outcome to
    /// `on_generation_result`; handle no other event meanwhile.
    Request,
    /// Send this text frame to the peer, then close the connection.
    SendClose(String),
    /// Close the connection without sending anything further.
    Close,
    /// Nothing to do.
    Ignore,
}

/// Model of an owed action.
pub ghost enum ActionView {
    Send(Seq<char>),
    Request,
    SendClose(Seq<char>),
    Close,
    Ignore,
}

impl View for Action {
    type V = ActionView;

    open spec fn view(&self) -> ActionView {
        match self {
            Action::Send(s) => ActionView::Send(s@),
            Action::Request => ActionView::Request,
            Action::SendClose(s) => ActionView::SendClose(s@),
            Action::Close => ActionView::Close,
            Action::Ignore => ActionView::Ignore,
        }
    }
}

/// A successful generation outcome: the next assistant turn's content.
pub struct GenReply {
    pub content: String,
    /// Optional label the backend attached to the turn.
    pub name: Option<String>,
}

/// Model of a generation reply.
pub ghost struct GenReplyView {
    pub content: Seq<char>,
    pub name: Option<Seq<char>>,
}

impl View for GenReply {
    type V = GenReplyView;

    open spec fn view(&self) -> GenReplyView {
        GenReplyView {
            content: self.content@,
            name: match self.name {
                Some(n) => Some(n@),
                None => None,
            },
        }
    }
}

/// A generation backend failure, contained to the owning session.
pub struct GenError {
    pub message: String,
}

impl View for GenError {
    type V = Seq<char>;

    open spec fn view(&self) -> Seq<char> {
        self.message@
    }
}

/// Model of a generation outcome.
pub open spec fn outcome_view(o: Result<GenReply, GenError>) -> Result<GenReplyView, Seq<char>> {
    match o {
        Ok(r) => Ok(r@),
        Err(e) => Err(e@),
    }
}

/// Model of a session: its phase and its transcript.
#[verifier::ext_equal]
pub ghost struct SessionView {
    pub phase: Phase,
    pub transcript: Seq<TurnView>,
}

impl SessionView {
    /// Well-formed: the transcript is seeded and its first entry is the
    /// system turn's role.
    pub open spec fn wf(self) -> bool {
        &&& self.transcript.len() >= 1
        &&& self.transcript[0].role == Role::System
    }
}

/// What handling one multiplexer event does: the successor state and the
/// action owed. Outside `Active` no event is handled — a tick arriving while
/// a generation call is outstanding is deferred, and a closed session ignores
/// everything.
pub open spec fn spec_on_event(s: SessionView, e: EventView) -> (SessionView, ActionView) {
    if s.phase != Phase::Active {
        (s, ActionView::Ignore)
    } else {
        match e {
            EventView::Inbound(FrameView::Text(msg)) => (
                SessionView {
                    phase: Phase::Generating,
                    transcript: s.transcript.push(spec_user_turn(msg)),
                },
                ActionView::Request,
            ),
            EventView::Inbound(FrameView::Close) => (
                SessionView { phase: Phase::Closed, ..s },
                ActionView::Close,
            ),
            EventView::Inbound(FrameView::Other) => (s, ActionView::Ignore),
            EventView::Exhausted => (SessionView { phase: Phase::Closed, ..s }, ActionView::Close),
            EventView::Tick => (s, ActionView::Send(spec_heartbeat_frame())),
        }
    }
}

/// What resolving an outstanding generation call does: on success the
/// assistant turn is appended and its reply frame sent, and the session is
/// active again; on failure the session closes after one visible error frame,
/// the transcript untouched. A call is outstanding only in `Handshaking` and
/// `Generating`; in any other phase there is nothing to resolve.
pub open spec fn spec_on_generation(s: SessionView, o: Result<GenReplyView, Seq<char>>) -> (
    SessionView,
    ActionView,
) {
    if s.phase != Phase::Handshaking && s.phase != Phase::Generating {
        (s, ActionView::Ignore)
    } else {
        spec_resolve_generation(s, o)
    }
}

/// The resolution itself, for a session whose generation call is outstanding.
pub open spec fn spec_resolve_generation(s: SessionView, o: Result<GenReplyView, Seq<char>>) -> (
    SessionView,
    ActionView,
) {
    match o {
        Ok(reply) => (
            SessionView {
                phase: Phase::Active,
                transcript: s.transcript.push(spec_assistant_turn(reply.content, reply.name)),
            },
            ActionView::Send(spec_reply_frame(reply.content)),
        ),
        Err(message) => (
            SessionView { phase: Phase::Closed, ..s },
            ActionView::SendClose(spec_error_frame(message)),
        ),
    }
}

/// One connection's session: the transcript it owns and its protocol phase.
pub struct Session {
    transcript: Transcript,
    phase: Phase,
}

impl View for Session {
    type V = SessionView;

    closed spec fn view(&self) -> SessionView {
        SessionView { phase: self.phase, transcript: self.transcript@ }
    }
}

impl Session {
    /// A session for a freshly upgraded connection: the transcript holds
    /// exactly the system turn, and the initial generation call is owed — the
    /// driver calls the backend with `snapshot()` and hands the outcome to
    /// `on_generation_result` before anything else.
    pub fn new(prompt: String) -> (s: Session)
        ensures
            s@.phase == Phase::Handshaking,
            s@.transcript =~= seq![spec_system_turn(prompt@)],
            s@.wf(),
    {
        Session { transcript: Transcript::new(prompt), phase: Phase::Handshaking }
    }

    /// The full ordered transcript: the literal request payload for every
    /// generation call.
    pub fn snapshot(&self) -> (r: &Vec<Turn>)
        ensures
            turns_view(r@) == self@.transcript,
    {
        self.transcript.snapshot()
    }

    pub fn phase(&self) -> (p: Phase)
        ensures
            p == self@.phase,
    {
        self.phase
    }

    /// Handles one multiplexer event on an active session, exactly as
    /// `spec_on_event` says: a text frame appends the user turn and asks the
    /// driver for a generation call, a close or an exhausted receive side
    /// closes the session, any other frame is ignored, and a tick owes the
    /// heartbeat frame. The transcript only ever grows, and its first entry
    /// never changes.
    pub fn on_event(&mut self, e: Event) -> (a: Action)
        requires
            old(self)@.wf(),
            old(self)@.phase == Phase::Active,
        ensures
            final(self)@ == spec_on_event(old(self)@, e@).0,
            a@ == spec_on_event(old(self)@, e@).1,
            final(self)@.wf(),
            old(self)@.transcript.is_prefix_of(final(self)@.transcript),
            final(self)@.transcript[0] == old(self)@.transcript[0],
    {
        let res = match e {
            Event::Inbound(f) => match f {
                Frame::Text(msg) => {
                    self.transcript.append(user_turn(msg));
                    self.phase = Phase::Generating;
                    Action::Request
                },
                Frame::Close => {
                    self.phase = Phase::Closed;
                    Action::Close
                },
                Frame::Other => Action::Ignore,
            },
            Event::Exhausted => {
                self.phase = Phase::Closed;
                Action::Close
            },
            Event::Tick => Action::Send(heartbeat_frame()),
        };
        res
    }

    /// Resolves the generation call owed since `new` (handshake) or since a
    /// user frame, exactly as `spec_on_generation` says: a reply appends the
    /// assistant turn and owes the prefixed, trimmed reply frame; a failure
    /// closes this session after one visible error frame. The transcript only
    /// ever grows, and its first entry never changes.
    pub fn on_generation_result(&mut self, outcome: Result<GenReply, GenError>) -> (a: Action)
        requires
            old(self)@.wf(),
            old(self)@.phase == Phase::Handshaking || old(self)@.phase == Phase::Generating,
        ensures
            final(self)@ == spec_on_generation(old(self)@, outcome_view(outcome)).0,
            a@ == spec_on_generation(old(self)@, outcome_view(outcome)).1,
            final(self)@.wf(),
            old(self)@.transcript.is_prefix_of(final(self)@.transcript),
            final(self)@.transcript[0] == old(self)@.transcript[0],
    {
        match outcome {
            Ok(reply) => {
                let frame = reply_frame(reply.content.as_str());
                self.transcript.append(assistant_turn(reply.content, reply.name));
                self.phase = Phase::Active;
                Action::Send(frame)
            },
            Err(err) => {
                self.phase = Phase::Closed;
                Action::SendClose(error_frame(err.message.as_str()))
            },
        }
    }
}

} // verus!
