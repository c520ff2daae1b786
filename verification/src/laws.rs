//! Laws of the session engine, proved once and for all states.

use crate::frames::spec_error_frame;
use crate::frames::spec_heartbeat_frame;
use crate::session::spec_on_event;
use crate::session::spec_on_generation;
use crate::session::ActionView;
use crate::session::EventView;
use crate::session::FrameView;
use crate::session::GenReplyView;
use crate::session::Phase;
use crate::session::SessionView;
use crate::transcript::spec_assistant_turn;
use crate::transcript::spec_user_turn;
use vstd::prelude::*;

verus! {

/// Handling any event only ever extends the transcript: the old transcript is
/// a prefix of the new one, well-formedness is kept, and in particular the
/// seeded first entry — the system turn — is never touched.
pub proof fn lemma_event_extends_transcript(s: SessionView, e: EventView)
    requires
        s.wf(),
    ensures
        s.transcript.is_prefix_of(spec_on_event(s, e).0.transcript),
        spec_on_event(s, e).0.wf(),
        spec_on_event(s, e).0.transcript[0] == s.transcript[0],
{
    let t = spec_on_event(s, e).0.transcript;
    assert(s.transcript =~= t.subrange(0, s.transcript.len() as int));
}

/// Resolving a generation call only ever extends the transcript: the old
/// transcript is a prefix of the new one, well-formedness is kept, and the
/// seeded first entry — the system turn — is never touched.
pub proof fn lemma_generation_extends_transcript(
    s: SessionView,
    o: Result<GenReplyView, Seq<char>>,
)
    requires
        s.wf(),
    ensures
        s.transcript.is_prefix_of(spec_on_generation(s, o).0.transcript),
        spec_on_generation(s, o).0.wf(),
        spec_on_generation(s, o).0.transcript[0] == s.transcript[0],
{
    let t = spec_on_generation(s, o).0.transcript;
    assert(s.transcript =~= t.subrange(0, s.transcript.len() as int));
}

/// A heartbeat tick on an active session, whatever the traffic so far, sends
/// exactly the heartbeat marker and changes nothing: not the phase, not the
/// transcript.
pub proof fn lemma_tick_sends_heartbeat(s: SessionView)
    requires
        s.wf(),
        s.phase == Phase::Active,
    ensures
        spec_on_event(s, EventView::Tick) == (s, ActionView::Send(spec_heartbeat_frame())),
{
}

/// While a generation call is outstanding, the multiplexer handles no event at
/// all: a tick arriving then is deferred to after the call resolves, never
/// handled out of turn, and no frame is sent.
pub proof fn lemma_no_event_while_generating(s: SessionView, e: EventView)
    requires
        s.phase == Phase::Generating,
    ensures
        spec_on_event(s, e) == (s, ActionView::Ignore),
{
}

/// A peer-initiated close, whatever the session holds, closes it at once: the
/// connection is shut with no frame sent, the transcript stays as it was, and
/// the closed session never handles another event or sends another frame.
pub proof fn lemma_close_is_final(s: SessionView)
    requires
        s.wf(),
        s.phase == Phase::Active,
    ensures
        spec_on_event(s, EventView::Inbound(FrameView::Close)) == (
            SessionView { phase: Phase::Closed, transcript: s.transcript },
            ActionView::Close,
        ),
        forall|later: SessionView, e: EventView|
            later.phase == Phase::Closed ==> #[trigger] spec_on_event(later, e) == (
                later,
                ActionView::Ignore,
            ),
{
}

/// An exhausted receive side is equivalent to a peer close: the session closes
/// at once, with no frame sent and the transcript untouched.
pub proof fn lemma_exhausted_closes(s: SessionView)
    requires
        s.wf(),
        s.phase == Phase::Active,
    ensures
        spec_on_event(s, EventView::Exhausted) == (
            SessionView { phase: Phase::Closed, transcript: s.transcript },
            ActionView::Close,
        ),
{
}

/// A backend failure terminates the affected session and nothing else: the
/// session closes after exactly one visible error frame, and no bogus turn is
/// appended to its transcript.
pub proof fn lemma_backend_failure_closes(s: SessionView, message: Seq<char>)
    requires
        s.wf(),
        s.phase == Phase::Handshaking || s.phase == Phase::Generating,
    ensures
        spec_on_generation(s, Err(message)) == (
            SessionView { phase: Phase::Closed, transcript: s.transcript },
            ActionView::SendClose(spec_error_frame(message)),
        ),
{
}

/// One step of a driver's trace: either a multiplexer event or the resolution
/// of a generation call.
pub ghost enum StepView {
    Event(EventView),
    Generation(Result<GenReplyView, Seq<char>>),
}

/// What one trace step does: the successor session and the action owed.
pub open spec fn spec_step(s: SessionView, step: StepView) -> (SessionView, ActionView) {
    match step {
        StepView::Event(e) => spec_on_event(s, e),
        StepView::Generation(o) => spec_on_generation(s, o),
    }
}

/// The session after a whole trace of steps, in order.
pub open spec fn spec_run(s: SessionView, steps: Seq<StepView>) -> SessionView
    decreases steps.len(),
{
    if steps.len() == 0 {
        s
    } else {
        spec_run(spec_step(s, steps[0]).0, steps.drop_first())
    }
}

/// The frames an action puts on the wire: at most one.
pub open spec fn spec_frames_of_action(a: ActionView) -> Seq<Seq<char>> {
    match a {
        ActionView::Send(f) => seq![f],
        ActionView::SendClose(f) => seq![f],
        _ => Seq::empty(),
    }
}

/// Every frame a trace of steps sends to the peer, in the order the steps were
/// handled — outbound frames are never reordered.
pub open spec fn spec_frames_of_run(s: SessionView, steps: Seq<StepView>) -> Seq<Seq<char>>
    decreases steps.len(),
{
    if steps.len() == 0 {
        Seq::empty()
    } else {
        spec_frames_of_action(spec_step(s, steps[0]).1) + spec_frames_of_run(
            spec_step(s, steps[0]).0,
            steps.drop_first(),
        )
    }
}

/// A closed session is inert: whatever a driver would still do — more frames,
/// ticks, even a stray generation outcome — the session stays exactly as it
/// is and not one further frame goes to the peer. Together with
/// `lemma_close_is_final`, a peer-initiated close at any point terminates the
/// session without any frame being sent from then on.
pub proof fn lemma_closed_session_sends_nothing(s: SessionView, steps: Seq<StepView>)
    requires
        s.phase == Phase::Closed,
    ensures
        spec_run(s, steps) == s,
        spec_frames_of_run(s, steps) == Seq::<Seq<char>>::empty(),
    decreases steps.len(),
{
    if steps.len() > 0 {
        lemma_closed_session_sends_nothing(s, steps.drop_first());
        assert(spec_frames_of_run(s, steps) =~= Seq::<Seq<char>>::empty());
    }
}

/// However a session is driven — any interleaving of inbound frames, ticks,
/// exhaustion and generation outcomes — the transcript only ever grows, stays
/// well-formed, and its first entry, the seeded system turn, is never mutated.
pub proof fn lemma_system_turn_immutable(s: SessionView, steps: Seq<StepView>)
    requires
        s.wf(),
    ensures
        spec_run(s, steps).wf(),
        s.transcript.is_prefix_of(spec_run(s, steps).transcript),
        spec_run(s, steps).transcript[0] == s.transcript[0],
    decreases steps.len(),
{
    let t = spec_run(s, steps).transcript;
    if steps.len() == 0 {
        assert(s.transcript =~= t.subrange(0, s.transcript.len() as int));
    } else {
        let s1 = spec_step(s, steps[0]).0;
        match steps[0] {
            StepView::Event(e) => lemma_event_extends_transcript(s, e),
            StepView::Generation(o) => lemma_generation_extends_transcript(s, o),
        }
        lemma_system_turn_immutable(s1, steps.drop_first());
        assert(s.transcript =~= t.subrange(0, s.transcript.len() as int));
    }
}

/// One full exchange on an active session: a user text frame arrives, the
/// backend is called, and its reply resolves the call.
pub open spec fn spec_exchange(s: SessionView, msg: Seq<char>, reply: GenReplyView) -> SessionView {
    spec_on_generation(
        spec_on_event(s, EventView::Inbound(FrameView::Text(msg))).0,
        Ok(reply),
    ).0
}

/// The session after a run of exchanges, one per inbound text frame, with no
/// interleaved close.
pub open spec fn spec_run_exchanges(
    s: SessionView,
    exchanges: Seq<(Seq<char>, GenReplyView)>,
) -> SessionView
    decreases exchanges.len(),
{
    if exchanges.len() == 0 {
        s
    } else {
        spec_run_exchanges(
            spec_exchange(s, exchanges[0].0, exchanges[0].1),
            exchanges.drop_first(),
        )
    }
}

/// Over any run of N inbound text frames, each answered by the backend and
/// with no interleaved close, the transcript grows by exactly 2 × N turns —
/// one User then one Assistant per frame, in strict arrival order — the old
/// transcript stays an untouched prefix, and the session is active again.
pub proof fn lemma_transcript_growth(s: SessionView, exchanges: Seq<(Seq<char>, GenReplyView)>)
    requires
        s.wf(),
        s.phase == Phase::Active,
    ensures
        spec_run_exchanges(s, exchanges).wf(),
        spec_run_exchanges(s, exchanges).phase == Phase::Active,
        spec_run_exchanges(s, exchanges).transcript.len() == s.transcript.len() + 2
            * exchanges.len(),
        s.transcript.is_prefix_of(spec_run_exchanges(s, exchanges).transcript),
        forall|i: int|
            0 <= i < exchanges.len() ==> {
                &&& #[trigger] spec_run_exchanges(s, exchanges).transcript[s.transcript.len() + 2
                    * i] == spec_user_turn(exchanges[i].0)
                &&& spec_run_exchanges(s, exchanges).transcript[s.transcript.len() + 2 * i + 1]
                    == spec_assistant_turn(exchanges[i].1.content, exchanges[i].1.name)
            },
    decreases exchanges.len(),
{
    let t = spec_run_exchanges(s, exchanges).transcript;
    if exchanges.len() == 0 {
        assert(s.transcript =~= t.subrange(0, s.transcript.len() as int));
    } else {
        let s1 = spec_exchange(s, exchanges[0].0, exchanges[0].1);
        lemma_transcript_growth(s1, exchanges.drop_first());
        let t1 = spec_run_exchanges(s1, exchanges.drop_first()).transcript;
        assert(t1 == t);
        assert(s1.transcript.is_prefix_of(t1));
        assert(s1.transcript == s.transcript.push(spec_user_turn(exchanges[0].0)).push(
            spec_assistant_turn(exchanges[0].1.content, exchanges[0].1.name),
        ));
        assert(s.transcript =~= t.subrange(0, s.transcript.len() as int));
        assert forall|i: int| 0 <= i < exchanges.len() implies {
            &&& #[trigger] t[s.transcript.len() + 2 * i] == spec_user_turn(exchanges[i].0)
            &&& t[s.transcript.len() + 2 * i + 1] == spec_assistant_turn(
                exchanges[i].1.content,
                exchanges[i].1.name,
            )
        } by {
            if i == 0 {
                assert(t[s.transcript.len() as int] == s1.transcript[s.transcript.len() as int]);
                assert(t[s.transcript.len() + 1 as int] == s1.transcript[
                    s.transcript.len() + 1 as int
                ]);
            } else {
                assert(exchanges.drop_first()[i - 1] == exchanges[i]);
                assert(t[s1.transcript.len() + 2 * (i - 1)] == spec_user_turn(
                    exchanges.drop_first()[i - 1].0,
                ));
                assert(t[s1.transcript.len() + 2 * (i - 1) + 1] == spec_assistant_turn(
                    exchanges.drop_first()[i - 1].1.content,
                    exchanges.drop_first()[i - 1].1.name,
                ));
                assert(s1.transcript.len() + 2 * (i - 1) == s.transcript.len() + 2 * i);
            }
        }
    }
}

} // verus!
