//! The polling loop as a state machine.
//!
//! The driver owns the connection and the clock; the loop owns the
//! decisions. The driver asks [`PollingLoop::next_request`] what to ask
//! the bot API for, makes the request, and reports how it went to
//! [`PollingLoop::on_outcome`], which returns what to do before the next
//! request. The loop has no final state: it runs until its driver is
//! dropped.

use crate::engine::{
    handle_batch, highest_id, larger, law_batch_preserves, step_batch, Effect, EffectView, Pause,
};
use crate::session::{Session, SessionView};
use crate::update::{IncomingUpdate, UpdateView};
use vstd::prelude::*;

verus! {

/// Where the loop stands.
#[derive(Debug, Clone, Copy, PartialEq, Eq, Structural)]
pub enum Phase {
    /// Before the first request, which only finds out how far the
    /// updates have got.
    Starting,
    /// Long-polling for updates.
    Polling,
}

/// Page size of the first request.
pub const BASELINE_LIMIT: u8 = 10;

/// How long a long-poll may stay open, in seconds.
pub const POLL_TIMEOUT_SECS: u32 = 10;

/// What to ask the bot API for.
#[derive(Debug, Clone, Copy, PartialEq, Eq)]
pub struct PollRequest {
    /// Lowest update identifier wanted; absent to take what is there.
    pub offset: Option<i64>,
    /// Largest number of updates wanted; absent for no limit of ours.
    pub limit: Option<u8>,
    /// How long the request may stay open, in seconds; absent to have it
    /// answered at once.
    pub timeout_secs: Option<u32>,
}

/// How a request went.
#[derive(Debug, Clone, PartialEq, Eq)]
pub enum PollOutcome {
    /// The request succeeded with these updates, possibly none.
    Updates(Vec<IncomingUpdate>),
    /// The request failed, in the network or at the API.
    Failed,
}

/// The mathematical value of a [`PollOutcome`].
pub ghost enum OutcomeView {
    Updates(Seq<UpdateView>),
    Failed,
}

impl View for PollOutcome {
    type V = OutcomeView;

    open spec fn view(&self) -> OutcomeView {
        match self {
            PollOutcome::Updates(updates) => OutcomeView::Updates(updates.deep_view()),
            PollOutcome::Failed => OutcomeView::Failed,
        }
    }
}

/// The mathematical value of a [`PollingLoop`].
pub ghost struct LoopView {
    pub phase: Phase,
    pub session: SessionView,
}

/// The request that a loop makes next. The first request takes a small
/// page of whatever is there; every later one long-polls from the offset
/// of the session.
pub open spec fn request_for(state: LoopView) -> PollRequest {
    match state.phase {
        Phase::Starting => PollRequest {
            offset: None,
            limit: Some(BASELINE_LIMIT),
            timeout_secs: None,
        },
        Phase::Polling => PollRequest {
            offset: Some(state.session.offset as i64),
            limit: None,
            timeout_secs: Some(POLL_TIMEOUT_SECS),
        },
    }
}

/// The session after it has skipped `updates`: its offset lies past all
/// of them, and nothing else has changed.
pub open spec fn skipped(session: SessionView, updates: Seq<UpdateView>) -> SessionView
    decreases updates.len(),
{
    if updates.len() == 0 {
        session
    } else {
        skipped(session, updates.drop_last()).advanced_past(updates.last().id)
    }
}

/// The loop and the effects after the outcome of one request.
///
/// The first request only sets the offset past what had piled up before
/// the session began; its failure is passed over. From then on a
/// successful request has its updates handled in order, followed by the
/// short wait, and a failed one changes nothing and is followed by the
/// longer wait.
pub open spec fn poll_step(state: LoopView, outcome: OutcomeView) -> (LoopView, Seq<EffectView>) {
    match state.phase {
        Phase::Starting => match outcome {
            OutcomeView::Updates(updates) => (
                LoopView { phase: Phase::Polling, session: skipped(state.session, updates) },
                Seq::empty(),
            ),
            OutcomeView::Failed => (
                LoopView { phase: Phase::Polling, session: state.session },
                Seq::empty(),
            ),
        },
        Phase::Polling => match outcome {
            OutcomeView::Updates(updates) => {
                let (session, effects) = step_batch(state.session, updates);
                (
                    LoopView { phase: Phase::Polling, session },
                    effects + seq![EffectView::Wait(Pause::Courtesy)],
                )
            },
            OutcomeView::Failed => (state, seq![EffectView::Wait(Pause::Backoff)]),
        },
    }
}

/// The loop and all the effects after a sequence of outcomes.
pub open spec fn run(state: LoopView, outcomes: Seq<OutcomeView>) -> (LoopView, Seq<EffectView>)
    decreases outcomes.len(),
{
    if outcomes.len() == 0 {
        (state, Seq::empty())
    } else {
        let (before, earlier) = run(state, outcomes.drop_last());
        let (after, later) = poll_step(before, outcomes.last());
        (after, earlier + later)
    }
}

/// The updates that one outcome delivered: none for a failure.
pub open spec fn delivered(outcome: OutcomeView) -> Seq<UpdateView> {
    match outcome {
        OutcomeView::Updates(updates) => updates,
        OutcomeView::Failed => Seq::empty(),
    }
}

/// All the updates that a sequence of outcomes delivered, in order.
pub open spec fn observed(outcomes: Seq<OutcomeView>) -> Seq<UpdateView>
    decreases outcomes.len(),
{
    if outcomes.len() == 0 {
        Seq::empty()
    } else {
        observed(outcomes.drop_last()) + delivered(outcomes.last())
    }
}

/// `count` failed requests in a row.
pub open spec fn failures(count: nat) -> Seq<OutcomeView> {
    Seq::new(count, |i: int| OutcomeView::Failed)
}

/// `count` waits of the longer kind.
pub open spec fn backoffs(count: nat) -> Seq<EffectView> {
    Seq::new(count, |i: int| EffectView::Wait(Pause::Backoff))
}

/// The highest identifier of two runs of updates, one after the other, is
/// the higher of the two.
proof fn lemma_highest_of_joined(first: Seq<UpdateView>, second: Seq<UpdateView>)
    ensures
        highest_id(first + second) == larger(highest_id(first), highest_id(second)),
    decreases second.len(),
{
    if second.len() == 0 {
        assert(first + second =~= first);
    } else {
        lemma_highest_of_joined(first, second.drop_last());
        assert((first + second).drop_last() =~= first + second.drop_last());
        assert((first + second).last() == second.last());
    }
}

/// Skipping updates moves the offset past the highest of them and
/// changes nothing else.
proof fn lemma_skipped(session: SessionView, updates: Seq<UpdateView>)
    requires
        session.wf(),
    ensures
        skipped(session, updates) == (SessionView {
            offset: larger(session.offset, highest_id(updates) + 1),
            ..session
        }),
    decreases updates.len(),
{
    if updates.len() > 0 {
        lemma_skipped(session, updates.drop_last());
    }
}

/// What the outcome of one request leaves alone: the session stays well
/// formed and offers the same options, the offset lies past every update
/// delivered and not before where it was, and an owner of the keyboard
/// that is known stays the owner.
pub proof fn law_step_preserves(state: LoopView, outcome: OutcomeView)
    requires
        state.session.wf(),
    ensures
        poll_step(state, outcome).0.phase == Phase::Polling,
        poll_step(state, outcome).0.session.wf(),
        poll_step(state, outcome).0.session.predefined == state.session.predefined,
        poll_step(state, outcome).0.session.offset == larger(
            state.session.offset,
            highest_id(delivered(outcome)) + 1,
        ),
        state.session.options_message_id is Some ==> poll_step(
            state,
            outcome,
        ).0.session.options_message_id == state.session.options_message_id,
{
    match outcome {
        OutcomeView::Updates(updates) => {
            lemma_skipped(state.session, updates);
            law_batch_preserves(state.session, updates);
        },
        OutcomeView::Failed => {},
    }
}

/// What holds after any sequence of outcomes. The session stays well
/// formed, so only offered options are ever switched on, and it offers
/// the same options throughout. The offset is the highest identifier
/// delivered plus one, unless it was further on at the outset. An owner
/// of the keyboard that is known at the outset is the owner at the end.
pub proof fn law_run_preserves(state: LoopView, outcomes: Seq<OutcomeView>)
    requires
        state.session.wf(),
    ensures
        run(state, outcomes).0.session.wf(),
        run(state, outcomes).0.session.predefined == state.session.predefined,
        run(state, outcomes).0.session.offset == larger(
            state.session.offset,
            highest_id(observed(outcomes)) + 1,
        ),
        state.session.options_message_id is Some ==> run(
            state,
            outcomes,
        ).0.session.options_message_id == state.session.options_message_id,
    decreases outcomes.len(),
{
    if outcomes.len() > 0 {
        let earlier = outcomes.drop_last();
        law_run_preserves(state, earlier);
        law_step_preserves(run(state, earlier).0, outcomes.last());
        lemma_highest_of_joined(observed(earlier), delivered(outcomes.last()));
    }
}

/// A loop that runs from the start of its session has, once any update
/// was delivered, its offset just past the highest identifier delivered.
pub proof fn law_offset_follows_highest(predefined: Seq<Seq<char>>, outcomes: Seq<OutcomeView>)
    requires
        observed(outcomes).len() > 0,
    ensures
        run(
            LoopView { phase: Phase::Starting, session: SessionView::fresh(predefined) },
            outcomes,
        ).0.session.offset == highest_id(observed(outcomes)) + 1,
{
    let state = LoopView { phase: Phase::Starting, session: SessionView::fresh(predefined) };
    law_run_preserves(state, outcomes);
    lemma_highest_not_negative(observed(outcomes));
}

/// The highest identifier of updates that exist is not negative.
proof fn lemma_highest_not_negative(updates: Seq<UpdateView>)
    requires
        updates.len() > 0,
    ensures
        highest_id(updates) >= 0,
{
}

/// The offset never moves back: at every point of a run it is at least
/// what it was at any earlier point.
pub proof fn law_offset_never_decreases(state: LoopView, outcomes: Seq<OutcomeView>, earlier: int)
    requires
        state.session.wf(),
        0 <= earlier <= outcomes.len(),
    ensures
        run(state, outcomes.take(earlier)).0.session.offset <= run(
            state,
            outcomes,
        ).0.session.offset,
    decreases outcomes.len() - earlier,
{
    if earlier < outcomes.len() {
        let shorter = outcomes.drop_last();
        law_offset_never_decreases(state, shorter, earlier);
        assert(shorter.take(earlier) =~= outcomes.take(earlier));
        law_run_preserves(state, shorter);
        law_step_preserves(run(state, shorter).0, outcomes.last());
    } else {
        assert(outcomes.take(earlier) =~= outcomes);
    }
}

/// Failed requests cost nothing but time. While polling, any number of
/// failures in a row leaves the loop as it was, asks for one wait of the
/// longer kind per failure and for nothing else, and the request that
/// follows is the one that would have been made without them.
pub proof fn law_failures_only_back_off(state: LoopView, count: nat)
    requires
        state.phase == Phase::Polling,
    ensures
        run(state, failures(count)) == (state, backoffs(count)),
        request_for(run(state, failures(count)).0) == request_for(state),
    decreases count,
{
    if count == 0 {
        assert(run(state, failures(count)).1 =~= backoffs(count));
    } else {
        let fewer = (count - 1) as nat;
        law_failures_only_back_off(state, fewer);
        assert(failures(count).drop_last() =~= failures(fewer));
        assert(backoffs(fewer) + seq![EffectView::Wait(Pause::Backoff)] =~= backoffs(count));
    }
}

/// A failed request never changes the session, in either phase.
pub proof fn law_failure_keeps_session(state: LoopView)
    ensures
        poll_step(state, OutcomeView::Failed).0.session == state.session,
{
}

/// The polling loop of one session.
#[derive(Debug)]
pub struct PollingLoop {
    phase: Phase,
    session: Session,
}

impl View for PollingLoop {
    type V = LoopView;

    closed spec fn view(&self) -> LoopView {
        LoopView { phase: self.phase, session: self.session@ }
    }
}

impl PollingLoop {
    /// Starts the loop of a new session that offers `predefined_options`.
    /// Nothing of an earlier session is carried over.
    pub fn new(predefined_options: Vec<String>) -> (polling: PollingLoop)
        ensures
            polling@ == (LoopView {
                phase: Phase::Starting,
                session: SessionView::fresh(predefined_options.deep_view()),
            }),
    {
        PollingLoop { phase: Phase::Starting, session: Session::new(predefined_options) }
    }

    /// Where the loop stands.
    pub fn phase(&self) -> (phase: Phase)
        ensures
            phase == self@.phase,
    {
        self.phase
    }

    /// The session of the loop.
    pub fn session(&self) -> (session: &Session)
        ensures
            session@ == self@.session,
            session@.wf(),
    {
        proof {
            use_type_invariant(&self.session);
        }
        &self.session
    }

    /// What to ask the bot API for next.
    pub fn next_request(&self) -> (request: PollRequest)
        ensures
            request == request_for(self@),
    {
        match self.phase {
            Phase::Starting => PollRequest {
                offset: None,
                limit: Some(BASELINE_LIMIT),
                timeout_secs: None,
            },
            Phase::Polling => PollRequest {
                offset: Some(self.session.offset()),
                limit: None,
                timeout_secs: Some(POLL_TIMEOUT_SECS),
            },
        }
    }

    /// Takes the outcome of the request made last and returns what the
    /// driver is to do, in order, before it makes the next one.
    pub fn on_outcome(&mut self, outcome: &PollOutcome) -> (effects: Vec<Effect>)
        ensures
            (final(self)@, effects.deep_view()) == poll_step(old(self)@, outcome@),
            final(self)@.session.wf(),
    {
        let mut effects: Vec<Effect> = Vec::new();
        proof {
            use_type_invariant(&self.session);
        }
        match self.phase {
            Phase::Starting => {
                match outcome {
                    PollOutcome::Updates(updates) => {
                        let batch: &[IncomingUpdate] = updates.as_slice();
                        proof {
                            assert(batch.deep_view() =~= updates.deep_view());
                        }
                        skip_all(&mut self.session, batch);
                    },
                    PollOutcome::Failed => {},
                }
                self.phase = Phase::Polling;
                proof {
                    assert(effects.deep_view() =~= Seq::<EffectView>::empty());
                }
            },
            Phase::Polling => {
                match outcome {
                    PollOutcome::Updates(updates) => {
                        let batch: &[IncomingUpdate] = updates.as_slice();
                        proof {
                            assert(batch.deep_view() =~= updates.deep_view());
                        }
                        effects = handle_batch(&mut self.session, batch);
                        let ghost handled = effects.deep_view();
                        effects.push(Effect::Wait(Pause::Courtesy));
                        proof {
                            assert(effects.deep_view() =~= handled + seq![
                                EffectView::Wait(Pause::Courtesy),
                            ]);
                        }
                    },
                    PollOutcome::Failed => {
                        effects.push(Effect::Wait(Pause::Backoff));
                        proof {
                            assert(effects.deep_view() =~= seq![EffectView::Wait(Pause::Backoff)]);
                        }
                    },
                }
            },
        }
        effects
    }
}

/// Moves the offset of `session` past every one of `updates`.
fn skip_all(session: &mut Session, updates: &[IncomingUpdate])
    ensures
        final(session)@ == skipped(old(session)@, updates.deep_view()),
        final(session)@.wf(),
{
    let ghost all = updates.deep_view();
    proof {
        use_type_invariant(&*session);
    }
    let mut i: usize = 0;
    while i < updates.len()
        invariant
            i <= updates.len(),
            all == updates.deep_view(),
            session@.wf(),
            session@ == skipped(old(session)@, all.take(i as int)),
        decreases updates.len() - i,
    {
        session.advance_past(updates[i].id);
        proof {
            let upto = all.take(i + 1);
            assert(upto.drop_last() =~= all.take(i as int));
            assert(upto.last() == updates[i as int]@);
        }
        i += 1;
    }
    proof {
        assert(all.take(i as int) =~= all);
    }
}

} // verus!
