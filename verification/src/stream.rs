//! One generation run: what the backend reports, step by step, and what the
//! listener is owed for it.

use crate::errors::{StreamError, StreamErrorView};
use crate::events::{EventView, TokenEvent};
use vstd::pervasive::unreached;
use vstd::prelude::*;

verus! {

/// What the backend reports at one step of a generation.
#[derive(Debug, PartialEq, Eq)]
pub enum Signal {
    /// The backend produced one fragment of text.
    Produced(String),
    /// The backend ended the generation of its own accord.
    Finished,
    /// The backend failed; the text is its diagnostic.
    Failed(String),
}

/// What a [`Signal`] is, with its text as a sequence of characters.
pub enum SignalView {
    Produced(Seq<char>),
    Finished,
    Failed(Seq<char>),
}

impl View for Signal {
    type V = SignalView;

    open spec fn view(&self) -> SignalView {
        match self {
            Signal::Produced(text) => SignalView::Produced(text@),
            Signal::Finished => SignalView::Finished,
            Signal::Failed(message) => SignalView::Failed(message@),
        }
    }
}

/// How the backend ended a generation, with the diagnostic's text as a
/// sequence of characters.
pub open spec fn ending_view(ended: Result<(), String>) -> Result<(), Seq<char>> {
    match ended {
        Ok(_) => Ok(()),
        Err(message) => Err(message@),
    }
}

/// The signal that closes a generation: `Finished` where the backend ended
/// it of its own accord, `Failed` with the diagnostic where it failed.
pub open spec fn closing_signal(ended: Result<(), Seq<char>>) -> SignalView {
    match ended {
        Ok(_) => SignalView::Finished,
        Err(message) => SignalView::Failed(message),
    }
}

impl Signal {
    /// The signal that closes a generation which ended as `ended` says.
    pub fn closing(ended: Result<(), String>) -> (signal: Signal)
        ensures
            signal@ == closing_signal(ending_view(ended)),
    {
        match ended {
            Ok(_) => Signal::Finished,
            Err(message) => Signal::Failed(message),
        }
    }
}

/// Where a run stands. `Completed` and `Failed` are final: a run never
/// leaves them, and a new prompt needs a new run.
#[derive(Clone, Copy, Debug, PartialEq, Eq, Structural)]
pub enum RunPhase {
    /// Created, and waiting for access to the model and its session.
    Idle,
    /// Generating: every fragment that the backend produces is owed to the
    /// listener.
    Running,
    /// The backend ended the generation, and the sentinel went out.
    Completed,
    /// The backend failed on the way.
    Failed,
}

/// A run as the contracts see it: its phase, why it failed if it did, and
/// every event that it has handed out for delivery, oldest first.
pub struct RunView {
    pub phase: RunPhase,
    pub failure: Option<Seq<char>>,
    pub delivered: Seq<EventView>,
}

/// Whether every event of a sequence is a fragment of text.
pub open spec fn all_tokens(events: Seq<EventView>) -> bool {
    forall|i: int| 0 <= i < events.len() ==> events[i] is Token
}

/// An event as it is handed out, or none, with its text as a sequence of
/// characters.
pub open spec fn output_view(output: Option<TokenEvent>) -> Option<EventView> {
    match output {
        Some(event) => Some(event@),
        None => None,
    }
}

/// How a run ended, with the error's text as a sequence of characters.
pub open spec fn result_view(result: Result<(), StreamError>) -> Result<(), StreamErrorView> {
    match result {
        Ok(_) => Ok(()),
        Err(error) => Err(error@),
    }
}

/// How a run stands, or ended, with the error's text as a sequence of
/// characters.
pub open spec fn outcome_view(outcome: Option<Result<(), StreamError>>) -> Option<
    Result<(), StreamErrorView>,
> {
    match outcome {
        Some(result) => Some(result_view(result)),
        None => None,
    }
}

impl RunView {
    /// A run that has not started.
    pub open spec fn idle() -> RunView {
        RunView { phase: RunPhase::Idle, failure: None, delivered: Seq::empty() }
    }

    /// Whether the run has ended, one way or the other.
    pub open spec fn is_final(self) -> bool {
        self.phase is Completed || self.phase is Failed
    }

    /// What holds of a run in each phase:
    /// before it starts nothing was delivered;
    /// while it generates, and after a failure, only fragments were;
    /// after completion the fragments are followed by the sentinel, once.
    /// The backend's diagnostic is kept exactly when the run failed.
    pub open spec fn wf(self) -> bool {
        match self.phase {
            RunPhase::Idle => self.delivered.len() == 0 && self.failure is None,
            RunPhase::Running => all_tokens(self.delivered) && self.failure is None,
            RunPhase::Completed => {
                &&& self.failure is None
                &&& self.delivered.len() >= 1
                &&& self.delivered.last() is End
                &&& all_tokens(self.delivered.drop_last())
            },
            RunPhase::Failed => self.failure is Some && all_tokens(self.delivered),
        }
    }

    /// The run after it got access to a model and its session: an idle run
    /// starts generating, any other stays as it is.
    pub open spec fn start(self) -> RunView {
        if self.phase is Idle {
            RunView { phase: RunPhase::Running, ..self }
        } else {
            self
        }
    }

    /// The event that the listener is owed for a signal: the fragment or the
    /// sentinel while the run generates, nothing for a failure, and nothing at
    /// all outside the generating phase.
    pub open spec fn output(self, signal: SignalView) -> Option<EventView> {
        if self.phase is Running {
            match signal {
                SignalView::Produced(text) => Some(EventView::Token(text)),
                SignalView::Finished => Some(EventView::End),
                SignalView::Failed(_) => None,
            }
        } else {
            None
        }
    }

    /// The run after a signal: a generating run records what it owes and moves
    /// on, to `Completed` when the backend finished and to `Failed` when it
    /// failed; any other run stays as it is.
    pub open spec fn on_signal(self, signal: SignalView) -> RunView {
        if self.phase is Running {
            match signal {
                SignalView::Produced(text) => RunView {
                    delivered: self.delivered.push(EventView::Token(text)),
                    ..self
                },
                SignalView::Finished => RunView {
                    phase: RunPhase::Completed,
                    delivered: self.delivered.push(EventView::End),
                    ..self
                },
                SignalView::Failed(message) => RunView {
                    phase: RunPhase::Failed,
                    failure: Some(message),
                    ..self
                },
            }
        } else {
            self
        }
    }

    /// The run after a sequence of signals, taken in order.
    pub open spec fn after_signals(self, signals: Seq<SignalView>) -> RunView
        decreases signals.len(),
    {
        if signals.len() == 0 {
            self
        } else {
            self.after_signals(signals.drop_last()).on_signal(signals.last())
        }
    }

    /// The run once the backend has ended as `ended` says: started if it was
    /// still idle, then given the closing signal. A run that had ended before
    /// stays as it was.
    pub open spec fn close(self, ended: Result<(), Seq<char>>) -> RunView {
        self.start().on_signal(closing_signal(ended))
    }

    /// The event that closing the run owes the listener: the sentinel, if the
    /// run was still open and the backend ended of its own accord.
    pub open spec fn closing_output(self, ended: Result<(), Seq<char>>) -> Option<EventView> {
        self.start().output(closing_signal(ended))
    }

    /// How the run ended: nothing yet while it is idle or generating, success
    /// once completed, the failure once failed.
    pub open spec fn outcome(self) -> Option<Result<(), StreamErrorView>> {
        match self.phase {
            RunPhase::Idle | RunPhase::Running => None,
            RunPhase::Completed => Some(Ok(())),
            RunPhase::Failed => Some(Err(StreamErrorView::Backend(self.failure->0))),
        }
    }
}

/// The state of one generation run. It decides, signal by signal, which event
/// the listener is owed, and remembers all that it has handed out.
pub struct InferenceRun {
    phase: RunPhase,
    failure: Option<String>,
    delivered: Ghost<Seq<EventView>>,
}

impl View for InferenceRun {
    type V = RunView;

    closed spec fn view(&self) -> RunView {
        RunView {
            phase: self.phase,
            failure: match self.failure {
                Some(message) => Some(message@),
                None => None,
            },
            delivered: self.delivered@,
        }
    }
}

impl InferenceRun {
    #[verifier::type_invariant]
    spec fn inv(self) -> bool {
        self@.wf()
    }

    /// A run that has not started.
    pub fn new() -> (run: InferenceRun)
        ensures
            run@ == RunView::idle(),
    {
        InferenceRun { phase: RunPhase::Idle, failure: None, delivered: Ghost(Seq::empty()) }
    }

    /// Where the run stands.
    pub fn phase(&self) -> (phase: RunPhase)
        ensures
            phase == self@.phase,
            self@.wf(),
    {
        proof {
            use_type_invariant(self);
        }
        self.phase
    }

    /// Whether the run has ended, one way or the other.
    pub fn is_final(&self) -> (ended: bool)
        ensures
            ended == self@.is_final(),
            self@.wf(),
    {
        proof {
            use_type_invariant(self);
        }
        match self.phase {
            RunPhase::Completed | RunPhase::Failed => true,
            RunPhase::Idle | RunPhase::Running => false,
        }
    }

    /// Starts the run: the model and its session are at hand.
    pub fn start(&mut self)
        ensures
            final(self)@ == old(self)@.start(),
            final(self)@.wf(),
    {
        proof {
            use_type_invariant(&*self);
        }
        match self.phase {
            RunPhase::Idle => {
                self.phase = RunPhase::Running;
            },
            _ => {},
        }
    }

    /// Takes one signal from the backend and returns the event that the
    /// listener is owed for it, if any. The caller delivers it before it hands
    /// in the next signal.
    pub fn on_signal(&mut self, signal: Signal) -> (output: Option<TokenEvent>)
        ensures
            final(self)@ == old(self)@.on_signal(signal@),
            output_view(output) == old(self)@.output(signal@),
            final(self)@.wf(),
    {
        proof {
            use_type_invariant(&*self);
        }
        let ghost before = self.delivered@;
        match self.phase {
            RunPhase::Running => match signal {
                Signal::Produced(text) => {
                    proof {
                        assert(all_tokens(before.push(EventView::Token(text@))));
                    }
                    self.delivered = Ghost(before.push(EventView::Token(text@)));
                    Some(TokenEvent::Token(text))
                },
                Signal::Finished => {
                    proof {
                        assert(before.push(EventView::End).drop_last() =~= before);
                    }
                    *self = InferenceRun {
                        phase: RunPhase::Completed,
                        failure: None,
                        delivered: Ghost(before.push(EventView::End)),
                    };
                    Some(TokenEvent::End)
                },
                Signal::Failed(message) => {
                    *self = InferenceRun {
                        phase: RunPhase::Failed,
                        failure: Some(message),
                        delivered: Ghost(before),
                    };
                    None
                },
            },
            _ => None,
        }
    }

    /// Takes one signal from the backend and delivers the event that the
    /// listener is owed for it, if any, by one call of `deliver`.
    pub fn forward<K: Fn(TokenEvent)>(&mut self, signal: Signal, deliver: &K)
        requires
            forall|event: TokenEvent| call_requires(*deliver, (event,)),
        ensures
            final(self)@ == old(self)@.on_signal(signal@),
            final(self)@.wf(),
            old(self)@.output(signal@) is Some ==> exists|event: TokenEvent|
                event@ == old(self)@.output(signal@)->0 && #[trigger] call_ensures(
                    *deliver,
                    (event,),
                    (),
                ),
    {
        match self.on_signal(signal) {
            Some(event) => {
                deliver(event);
            },
            None => {},
        }
    }

    /// Closes the run once the backend has ended as `ended` says, delivers the
    /// sentinel if the run owes it, and tells how the run ended.
    pub fn close<K: Fn(TokenEvent)>(&mut self, ended: Result<(), String>, deliver: &K) -> (result:
        Result<(), StreamError>)
        requires
            forall|event: TokenEvent| call_requires(*deliver, (event,)),
        ensures
            final(self)@ == old(self)@.close(ending_view(ended)),
            final(self)@.wf(),
            final(self)@.is_final(),
            Some(result_view(result)) == final(self)@.outcome(),
            old(self)@.closing_output(ending_view(ended)) is Some ==> exists|event: TokenEvent|
                event@ == EventView::End && #[trigger] call_ensures(*deliver, (event,), ()),
    {
        self.start();
        self.forward(Signal::closing(ended), deliver);
        match self.outcome() {
            Some(result) => result,
            None => unreached(),
        }
    }

    /// How the run ended, once it has.
    pub fn outcome(&self) -> (outcome: Option<Result<(), StreamError>>)
        ensures
            outcome_view(outcome) == self@.outcome(),
            self@.wf(),
    {
        proof {
            use_type_invariant(self);
        }
        match self.phase {
            RunPhase::Idle | RunPhase::Running => None,
            RunPhase::Completed => Some(Ok(())),
            RunPhase::Failed => match &self.failure {
                Some(message) => Some(Err(StreamError::Backend(message.clone()))),
                None => None,
            },
        }
    }
}

/// No step breaks a run: started or given a signal, a run of which
/// [`RunView::wf`] holds is again one of which it holds.
pub proof fn law_steps_keep_run_well_formed(run: RunView, signal: SignalView)
    requires
        run.wf(),
    ensures
        run.start().wf(),
        run.on_signal(signal).wf(),
{
    if run.phase is Running {
        match signal {
            SignalView::Produced(text) => {
                assert(all_tokens(run.delivered.push(EventView::Token(text))));
            },
            SignalView::Finished => {
                assert(run.delivered.push(EventView::End).drop_last() =~= run.delivered);
            },
            SignalView::Failed(_) => {},
        }
    }
}

/// Whatever the backend reports, and in whatever order, a run that started
/// from idle is one of which [`RunView::wf`] holds.
pub proof fn law_every_run_is_well_formed(signals: Seq<SignalView>)
    ensures
        RunView::idle().start().after_signals(signals).wf(),
    decreases signals.len(),
{
    if signals.len() > 0 {
        law_every_run_is_well_formed(signals.drop_last());
        law_steps_keep_run_well_formed(
            RunView::idle().start().after_signals(signals.drop_last()),
            signals.last(),
        );
    }
}

/// A run hands its events out in the order of the signals: each step leaves
/// what was delivered before in place and adds, at the end, the one event
/// that the step owes, if it owes one.
pub proof fn law_events_keep_their_order(run: RunView, signal: SignalView)
    ensures
        run.output(signal) is Some ==> run.on_signal(signal).delivered == run.delivered.push(
            run.output(signal)->0,
        ),
        run.output(signal) is None ==> run.on_signal(signal).delivered == run.delivered,
{
}

/// A run that completed delivered zero or more fragments and then the
/// sentinel: the sentinel is its last event and its only one.
pub proof fn law_completed_run_ends_with_one_sentinel(run: RunView)
    requires
        run.wf(),
        run.phase is Completed,
    ensures
        run.outcome() == Some(Ok::<(), StreamErrorView>(())),
        run.delivered.len() >= 1,
        forall|i: int|
            0 <= i < run.delivered.len() ==> (run.delivered[i] is End <==> i == run.delivered.len()
                - 1),
        forall|i: int| 0 <= i < run.delivered.len() - 1 ==> run.delivered[i] is Token,
{
    assert forall|i: int| 0 <= i < run.delivered.len() - 1 implies run.delivered[i] is Token by {
        assert(run.delivered.drop_last()[i] == run.delivered[i]);
    }
}

/// A run that failed delivered zero or more fragments and no sentinel, and
/// ends with the backend's diagnostic.
pub proof fn law_failed_run_has_no_sentinel(run: RunView)
    requires
        run.wf(),
        run.phase is Failed,
    ensures
        run.failure is Some,
        run.outcome() == Some(
            Err::<(), StreamErrorView>(StreamErrorView::Backend(run.failure->0)),
        ),
        forall|i: int| 0 <= i < run.delivered.len() ==> run.delivered[i] is Token,
{
}

/// Closing ends every run. A run that was still open completes with the
/// sentinel as its last event if the backend ended of its own accord, and
/// fails with the backend's diagnostic, and without a sentinel, if it did
/// not. A run that had ended before is not changed by closing it again.
pub proof fn law_closing_ends_the_run(run: RunView, ended: Result<(), Seq<char>>)
    requires
        run.wf(),
    ensures
        run.close(ended).wf(),
        run.close(ended).is_final(),
        run.is_final() ==> run.close(ended) == run && run.closing_output(ended) is None,
        !run.is_final() && ended is Ok ==> ({
            &&& run.close(ended).outcome() == Some(Ok::<(), StreamErrorView>(()))
            &&& run.closing_output(ended) == Some(EventView::End)
            &&& run.close(ended).delivered == run.delivered.push(EventView::End)
        }),
        !run.is_final() && ended is Err ==> ({
            &&& run.close(ended).outcome() == Some(
                Err::<(), StreamErrorView>(StreamErrorView::Backend(ended->Err_0)),
            )
            &&& run.closing_output(ended) is None
            &&& run.close(ended).delivered == run.delivered
        }),
{
    law_steps_keep_run_well_formed(run, closing_signal(ended));
    law_steps_keep_run_well_formed(run.start(), closing_signal(ended));
}

/// A run that has ended stays as it is: no signal changes it, and none makes
/// it owe another event. Nothing follows the sentinel.
pub proof fn law_ended_run_is_silent(run: RunView, signal: SignalView)
    requires
        run.is_final(),
    ensures
        run.on_signal(signal) == run,
        run.output(signal) is None,
        run.start() == run,
{
}

} // verus!
