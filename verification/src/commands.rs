//! The commands that a client drives the store with: load a model, and run
//! a prompt through the model that is loaded.

use crate::errors::{LoadError, StreamError, StreamErrorView};
use crate::events::{tokens_as_events, views_of, EventView, TokenEvent};
use crate::family::{family_of_tag, ModelFamily};
use crate::store::{SessionStore, StoreView};
use crate::stream::{
    ending_view, result_view, InferenceRun, RunPhase, RunView, Signal, SignalView,
};
use vstd::pervasive::unreached;
use vstd::prelude::*;

verus! {

/// Loads the model file at `path` under the family that `family_tag` selects.
///
/// The tag is resolved to a family first; a tag that names none selects the
/// default family. `loader` is then called once, with the path as it was
/// given and with that family, and what it returns is handed back: the loaded
/// model, or the backend's diagnostic. No store is touched.
pub fn load<M, P, L>(path: P, family_tag: &str, loader: L) -> (loaded: Result<M, LoadError>) where
    L: FnOnce(P, ModelFamily) -> Result<M, LoadError>,

    requires
        call_requires(loader, (path, family_of_tag(family_tag@))),
    ensures
        call_ensures(loader, (path, family_of_tag(family_tag@)), loaded),
{
    let family = ModelFamily::from_tag(family_tag);
    loader(path, family)
}

/// Brings the outcome of a load to the store. A loaded model is installed
/// with a session newly started from it by `start_session`. After a failed
/// load `start_session` is not called, the store is left exactly as it was,
/// and the error is handed back for the caller to report.
pub fn install_loaded<M, S, F>(
    store: &mut SessionStore<M, S>,
    loaded: Result<M, LoadError>,
    start_session: F,
) -> (outcome: Result<(), LoadError>) where F: FnOnce(&M) -> S
    requires
        loaded is Ok ==> call_requires(start_session, (&loaded->Ok_0,)),
    ensures
        loaded is Ok ==> ({
            &&& outcome is Ok
            &&& final(store)@.is_ready()
            &&& final(store)@.model == Some(loaded->Ok_0)
            &&& call_ensures(start_session, (&loaded->Ok_0,), final(store)@.session->0)
            &&& final(store)@ == old(store)@.install(loaded->Ok_0, final(store)@.session->0)
        }),
        loaded is Err ==> ({
            &&& outcome is Err
            &&& outcome->Err_0 == loaded->Err_0
            &&& final(store)@ == old(store)@
        }),
{
    match loaded {
        Ok(model) => {
            store.install(model, start_session);
            Ok(())
        },
        Err(error) => Err(error),
    }
}

/// Loads the model file at `path` and installs it: [`load`], then
/// [`install_loaded`], with the store held from the first to the last.
pub fn load_model<M, S, P, L, F>(
    store: &mut SessionStore<M, S>,
    path: P,
    family_tag: &str,
    loader: L,
    start_session: F,
) -> (outcome: Result<(), LoadError>) where
    L: FnOnce(P, ModelFamily) -> Result<M, LoadError>,
    F: FnOnce(&M) -> S,

    requires
        call_requires(loader, (path, family_of_tag(family_tag@))),
        forall|model: M| #[trigger]
            call_ensures(loader, (path, family_of_tag(family_tag@)), Ok(model)) ==> call_requires(
                start_session,
                (&model,),
            ),
    ensures
        outcome is Ok ==> ({
            &&& final(store)@.is_ready()
            &&& call_ensures(
                loader,
                (path, family_of_tag(family_tag@)),
                Ok(final(store)@.model->0),
            )
            &&& call_ensures(
                start_session,
                (&final(store)@.model->0,),
                final(store)@.session->0,
            )
            &&& final(store)@ == old(store)@.install(
                final(store)@.model->0,
                final(store)@.session->0,
            )
        }),
        outcome is Err ==> ({
            &&& final(store)@ == old(store)@
            &&& call_ensures(
                loader,
                (path, family_of_tag(family_tag@)),
                Err::<M, LoadError>(outcome->Err_0),
            )
        }),
{
    let loaded = load(path, family_tag, loader);
    install_loaded(store, loaded, start_session)
}

/// Runs `prompt` through the installed model and streams the events to
/// `deliver` while the backend generates.
///
/// With nothing installed the run fails as not ready: neither `drive` nor
/// `deliver` is called and the store stays as it was. Otherwise `drive` is
/// called once, with the store held exclusively until it returns, on the
/// installed model, its session, the prompt, a run that has just started and
/// `deliver`. It hands each fragment that the backend produces to the run,
/// which forwards it (see [`InferenceRun::forward`]), and returns how the
/// backend ended. The run is then closed (see [`InferenceRun::close`]): after
/// a generation that the backend ended of its own accord the sentinel is
/// delivered and the run succeeds; after one that failed nothing more is
/// delivered and the run fails with the backend's diagnostic.
pub fn run_inference<M, S, D, K>(
    store: &mut SessionStore<M, S>,
    prompt: &str,
    drive: D,
    deliver: &K,
) -> (result: Result<(), StreamError>) where
    D: FnOnce(&M, &mut S, &str, &mut InferenceRun, &K) -> Result<(), String>,
    K: Fn(TokenEvent),

    requires
        forall|event: TokenEvent| call_requires(*deliver, (event,)),
        old(store)@.is_ready() ==> forall|session: &mut S, run: &mut InferenceRun|
            *session == old(store)@.session->0 && (*run)@ == RunView::idle().start()
                ==> call_requires(drive, (&old(store)@.model->0, session, prompt, run, deliver)),
    ensures
        !old(store)@.is_ready() ==> ({
            &&& final(store)@ == old(store)@
            &&& result_view(result) == Err::<(), StreamErrorView>(StreamErrorView::NotReady)
        }),
        old(store)@.is_ready() ==> ({
            &&& final(store)@.is_ready()
            &&& final(store)@.model == old(store)@.model
            &&& exists|session: &mut S, run: &mut InferenceRun, ended: Result<(), String>|
                ({
                    &&& *session == old(store)@.session->0
                    &&& *final(session) == final(store)@.session->0
                    &&& (*run)@ == RunView::idle().start()
                    &&& #[trigger] call_ensures(
                        drive,
                        (&old(store)@.model->0, session, prompt, run, deliver),
                        ended,
                    )
                    &&& (*final(run))@.close(ending_view(ended)).wf()
                    &&& Some(result_view(result)) == (*final(run))@.close(
                        ending_view(ended),
                    ).outcome()
                    &&& (*final(run))@.closing_output(ending_view(ended)) is Some
                        ==> exists|event: TokenEvent|
                        event@ == EventView::End && call_ensures(*deliver, (event,), ())
                })
        }),
{
    let drive_on_pair = |model: &M, session: &mut S| -> (driven: (InferenceRun, Result<(), String>))
        requires
            forall|borrowed: &mut S, run: &mut InferenceRun|
                *borrowed == *session && (*run)@ == RunView::idle().start() ==> call_requires(
                    drive,
                    (model, borrowed, prompt, run, deliver),
                ),
        ensures
            exists|borrowed: &mut S, run: &mut InferenceRun|
                ({
                    &&& *borrowed == *old(session)
                    &&& *final(borrowed) == *final(session)
                    &&& (*run)@ == RunView::idle().start()
                    &&& *final(run) == driven.0
                    &&& #[trigger] call_ensures(
                        drive,
                        (model, borrowed, prompt, run, deliver),
                        driven.1,
                    )
                }),
    {
        let mut run = InferenceRun::new();
        run.start();
        let ended = drive(model, session, prompt, &mut run, deliver);
        let driven = (run, ended);
        assert(driven.0 == run && driven.1 == ended);
        driven
    };
    match store.with_active(drive_on_pair) {
        Ok(driven) => {
            let (mut run, ended) = driven;
            run.close(ended, deliver)
        },
        Err(error) => Err(StreamError::from_not_ready(error)),
    }
}

/// A whole generation as the backend produced it: the fragments in the order
/// of their production, and the diagnostic if the backend failed after them.
#[derive(Debug, PartialEq, Eq)]
pub struct Generation {
    /// The fragments, first produced first.
    pub tokens: Vec<String>,
    /// Why the backend stopped, if it did not end the generation of its own
    /// accord.
    pub failure: Option<String>,
}

/// What a [`Generation`] is, with its texts as sequences of characters.
pub struct GenerationView {
    pub tokens: Seq<Seq<char>>,
    pub failure: Option<Seq<char>>,
}

impl View for Generation {
    type V = GenerationView;

    open spec fn view(&self) -> GenerationView {
        GenerationView {
            tokens: self.tokens@.map_values(|text: String| text@),
            failure: match self.failure {
                Some(message) => Some(message@),
                None => None,
            },
        }
    }
}

/// What the listener is owed for a generation: every fragment as a `Token`
/// event, in the order of production, and after them the sentinel if and only
/// if the backend did not fail.
pub open spec fn events_of(generation: GenerationView) -> Seq<EventView> {
    if generation.failure is None {
        tokens_as_events(generation.tokens).push(EventView::End)
    } else {
        tokens_as_events(generation.tokens)
    }
}

/// How a run over a generation ends: well if the backend ended it of its own
/// accord, with the backend's diagnostic if it failed.
pub open spec fn result_of(generation: GenerationView) -> Result<(), StreamErrorView> {
    match generation.failure {
        None => Ok(()),
        Some(message) => Err(StreamErrorView::Backend(message)),
    }
}

/// What one run delivered and how it ended.
#[derive(Debug, PartialEq, Eq)]
pub struct RunReport {
    /// The events owed to the listener, in the order of their delivery.
    pub events: Vec<TokenEvent>,
    /// How the run ended.
    pub result: Result<(), StreamError>,
}

/// Runs `prompt` through the installed model for a caller that wants the
/// whole answer at once: the events that the listener is owed come back in
/// the order of their delivery, together with the way the run ended.
///
/// With nothing installed the run fails as not ready: `generate` is not
/// called, no event is owed and the store stays as it was. Otherwise
/// `generate` is called once, on the installed model, its session and the
/// prompt, with the store held exclusively until it returns; the model stays,
/// and the session stays as `generate` left it.
pub fn run_buffered<M, S, G>(store: &mut SessionStore<M, S>, prompt: &str, generate: G) -> (report:
    RunReport) where G: FnOnce(&M, &mut S, &str) -> Generation
    requires
        old(store)@.is_ready() ==> forall|session: &mut S|
            *session == old(store)@.session->0 ==> call_requires(
                generate,
                (&old(store)@.model->0, session, prompt),
            ),
    ensures
        !old(store)@.is_ready() ==> ({
            &&& final(store)@ == old(store)@
            &&& report.events@.len() == 0
            &&& result_view(report.result) == Err::<(), StreamErrorView>(StreamErrorView::NotReady)
        }),
        old(store)@.is_ready() ==> ({
            &&& final(store)@.is_ready()
            &&& final(store)@.model == old(store)@.model
            &&& exists|session: &mut S, generation: Generation|
                ({
                    &&& *session == old(store)@.session->0
                    &&& *final(session) == final(store)@.session->0
                    &&& #[trigger] call_ensures(
                        generate,
                        (&old(store)@.model->0, session, prompt),
                        generation,
                    )
                    &&& views_of(report.events@) == events_of(generation@)
                    &&& result_view(report.result) == result_of(generation@)
                })
        }),
{
    let generate_on_pair = |model: &M, session: &mut S| -> (generation: Generation)
        requires
            forall|borrowed: &mut S|
                *borrowed == *session ==> call_requires(generate, (model, borrowed, prompt)),
        ensures
            exists|borrowed: &mut S|
                ({
                    &&& *borrowed == *old(session)
                    &&& *final(borrowed) == *final(session)
                    &&& #[trigger] call_ensures(generate, (model, borrowed, prompt), generation)
                }),
    {
        generate(model, session, prompt)
    };
    let access = store.with_active(generate_on_pair);
    match access {
        Ok(generation) => {
            let mut run = InferenceRun::new();
            run.start();
            let events = replay(&mut run, &generation);
            let result = match run.outcome() {
                Some(result) => result,
                None => unreached(),
            };
            RunReport { events, result }
        },
        Err(error) => RunReport {
            events: Vec::new(),
            result: Err(StreamError::from_not_ready(error)),
        },
    }
}

/// Feeds a whole generation to a run that has just started, fragment by
/// fragment and then the way it ended, and collects the events that the run
/// hands out.
fn replay(run: &mut InferenceRun, generation: &Generation) -> (events: Vec<TokenEvent>)
    requires
        old(run)@ == RunView::idle().start(),
    ensures
        views_of(events@) == events_of(generation@),
        final(run)@.delivered == events_of(generation@),
        final(run)@.outcome() == Some(result_of(generation@)),
        final(run)@.wf(),
{
    let mut events: Vec<TokenEvent> = Vec::new();
    let mut i: usize = 0;
    assert(views_of(events@) =~= tokens_as_events(generation@.tokens.take(0)));
    assert(run@.delivered =~= tokens_as_events(generation@.tokens.take(0)));
    while i < generation.tokens.len()
        invariant
            i <= generation.tokens.len(),
            run@.phase == RunPhase::Running,
            run@.failure is None,
            run@.delivered == tokens_as_events(generation@.tokens.take(i as int)),
            views_of(events@) == tokens_as_events(generation@.tokens.take(i as int)),
        decreases generation.tokens.len() - i,
    {
        let text = generation.tokens[i].clone();
        let output = run.on_signal(Signal::Produced(text));
        match output {
            Some(event) => {
                events.push(event);
            },
            None => {},
        }
        proof {
            let done = generation@.tokens.take(i as int);
            let next = generation@.tokens.take(i + 1);
            assert(next =~= done.push(generation@.tokens[i as int]));
            assert(tokens_as_events(next) =~= tokens_as_events(done).push(
                EventView::Token(generation@.tokens[i as int]),
            ));
            assert(views_of(events@) =~= tokens_as_events(next));
        }
        i += 1;
    }
    assert(generation@.tokens.take(i as int) =~= generation@.tokens);
    let closing = match &generation.failure {
        Some(message) => Signal::Failed(message.clone()),
        None => Signal::Finished,
    };
    let output = run.on_signal(closing);
    match output {
        Some(event) => {
            events.push(event);
        },
        None => {},
    }
    assert(views_of(events@) =~= events_of(generation@));
    events
}

/// The signals of a generation, one by one: each fragment as it was produced,
/// and last the way the generation ended.
pub open spec fn signals_of(generation: GenerationView) -> Seq<SignalView> {
    generation.tokens.map_values(|text: Seq<char>| SignalView::Produced(text)).push(
        match generation.failure {
            None => SignalView::Finished,
            Some(message) => SignalView::Failed(message),
        },
    )
}

/// While only fragments arrive, a run that just started keeps generating and
/// has delivered exactly those fragments, in their order.
proof fn lemma_fragments_are_delivered(texts: Seq<Seq<char>>)
    ensures
        RunView::idle().start().after_signals(
            texts.map_values(|text: Seq<char>| SignalView::Produced(text)),
        ) == (RunView {
            phase: RunPhase::Running,
            failure: None,
            delivered: tokens_as_events(texts),
        }),
    decreases texts.len(),
{
    let signals = texts.map_values(|text: Seq<char>| SignalView::Produced(text));
    if texts.len() == 0 {
        assert(tokens_as_events(texts) =~= Seq::<EventView>::empty());
    } else {
        lemma_fragments_are_delivered(texts.drop_last());
        assert(signals.drop_last() =~= texts.drop_last().map_values(
            |text: Seq<char>| SignalView::Produced(text),
        ));
        assert(tokens_as_events(texts) =~= tokens_as_events(texts.drop_last()).push(
            EventView::Token(texts.last()),
        ));
    }
}

/// A run that is fed a generation signal by signal delivers what
/// [`events_of`] says and ends as [`result_of`] says: the events of a run are
/// the same whether they are forwarded one by one or collected.
pub proof fn law_signals_give_the_events(generation: GenerationView)
    ensures
        RunView::idle().start().after_signals(signals_of(generation)).delivered == events_of(
            generation,
        ),
        RunView::idle().start().after_signals(signals_of(generation)).outcome() == Some(
            result_of(generation),
        ),
{
    let fragments = generation.tokens.map_values(|text: Seq<char>| SignalView::Produced(text));
    lemma_fragments_are_delivered(generation.tokens);
    assert(signals_of(generation).drop_last() =~= fragments);
}

/// The events of a generation are its fragments, in the order of production
/// and each once, followed by the sentinel exactly when the backend did not
/// fail.
pub proof fn law_events_follow_the_generation(generation: GenerationView)
    ensures
        forall|i: int|
            0 <= i < generation.tokens.len() ==> events_of(generation)[i] == EventView::Token(
                generation.tokens[i],
            ),
        generation.failure is None ==> ({
            &&& events_of(generation).len() == generation.tokens.len() + 1
            &&& events_of(generation).last() == EventView::End
            &&& result_of(generation) is Ok
        }),
        generation.failure is Some ==> ({
            &&& events_of(generation).len() == generation.tokens.len()
            &&& result_of(generation) is Err
        }),
{
}

/// Once a model is installed a run finds it: the store is ready and holds the
/// model with the session that was started from it. If the backend then ends
/// the generation of its own accord, the run succeeds and the sentinel is the
/// last event that it delivers; this holds whether the events are streamed, as
/// a run that is closed, or collected, as the events of a generation.
pub proof fn law_run_after_install_ends_with_sentinel<M, S>(
    before: StoreView<M, S>,
    model: M,
    session: S,
    driven: RunView,
    generation: GenerationView,
)
    requires
        driven.wf(),
        !driven.is_final(),
        generation.failure is None,
    ensures
        before.install(model, session).is_ready(),
        before.install(model, session).model == Some(model),
        before.install(model, session).session == Some(session),
        driven.close(Ok(())).outcome() == Some(Ok::<(), StreamErrorView>(())),
        driven.closing_output(Ok(())) == Some(EventView::End),
        driven.close(Ok(())).delivered.last() == EventView::End,
        result_of(generation) == Ok::<(), StreamErrorView>(()),
        events_of(generation).len() >= 1,
        events_of(generation).last() == EventView::End,
{
}

} // verus!
