//! The store that owns the loaded model and the session bound to it.

use crate::errors::NotReadyError;
use vstd::prelude::*;

verus! {

/// Holds at most one loaded model together with the one session that was
/// started from it. `M` is the loaded model and `S` the session, as the
/// backend hands them out; the store never looks inside either.
///
/// Every operation that changes the store takes `&mut self`: whoever holds the
/// store exclusively is the only one who can install a model or use the pair,
/// for as long as the call lasts. Callers that share one store keep it behind
/// a lock and hold the lock for the whole of each call.
pub struct SessionStore<M, S> {
    active: Option<(M, S)>,
}

/// What a store holds: the current model, and the current session.
pub struct StoreView<M, S> {
    pub model: Option<M>,
    pub session: Option<S>,
}

impl<M, S> StoreView<M, S> {
    /// The store that holds nothing.
    pub open spec fn empty() -> Self {
        StoreView { model: None, session: None }
    }

    /// A session is present exactly when a model is: the two come and go as
    /// one pair.
    pub open spec fn wf(self) -> bool {
        self.session is Some <==> self.model is Some
    }

    /// Whether a model and its session are installed.
    pub open spec fn is_ready(self) -> bool {
        self.model is Some && self.session is Some
    }

    /// The store after `model` was installed with `session`, the session
    /// started from it. Whatever was held before is gone.
    pub open spec fn install(self, model: M, session: S) -> Self {
        StoreView { model: Some(model), session: Some(session) }
    }
}

impl<M, S> View for SessionStore<M, S> {
    type V = StoreView<M, S>;

    closed spec fn view(&self) -> StoreView<M, S> {
        match self.active {
            Some(pair) => StoreView { model: Some(pair.0), session: Some(pair.1) },
            None => StoreView { model: None, session: None },
        }
    }
}

impl<M, S> SessionStore<M, S> {
    /// A store with nothing installed.
    pub fn new() -> (store: Self)
        ensures
            store@ == StoreView::<M, S>::empty(),
    {
        SessionStore { active: None }
    }

    /// Whether a model and its session are installed.
    pub fn is_ready(&self) -> (ready: bool)
        ensures
            ready == self@.is_ready(),
            self@.wf(),
    {
        self.active.is_some()
    }

    /// Installs `model` together with a session newly started from it, in
    /// place of whatever pair was held. The store goes from the old pair to
    /// the new one in a single assignment: it never holds the new model beside
    /// the old session, nor the old model beside the new session.
    pub fn install<F: FnOnce(&M) -> S>(&mut self, model: M, start_session: F)
        requires
            call_requires(start_session, (&model,)),
        ensures
            final(self)@.is_ready(),
            final(self)@.model == Some(model),
            call_ensures(start_session, (&model,), final(self)@.session->0),
            final(self)@ == old(self)@.install(model, final(self)@.session->0),
    {
        let session = start_session(&model);
        self.active = Some((model, session));
    }

    /// Calls `f` on the current model and session, which it may advance, and
    /// returns what `f` returned. With nothing installed `f` is not called and
    /// the store stays as it was.
    pub fn with_active<R, F: FnOnce(&M, &mut S) -> R>(&mut self, f: F) -> (outcome: Result<
        R,
        NotReadyError,
    >)
        requires
            old(self)@.is_ready() ==> forall|session: &mut S|
                *session == old(self)@.session->0 ==> call_requires(
                    f,
                    (&old(self)@.model->0, session),
                ),
        ensures
            outcome is Ok <==> old(self)@.is_ready(),
            outcome is Err ==> final(self)@ == old(self)@,
            outcome is Ok ==> final(self)@.is_ready() && final(self)@.model == old(self)@.model,
            outcome is Ok ==> exists|session: &mut S|
                ({
                    &&& *session == old(self)@.session->0
                    &&& *final(session) == final(self)@.session->0
                    &&& call_ensures(f, (&old(self)@.model->0, session), outcome->Ok_0)
                }),
    {
        match &mut self.active {
            Some(pair) => {
                let result = f(&pair.0, &mut pair.1);
                Ok(result)
            },
            None => Err(NotReadyError),
        }
    }
}

/// In every store a session is present exactly when a model is.
pub proof fn law_pair_is_whole<M, S>(store: SessionStore<M, S>)
    ensures
        store@.wf(),
        store@.session is Some ==> store@.model is Some,
{
}

/// A store with nothing installed holds neither a model nor a session, and
/// is not ready for a run.
pub proof fn law_empty_store_is_not_ready<M, S>()
    ensures
        !StoreView::<M, S>::empty().is_ready(),
        StoreView::<M, S>::empty().wf(),
{
}

/// After two installations in a row the store holds the second model and the
/// second session and nothing else: it is the store that the second
/// installation alone would have left, whatever was held before.
pub proof fn law_second_install_wins<M, S>(
    before: StoreView<M, S>,
    first_model: M,
    first_session: S,
    second_model: M,
    second_session: S,
)
    ensures
        before.install(first_model, first_session).install(second_model, second_session)
            == StoreView::<M, S>::empty().install(second_model, second_session),
        before.install(first_model, first_session).install(second_model, second_session).model
            == Some(second_model),
        before.install(first_model, first_session).install(second_model, second_session).session
            == Some(second_session),
        before.install(first_model, first_session).install(second_model, second_session).is_ready(),
{
}

} // verus!
