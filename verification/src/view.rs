//! The current-photo view state and its refetch control.
//!
//! The view shows one photo at a time. A fetch is started on mount and
//! again whenever the user skips or saves; each fetch carries a ticket for
//! the generation that started it, and a result is applied only if its
//! ticket still matches the view's generation — a result of an older,
//! overtaken fetch is discarded, never overwriting newer state.

use vstd::prelude::*;
use crate::errors::AppError;

verus! {

/// What the view currently shows: a loading placeholder, a loaded photo
/// URL, or the empty placeholder after a failed fetch.
pub enum PhotoViewState {
    Pending,
    Loaded(String),
    Failed,
}

/// The mathematical value of a `PhotoViewState`.
pub enum PhotoStateModel {
    Pending,
    Loaded(Seq<char>),
    Failed,
}

impl View for PhotoViewState {
    type V = PhotoStateModel;

    closed spec fn view(&self) -> PhotoStateModel {
        match self {
            PhotoViewState::Pending => PhotoStateModel::Pending,
            PhotoViewState::Loaded(u) => PhotoStateModel::Loaded(u@),
            PhotoViewState::Failed => PhotoStateModel::Failed,
        }
    }
}

/// The mathematical value of a `DogView`: what is shown, and the
/// generation of the newest fetch started.
pub struct ViewModel {
    pub state: PhotoStateModel,
    pub generation: int,
}

/// A ticket handed out when a fetch is started; its generation says which
/// restart the fetch belongs to.
pub struct FetchTicket {
    generation: u64,
}

impl View for FetchTicket {
    type V = int;

    closed spec fn view(&self) -> int {
        self.generation as int
    }
}

/// The view state of the photo component.
pub struct DogView {
    state: PhotoViewState,
    generation: u64,
}

impl View for DogView {
    type V = ViewModel;

    closed spec fn view(&self) -> ViewModel {
        ViewModel { state: self.state@, generation: self.generation as int }
    }
}

/// The model of a view on which a new fetch was just started: the state
/// returns to the loading placeholder and the generation advances, so that
/// every fetch still in flight for an earlier generation is stale.
pub open spec fn restarted(m: ViewModel) -> ViewModel {
    ViewModel { state: PhotoStateModel::Pending, generation: m.generation + 1 }
}

/// The state a fetch outcome resolves to: the URL on success, the failure
/// placeholder otherwise.
pub open spec fn outcome_state(outcome: Option<Seq<char>>) -> PhotoStateModel {
    match outcome {
        Some(u) => PhotoStateModel::Loaded(u),
        None => PhotoStateModel::Failed,
    }
}

/// The mathematical value of a fetch outcome: the URL, or nothing on any
/// failure.
pub open spec fn outcome_model(r: Result<String, AppError>) -> Option<Seq<char>> {
    match r {
        Ok(u) => Some(u@),
        Err(_) => None,
    }
}

/// The model of a view to which a fetch outcome was delivered under a
/// ticket: the outcome lands only if the ticket is for the newest fetch;
/// a stale ticket leaves the view untouched.
pub open spec fn applied(m: ViewModel, ticket: int, outcome: Option<Seq<char>>) -> ViewModel {
    if ticket == m.generation {
        ViewModel { state: outcome_state(outcome), generation: m.generation }
    } else {
        m
    }
}

/// What the image element renders for a state: the URL when one is loaded,
/// the empty placeholder otherwise.
pub open spec fn rendered_of(s: PhotoStateModel) -> Seq<char> {
    match s {
        PhotoStateModel::Loaded(u) => u,
        _ => Seq::<char>::empty(),
    }
}

/// The URL held by a loaded state.
pub open spec fn loaded_url(s: PhotoStateModel) -> Seq<char>
    recommends
        s is Loaded,
{
    rendered_of(s)
}

impl DogView {
    /// Mounts the view: the state is the loading placeholder and the first
    /// fetch, with generation zero, is already considered started — its
    /// ticket is returned for the caller to fetch with.
    pub fn mount() -> (r: (DogView, FetchTicket))
        ensures
            r.0@ == (ViewModel { state: PhotoStateModel::Pending, generation: 0 }),
            r.1@ == 0,
    {
        (
            DogView { state: PhotoViewState::Pending, generation: 0 },
            FetchTicket { generation: 0 },
        )
    }

    /// The generation of the newest fetch started.
    pub fn generation(&self) -> (g: u64)
        ensures
            g == self@.generation,
    {
        self.generation
    }

    /// What the view currently shows.
    pub fn current(&self) -> (s: &PhotoViewState)
        ensures
            s@ == self@.state,
    {
        &self.state
    }

    /// Discards any in-flight fetch by advancing the generation, returns
    /// the state to the loading placeholder, and hands out the ticket that
    /// the new fetch must present.
    pub fn restart(&mut self) -> (t: FetchTicket)
        requires
            old(self)@.generation < u64::MAX,
        ensures
            final(self)@ == restarted(old(self)@),
            t@ == final(self)@.generation,
    {
        self.generation = self.generation + 1;
        self.state = PhotoViewState::Pending;
        FetchTicket { generation: self.generation }
    }

    /// Delivers a fetch outcome under its ticket. A current ticket makes
    /// the outcome visible — the URL on success, the failure placeholder on
    /// any error; a stale ticket changes nothing, so an overtaken fetch can
    /// never overwrite newer state.
    pub fn apply_fetch(&mut self, ticket: &FetchTicket, outcome: Result<String, AppError>)
        ensures
            final(self)@ == applied(old(self)@, ticket@, outcome_model(outcome)),
    {
        if ticket.generation == self.generation {
            self.state = match outcome {
                Ok(url) => PhotoViewState::Loaded(url),
                Err(_) => PhotoViewState::Failed,
            };
        }
    }

    /// The source the image element renders: the loaded URL, or the empty
    /// placeholder while loading or after a failure.
    pub fn rendered_src(&self) -> (r: String)
        ensures
            r@ == rendered_of(self@.state),
    {
        match &self.state {
            PhotoViewState::Loaded(u) => u.clone(),
            _ => String::new(),
        }
    }

    /// Begins a save: captures the URL currently shown — before anything
    /// else happens — and only then starts the refetch, so the value handed
    /// to the store is the one the user saw, not whatever the new fetch
    /// may load.
    pub fn begin_save(&mut self) -> (r: (String, FetchTicket))
        requires
            old(self)@.state is Loaded,
            old(self)@.generation < u64::MAX,
        ensures
            r.0@ == loaded_url(old(self)@.state),
            final(self)@ == restarted(old(self)@),
            r.1@ == final(self)@.generation,
    {
        let captured = self.rendered_src();
        let ticket = self.restart();
        (captured, ticket)
    }
}

/// Fetch failure isolation: a failed fetch delivered under the current
/// ticket resolves the view to the failure placeholder — rendered as the
/// empty source — and touches nothing else; no failure escapes the view.
pub proof fn lemma_fetch_failure_isolation(m: ViewModel)
    ensures
        applied(m, m.generation, None).state is Failed,
        rendered_of(applied(m, m.generation, None).state) == Seq::<char>::empty(),
        applied(m, m.generation, None).generation == m.generation,
{
}

/// Save captures the pre-refetch value: the record a save appends to the
/// store is the URL that was shown when the save began — while the view,
/// restarted at the same moment, may already show whatever the concurrent
/// refetch resolves to.
pub proof fn lemma_save_captures_pre_refetch(
    m: ViewModel,
    outcome: Option<Seq<char>>,
    rs: Seq<Seq<char>>,
)
    requires
        m.state is Loaded,
    ensures
        ({
            let captured = loaded_url(m.state);
            let refetched = applied(restarted(m), restarted(m).generation, outcome);
            rs.push(captured).last() == loaded_url(m.state) && refetched.state == outcome_state(
                outcome,
            )
        }),
{
}

/// Stale-fetch discard: when a fetch A is started and then overtaken by a
/// fetch B started before A resolved, the view ends showing B's result,
/// whichever of the two outcomes is delivered first — A's result is
/// discarded, never B's.
pub proof fn lemma_stale_fetch_discard(
    m0: ViewModel,
    ra: Option<Seq<char>>,
    rb: Option<Seq<char>>,
)
    ensures
        ({
            let m1 = restarted(m0);
            let ta = m1.generation;
            let m2 = restarted(m1);
            let tb = m2.generation;
            applied(applied(m2, tb, rb), ta, ra).state == outcome_state(rb)
        }),
        ({
            let m1 = restarted(m0);
            let ta = m1.generation;
            let m2 = restarted(m1);
            let tb = m2.generation;
            applied(applied(m2, ta, ra), tb, rb).state == outcome_state(rb)
        }),
{
}

} // verus!
