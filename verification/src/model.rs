//! The application state and the reducer that advances it: one snapshot,
//! one event in, one new snapshot and at most one fetch to perform out.

use vstd::prelude::*;

use crate::episode::EpisodeRecord;
use crate::episode::FetchError;
use crate::episode::FetchOutcome;
use crate::selector::EpisodeReference;
use crate::selector::select_episode;
use crate::selector::valid_reference;
use crate::shows::Show;
use crate::shows::ShowSelection;
use crate::shows::any_eligible;
use crate::shows::spec_toggle;

verus! {

/// Where the current randomize cycle stands. At most one fetch is in
/// flight, and an outcome is held only once no fetch is pending.
pub enum FetchStatus {
    /// No randomize action has completed or is under way.
    Idle,
    /// A request is outstanding.
    Fetching,
    /// The last cycle ended with this outcome.
    Resolved(FetchOutcome),
}

/// One snapshot of the whole application state.
pub struct Model {
    /// Which shows the user has left eligible.
    pub selection: ShowSelection,
    /// The triple chosen by the most recent randomize action, if any.
    pub current: Option<EpisodeReference>,
    /// Where the current randomize cycle stands.
    pub status: FetchStatus,
}

/// One discrete occurrence the state reacts to.
pub enum Event {
    /// The user flipped one show's eligibility toggle.
    Toggle(Show),
    /// The user asked for a random episode.
    Randomize,
    /// The fetch for the named triple completed with this outcome. The
    /// triple is the request's token: a reply to a superseded request is
    /// discarded, so the newest request always wins.
    Response(EpisodeReference, FetchOutcome),
}

/// A snapshot is well formed when an outstanding fetch always has the
/// triple it was issued for.
pub open spec fn wf(m: Model) -> bool {
    m.status is Fetching ==> m.current is Some
}

impl Model {
    /// The state a fresh page session starts in: only SG-1 eligible,
    /// nothing chosen, nothing fetched.
    pub fn init() -> (r: Model)
        ensures
            r.selection == (ShowSelection { sg1: true, atlantis: false, universe: false }),
            r.current is None,
            r.status is Idle,
            wf(r),
    {
        Model { selection: ShowSelection::initial(), current: None, status: FetchStatus::Idle }
    }

    /// Advance the state by one event and say which fetch, if any, the
    /// caller must now perform. A toggle only flips the one flag; a
    /// randomize with an eligible show chooses a fresh triple and starts a
    /// cycle; a randomize with none resolves at once to the explicit
    /// failure; a response that answers the outstanding request ends the
    /// cycle with its outcome, and one to a superseded request is
    /// discarded.
    pub fn update(&mut self, event: Event, rng: &mut rand::rngs::ThreadRng) -> (fetch: Option<
        EpisodeReference,
    >)
        ensures
            match event {
                Event::Toggle(show) => {
                    &&& final(self).selection == spec_toggle(old(self).selection, show)
                    &&& final(self).current == old(self).current
                    &&& final(self).status == old(self).status
                    &&& fetch is None
                },
                Event::Randomize => {
                    &&& final(self).selection == old(self).selection
                    &&& if any_eligible(old(self).selection) {
                        fetch matches Some(ep) && valid_reference(old(self).selection, ep)
                            && final(self).current == Some(ep) && final(self).status is Fetching
                    } else {
                        fetch is None && final(self).current == old(self).current
                            && final(self).status == FetchStatus::Resolved(
                            FetchOutcome::Failure(FetchError::NoEligibleShow),
                        )
                    }
                },
                Event::Response(ep, outcome) => {
                    &&& final(self).selection == old(self).selection
                    &&& final(self).current == old(self).current
                    &&& fetch is None
                    &&& if old(self).status is Fetching && old(self).current == Some(ep) {
                        final(self).status == FetchStatus::Resolved(outcome)
                    } else {
                        final(self).status == old(self).status
                    }
                },
            },
            wf(*old(self)) ==> wf(*final(self)),
    {
        match event {
            Event::Toggle(show) => {
                self.selection.toggle(show);
                None
            },
            Event::Randomize => {
                match select_episode(&self.selection, rng) {
                    Ok(ep) => {
                        self.current = Some(ep);
                        self.status = FetchStatus::Fetching;
                        Some(ep)
                    },
                    Err(_) => {
                        self.status = FetchStatus::Resolved(
                            FetchOutcome::Failure(FetchError::NoEligibleShow),
                        );
                        None
                    },
                }
            },
            Event::Response(ep, outcome) => {
                let accept = match (&self.status, &self.current) {
                    (FetchStatus::Fetching, Some(cur)) => *cur == ep,
                    _ => false,
                };
                if accept {
                    self.status = FetchStatus::Resolved(outcome);
                }
                None
            },
        }
    }

    /// The episode record the state holds, if the last cycle succeeded.
    pub fn episode(&self) -> (r: Option<&EpisodeRecord>)
        ensures
            match self.status {
                FetchStatus::Resolved(FetchOutcome::Success(rec)) => r matches Some(e) && *e == rec,
                _ => r is None,
            },
    {
        match &self.status {
            FetchStatus::Resolved(FetchOutcome::Success(rec)) => Some(rec),
            _ => None,
        }
    }

    /// The error the state holds, if the last cycle failed.
    pub fn error(&self) -> (r: Option<&FetchError>)
        ensures
            match self.status {
                FetchStatus::Resolved(FetchOutcome::Failure(err)) => r matches Some(e) && *e == err,
                _ => r is None,
            },
    {
        match &self.status {
            FetchStatus::Resolved(FetchOutcome::Failure(err)) => Some(err),
            _ => None,
        }
    }

    /// Whether a fetch is outstanding.
    pub fn is_fetching(&self) -> (r: bool)
        ensures
            r == (self.status is Fetching),
    {
        match &self.status {
            FetchStatus::Fetching => true,
            _ => false,
        }
    }
}

} // verus!
