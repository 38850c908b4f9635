//! The fixed set of shows, the per-show season/episode table, and the
//! user's eligibility toggles.

use vstd::prelude::*;

verus! {

/// One of the three shows an episode can be drawn from.
#[derive(Copy, Clone, Debug, PartialEq, Eq, Structural)]
pub enum Show {
    Sg1,
    Atlantis,
    Universe,
}

/// Which shows the user has marked eligible for random selection.
#[derive(Copy, Clone, Debug, PartialEq, Eq, Structural)]
pub struct ShowSelection {
    pub sg1: bool,
    pub atlantis: bool,
    pub universe: bool,
}

/// Whether `show` is eligible under `sel`.
pub open spec fn eligible(sel: ShowSelection, show: Show) -> bool {
    match show {
        Show::Sg1 => sel.sg1,
        Show::Atlantis => sel.atlantis,
        Show::Universe => sel.universe,
    }
}

/// Whether at least one show is eligible under `sel`.
pub open spec fn any_eligible(sel: ShowSelection) -> bool {
    sel.sg1 || sel.atlantis || sel.universe
}

/// The selection with `show`'s flag flipped and the others unchanged.
pub open spec fn spec_toggle(sel: ShowSelection, show: Show) -> ShowSelection {
    match show {
        Show::Sg1 => ShowSelection { sg1: !sel.sg1, ..sel },
        Show::Atlantis => ShowSelection { atlantis: !sel.atlantis, ..sel },
        Show::Universe => ShowSelection { universe: !sel.universe, ..sel },
    }
}

impl ShowSelection {
    /// The starting selection: only SG-1 is eligible.
    pub fn initial() -> (r: ShowSelection)
        ensures
            r == (ShowSelection { sg1: true, atlantis: false, universe: false }),
    {
        ShowSelection { sg1: true, atlantis: false, universe: false }
    }

    /// Flip the eligibility flag of one show, leaving the others alone.
    pub fn toggle(&mut self, show: Show)
        ensures
            *final(self) == spec_toggle(*old(self), show),
    {
        match show {
            Show::Sg1 => self.sg1 = !self.sg1,
            Show::Atlantis => self.atlantis = !self.atlantis,
            Show::Universe => self.universe = !self.universe,
        }
    }

    /// Whether `show` is currently eligible.
    pub fn is_eligible(&self, show: Show) -> (r: bool)
        ensures
            r == eligible(*self, show),
    {
        match show {
            Show::Sg1 => self.sg1,
            Show::Atlantis => self.atlantis,
            Show::Universe => self.universe,
        }
    }
}

/// Toggling the same show twice returns a selection to its original state.
pub proof fn lemma_toggle_twice(sel: ShowSelection, show: Show)
    ensures
        spec_toggle(spec_toggle(sel, show), show) == sel,
{
}

/// How many seasons each show has.
pub open spec fn spec_max_season(show: Show) -> u32 {
    match show {
        Show::Sg1 => 10,
        Show::Atlantis => 5,
        Show::Universe => 2,
    }
}

/// The last episode number of a season, per the fixed per-show table:
/// SG-1's first season has 20 episodes, its seasons 2 through 7 have 21,
/// and its seasons 8 through 10 have 19; Atlantis's first season has 18
/// episodes and its later seasons 19; every Universe season has 19.
pub open spec fn spec_max_episode(show: Show, season: u32) -> u32 {
    match show {
        Show::Sg1 => if season == 1 {
            20
        } else if season <= 7 {
            21
        } else {
            19
        },
        Show::Atlantis => if season == 1 {
            18
        } else {
            19
        },
        Show::Universe => 19,
    }
}

/// The identifier under which the metadata catalog lists a show.
pub open spec fn spec_catalog_id(show: Show) -> u32 {
    match show {
        Show::Sg1 => 4629,
        Show::Atlantis => 2290,
        Show::Universe => 5148,
    }
}

/// The display name of a show.
pub open spec fn spec_label(show: Show) -> Seq<char> {
    match show {
        Show::Sg1 => "SG-1"@,
        Show::Atlantis => "Atlantis"@,
        Show::Universe => "Universe"@,
    }
}

/// How many seasons `show` has.
pub fn max_season(show: Show) -> (r: u32)
    ensures
        r == spec_max_season(show),
{
    match show {
        Show::Sg1 => 10,
        Show::Atlantis => 5,
        Show::Universe => 2,
    }
}

/// The last episode number of `season` of `show`, from the fixed table.
pub fn max_episode(show: Show, season: u32) -> (r: u32)
    ensures
        r == spec_max_episode(show, season),
{
    match show {
        Show::Sg1 => if season == 1 {
            20
        } else if season <= 7 {
            21
        } else {
            19
        },
        Show::Atlantis => if season == 1 {
            18
        } else {
            19
        },
        Show::Universe => 19,
    }
}

/// The identifier under which the metadata catalog lists `show`.
pub fn catalog_id(show: Show) -> (r: u32)
    ensures
        r == spec_catalog_id(show),
{
    match show {
        Show::Sg1 => 4629,
        Show::Atlantis => 2290,
        Show::Universe => 5148,
    }
}

/// The display name of `show`.
pub fn label(show: Show) -> (r: &'static str)
    ensures
        r@ == spec_label(show),
{
    match show {
        Show::Sg1 => "SG-1",
        Show::Atlantis => "Atlantis",
        Show::Universe => "Universe",
    }
}

} // verus!
