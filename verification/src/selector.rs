//! The selector: draws a (show, season, episode) triple uniformly at
//! random from the shows the user left eligible.

use vstd::prelude::*;

use rand::Rng;

use crate::shows::Show;
use crate::shows::ShowSelection;
use crate::shows::any_eligible;
use crate::shows::eligible;
use crate::shows::max_episode;
use crate::shows::max_season;
use crate::shows::spec_max_episode;
use crate::shows::spec_max_season;

verus! {

#[verifier::external_type_specification]
#[verifier::external_body]
pub struct ExThreadRng(rand::rngs::ThreadRng);

/// The (show, season, episode) triple chosen by one randomize action.
#[derive(Copy, Clone, Debug, PartialEq, Eq, Structural)]
pub struct EpisodeReference {
    pub show: Show,
    pub season: u32,
    pub episode: u32,
}

/// Whether `ep` is a triple the selector may hand out under `sel`: its show
/// is eligible, its season lies in the show's season range, and its episode
/// lies in that season's episode range.
pub open spec fn valid_reference(sel: ShowSelection, ep: EpisodeReference) -> bool {
    &&& eligible(sel, ep.show)
    &&& 1 <= ep.season <= spec_max_season(ep.show)
    &&& 1 <= ep.episode <= spec_max_episode(ep.show, ep.season)
}

/// Why the selection stage failed.
#[derive(Copy, Clone, Debug, PartialEq, Eq, Structural)]
pub enum SelectError {
    /// Every show was toggled off, so there was nothing to draw from.
    NoEligibleShow,
}

/// Relies on rand::Rng::gen_range over the range `lo..hi`: it panics only
/// when the range is empty, and otherwise returns a number drawn uniformly
/// from the range.
#[verifier::external_body]
pub(crate) fn gen_range_u32(rng: &mut rand::rngs::ThreadRng, lo: u32, hi: u32) -> (r: u32)
    requires
        lo < hi,
    ensures
        lo <= r < hi,
{
    rng.gen_range(lo..hi)
}

/// Draw a season of `show` uniformly at random from its season range.
pub fn draw_season(show: Show, rng: &mut rand::rngs::ThreadRng) -> (r: u32)
    ensures
        1 <= r <= spec_max_season(show),
{
    let hi = max_season(show);
    gen_range_u32(rng, 1, hi + 1)
}

/// Draw an episode of the given season of `show` uniformly at random from
/// the season's episode range.
pub fn draw_episode(show: Show, season: u32, rng: &mut rand::rngs::ThreadRng) -> (r: u32)
    ensures
        1 <= r <= spec_max_episode(show, season),
{
    let hi = max_episode(show, season);
    gen_range_u32(rng, 1, hi + 1)
}

/// Pick an eligible show uniformly at random, then a season of that show,
/// then an episode of that season. Fails exactly when no show is eligible.
pub fn select_episode(sel: &ShowSelection, rng: &mut rand::rngs::ThreadRng) -> (r: Result<
    EpisodeReference,
    SelectError,
>)
    ensures
        r is Ok <==> any_eligible(*sel),
        r matches Ok(ep) ==> valid_reference(*sel, ep),
        r matches Err(e) ==> e == SelectError::NoEligibleShow,
{
    let mut pool: Vec<Show> = Vec::new();
    if sel.sg1 {
        pool.push(Show::Sg1);
    }
    if sel.atlantis {
        pool.push(Show::Atlantis);
    }
    if sel.universe {
        pool.push(Show::Universe);
    }
    if pool.len() == 0 {
        return Err(SelectError::NoEligibleShow);
    }
    assert(forall|i: int| 0 <= i < pool@.len() ==> eligible(*sel, #[trigger] pool@[i]));
    let idx = gen_range_u32(rng, 0, pool.len() as u32);
    let show = pool[idx as usize];
    let season = draw_season(show, rng);
    let episode = draw_episode(show, season, rng);
    Ok(EpisodeReference { show, season, episode })
}

} // verus!
