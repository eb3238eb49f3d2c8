//! The random draws of the game. Nothing is known of a draw but its range.

use vstd::prelude::*;
use rand::seq::SliceRandom;
use rand::Rng;
use crate::asteriods::SpawnArea;

verus! {

/// Calls `Rng::gen_range` on the thread's generator with the range `lo..hi`, which
/// must not be empty. The result lies in that range; which value it is, is left
/// open. (The generator itself gives up if the system cannot seed it.)
#[verifier::external_body]
pub(crate) fn random_in(lo: i64, hi: i64) -> (r: i64)
    requires
        lo < hi,
    ensures
        lo <= r < hi,
{
    rand::thread_rng().gen_range(lo..hi)
}

/// Calls `SliceRandom::choose` on the thread's generator: one of the areas, or
/// nothing if there is none to choose from.
#[verifier::external_body]
pub(crate) fn choose_area(areas: &Vec<SpawnArea>) -> (picked: Option<SpawnArea>)
    ensures
        areas@.len() == 0 ==> picked.is_none(),
        areas@.len() > 0 ==> picked.is_some() && areas@.contains(picked.unwrap()),
{
    areas.choose(&mut rand::thread_rng()).copied()
}

} // verus!
