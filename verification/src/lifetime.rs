//! The end of entities that live for a set time.

use vstd::prelude::*;
use crate::components::{aged, Mortal};

verus! {

/// The entities that are left after `delta` more nanoseconds, in their order:
/// those whose time has not fallen below zero, each that much older.
pub open spec fn survivors<T: Mortal>(items: Seq<T>, delta: int) -> Seq<T>
    decreases items.len(),
{
    if items.len() == 0 {
        Seq::empty()
    } else {
        let rest = survivors(items.drop_last(), delta);
        if items.last().lifetime().expires(delta) {
            rest
        } else {
            rest.push(aged(items.last(), delta))
        }
    }
}

/// Counts the time of every entity down by `delta` nanoseconds and removes those
/// whose time is over.
pub fn update_timeout<T: Mortal>(delta: u64, items: &mut Vec<T>)
    ensures
        final(items)@ == survivors(old(items)@, delta as int),
{
    let mut all: Vec<T> = Vec::new();
    core::mem::swap(items, &mut all);
    let ghost before = all@;
    for item in it: all
        invariant
            it.seq() == before,
            items@ == survivors(before.take(it.index() as int), delta as int),
    {
        let mut item = item;
        assert(before.take(it.index() + 1).drop_last() == before.take(it.index() as int));
        let expired = item.age(delta);
        if !expired {
            items.push(item);
        }
    }
    assert(before.take(before.len() as int) == before);
}

} // verus!
