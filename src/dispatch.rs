//! Ordered dispatch of an event over the jokers, and the deferred actions that
//! run once every joker has been visited.

use crate::event::{Event, EVENT_COUNT};
use crate::joker::{DeferredAction, Joker, JokerInternalState};
use itertools::Itertools;
use vstd::prelude::*;

verus! {

/// Entry `a` (priority, position) is visited before entry `b`.
pub open spec fn visited_before(a: (i64, usize), b: (i64, usize)) -> bool {
    a.0 < b.0 || (a.0 == b.0 && a.1 < b.1)
}

/// Relies on itertools' `sorted_by_key`, which collects the entries and runs std's
/// stable `sort_by_key`: the entries come back ordered by priority, and entries of
/// equal priority keep their input order, which here is their position.
#[verifier::external_body]
pub(crate) fn sorted_by_priority(entries: Vec<(i64, usize)>) -> (r: Vec<(i64, usize)>)
    requires
        forall|i: int| 0 <= i < entries@.len() ==> (#[trigger] entries@[i]).1 == i,
    ensures
        r@.len() == entries@.len(),
        forall|i: int|
            0 <= i < r@.len() ==> (#[trigger] r@[i]).1 < entries@.len() && r@[i] == entries@[r@[i].1 as int],
        forall|i: int, j: int| 0 <= i < j < r@.len() ==> visited_before(#[trigger] r@[i], #[trigger] r@[j]),
{
    entries.into_iter().sorted_by_key(|e| e.0).collect()
}

/// Priority of joker `j` for event `e`.
pub open spec fn priority(j: Joker, e: Event) -> i64 {
    j.dispatcher_order.events@[e.index() as int]
}

/// Every joker has one priority per event.
pub open spec fn orders_fit(jokers: Seq<Joker>) -> bool {
    forall|i: int| 0 <= i < jokers.len() ==> (#[trigger] jokers[i]).dispatcher_order.events@.len() == EVENT_COUNT
}

/// Positions of the jokers in the order they are visited for `event`: by
/// priority, ties kept in collection order.
pub fn dispatch_order(jokers: &Vec<Joker>, event: Event) -> (r: Vec<usize>)
    requires
        orders_fit(jokers@),
    ensures
        r@.len() == jokers@.len(),
        forall|i: int| 0 <= i < r@.len() ==> (#[trigger] r@[i]) < jokers@.len(),
        forall|i: int, j: int|
            0 <= i < j < r@.len() ==> visited_before(
                (priority(jokers@[r@[i] as int], event), r@[i]),
                (priority(jokers@[r@[j] as int], event), r@[j]),
            ),
{
    let e = event.to_index();
    let mut entries: Vec<(i64, usize)> = Vec::new();
    let mut i: usize = 0;
    while i < jokers.len()
        invariant
            i <= jokers@.len(),
            e == event.index(),
            orders_fit(jokers@),
            entries@.len() == i,
            forall|k: int| 0 <= k < i ==> #[trigger] entries@[k] == (priority(jokers@[k], event), k as usize),
        decreases jokers@.len() - i,
    {
        let p = jokers[i].dispatcher_order.events[e];
        entries.push((p, i));
        i += 1;
    }
    let sorted = sorted_by_priority(entries);
    let mut r: Vec<usize> = Vec::new();
    let mut k: usize = 0;
    while k < sorted.len()
        invariant
            k <= sorted@.len(),
            sorted@.len() == jokers@.len(),
            forall|m: int| 0 <= m < jokers@.len() ==> #[trigger] entries@[m] == (priority(jokers@[m], event), m as usize),
            entries@.len() == jokers@.len(),
            forall|m: int|
                0 <= m < sorted@.len() ==> (#[trigger] sorted@[m]).1 < entries@.len() && sorted@[m] == entries@[sorted@[m].1 as int],
            r@.len() == k,
            forall|m: int| 0 <= m < k ==> #[trigger] r@[m] == sorted@[m].1,
        decreases sorted@.len() - k,
    {
        r.push(sorted[k].1);
        k += 1;
    }
    proof {
        assert forall|a: int, b: int| 0 <= a < b < r@.len() implies visited_before(
            (priority(jokers@[r@[a] as int], event), r@[a]),
            (priority(jokers@[r@[b] as int], event), r@[b]),
        ) by {
            assert(visited_before(sorted@[a], sorted@[b]));
            assert(sorted@[a] == entries@[sorted@[a].1 as int]);
            assert(sorted@[b] == entries@[sorted@[b].1 as int]);
        }
    }
    r
}

/// `a + b`, capped at `u32::MAX`.
pub open spec fn sat_add_u32(a: u32, b: u32) -> u32 {
    if a + b > u32::MAX {
        u32::MAX
    } else {
        (a + b) as u32
    }
}

/// Joker memory after a destroyed neighbour worth `v` fed it: a dagger's mult
/// grows by `v`, other memory stays.
pub open spec fn fed(data: JokerInternalState, v: u32) -> JokerInternalState {
    match data {
        JokerInternalState::CeremonialDagger { mult } => JokerInternalState::CeremonialDagger {
            mult: sat_add_u32(mult, v),
        },
        _ => data,
    }
}

/// Positions increase strictly along the collection.
pub open spec fn increasing(ids: Seq<usize>) -> bool {
    forall|i: int, j: int| 0 <= i < j < ids.len() ==> ids[i] < ids[j]
}

/// Runs one deferred action of the joker that stood at position `p` when the pass
/// began. `ids` gives, for each joker now in the collection, its position when the
/// pass began: the acting joker is found by that identity, never by a position
/// cached before earlier actions ran. The action does nothing when the acting
/// joker is gone, has no right neighbour, or that neighbour is eternal.
pub open spec fn run_action(js: Seq<Joker>, ids: Seq<usize>, p: usize, a: DeferredAction) -> (Seq<Joker>, Seq<usize>) {
    match a {
        DeferredAction::DestroyRightNeighbor => {
            if !ids.contains(p) {
                (js, ids)
            } else {
                let c = choose|c: int| 0 <= c < ids.len() && ids[c] == p;
                if c + 1 >= js.len() || js[c + 1].stickers.eternal {
                    (js, ids)
                } else {
                    let victim = js[c + 1];
                    let actor = js[c];
                    (
                        js.remove(c + 1).update(c, Joker { data: fed(actor.data, victim.sell_value), ..actor }),
                        ids.remove(c + 1),
                    )
                }
            }
        },
    }
}

/// Runs the deferred actions in order, each on the collection the previous ones left.
pub open spec fn run_actions(js: Seq<Joker>, ids: Seq<usize>, acts: Seq<(usize, DeferredAction)>) -> (Seq<Joker>, Seq<usize>)
    decreases acts.len(),
{
    if acts.len() == 0 {
        (js, ids)
    } else {
        let prev = run_actions(js, ids, acts.drop_last());
        run_action(prev.0, prev.1, acts.last().0, acts.last().1)
    }
}

/// The positions `0 .. n`.
pub open spec fn positions(n: nat) -> Seq<usize> {
    Seq::new(n, |i: int| i as usize)
}

fn run_one(jokers: &mut Vec<Joker>, ids: &mut Vec<usize>, p: usize, a: DeferredAction)
    requires
        old(jokers)@.len() == old(ids)@.len(),
        increasing(old(ids)@),
        orders_fit(old(jokers)@),
    ensures
        orders_fit(final(jokers)@),
        final(jokers)@.len() == final(ids)@.len(),
        increasing(final(ids)@),
        (final(jokers)@, final(ids)@) == run_action(old(jokers)@, old(ids)@, p, a),
{
    match a {
        DeferredAction::DestroyRightNeighbor => {
            let mut c: usize = 0;
            while c < ids.len() && ids[c] != p
                invariant
                    c <= ids@.len(),
                    forall|m: int| 0 <= m < c ==> ids@[m] != p,
                decreases ids@.len() - c,
            {
                c += 1;
            }
            if c == ids.len() {
                return;
            }
            proof {
                let cc = choose|cc: int| 0 <= cc < ids@.len() && ids@[cc] == p;
                assert(ids@[c as int] == p);
                if cc != c {
                    if cc < c {
                        assert(ids@[cc] < ids@[c as int]);
                    } else {
                        assert(ids@[c as int] < ids@[cc]);
                    }
                }
            }
            if c + 1 >= jokers.len() || jokers[c + 1].stickers.eternal {
                return;
            }
            let victim = jokers.remove(c + 1);
            ids.remove(c + 1);
            let mut actor = jokers.remove(c);
            let ghost before = jokers@;
            let data = match actor.data {
                JokerInternalState::CeremonialDagger { mult } => JokerInternalState::CeremonialDagger {
                    mult: mult.saturating_add(victim.sell_value),
                },
                other => other,
            };
            actor.data = data;
            jokers.insert(c, actor);
            proof {
                assert forall|i: int| 0 <= i < jokers@.len() implies (#[trigger] jokers@[i]).dispatcher_order.events@.len() == EVENT_COUNT by {
                    if i < c {
                        assert(jokers@[i] == old(jokers)@[i]);
                    } else if i > c {
                        assert(jokers@[i] == old(jokers)@[i + 1]);
                    }
                }
            }
        },
    }
}

/// Runs the deferred actions in order on the live collection, as [`run_actions`]
/// describes, starting from every joker at its own position.
pub fn run_deferred(jokers: &mut Vec<Joker>, acts: &Vec<(usize, DeferredAction)>)
    requires
        orders_fit(old(jokers)@),
    ensures
        orders_fit(final(jokers)@),
        final(jokers)@ == run_actions(old(jokers)@, positions(old(jokers)@.len()), acts@).0,
{
    let ghost js0 = jokers@;
    let mut ids: Vec<usize> = Vec::new();
    let mut i: usize = 0;
    while i < jokers.len()
        invariant
            i <= jokers@.len(),
            jokers@ == js0,
            orders_fit(js0),
            ids@ == positions(i as nat),
        decreases jokers@.len() - i,
    {
        ids.push(i);
        proof {
            assert(ids@ =~= positions((i + 1) as nat));
        }
        i += 1;
    }
    let mut k: usize = 0;
    while k < acts.len()
        invariant
            k <= acts@.len(),
            jokers@.len() == ids@.len(),
            increasing(ids@),
            orders_fit(jokers@),
            (jokers@, ids@) == run_actions(js0, positions(js0.len()), acts@.take(k as int)),
        decreases acts@.len() - k,
    {
        let (p, a) = acts[k];
        proof {
            assert(acts@.take(k + 1).drop_last() =~= acts@.take(k as int));
        }
        run_one(jokers, &mut ids, p, a);
        k += 1;
    }
    proof {
        assert(acts@.take(acts@.len() as int) =~= acts@);
    }
}

} // verus!
