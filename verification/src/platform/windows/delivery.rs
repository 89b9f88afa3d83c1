//! Sequences of messages delivered to the router, and what holds of all of
//! them.

use super::message::{spec_decode, Message};
use super::router::{binds, next, public_window_callback, route, RouterAction, WindowTable};
use super::InitData;
use vstd::prelude::*;

verus! {

/// The windows that have a data block before the message at position `n` of
/// `trace` is delivered, where `start` lists those that had one at first. A
/// message is a window handle with a raw identifier.
pub open spec fn bound_before(start: Seq<isize>, trace: Seq<(isize, u32)>, n: int) -> Seq<isize>
    decreases n,
{
    if n <= 0 {
        start
    } else {
        next(bound_before(start, trace, n - 1), trace[n - 1].0, trace[n - 1].1)
    }
}

/// Whether the message at position `i` of `trace` binds a data block.
pub open spec fn binds_at(start: Seq<isize>, trace: Seq<(isize, u32)>, i: int) -> bool {
    binds(bound_before(start, trace, i), trace[i].0, trace[i].1)
}

/// The number of data blocks that the first `n` messages of `trace` allocate
/// for `window`.
pub open spec fn allocations(
    start: Seq<isize>,
    trace: Seq<(isize, u32)>,
    window: isize,
    n: int,
) -> nat
    decreases n,
{
    if n <= 0 {
        0
    } else if trace[n - 1].0 == window && binds_at(start, trace, n - 1) {
        allocations(start, trace, window, n - 1) + 1
    } else {
        allocations(start, trace, window, n - 1)
    }
}

/// The window that the latest binding among the first `n` messages of
/// `trace` was for.
pub open spec fn last_bound(start: Seq<isize>, trace: Seq<(isize, u32)>, n: int) -> Option<isize>
    decreases n,
{
    if n <= 0 {
        None
    } else if binds_at(start, trace, n - 1) {
        Some(trace[n - 1].0)
    } else {
        last_bound(start, trace, n - 1)
    }
}

/// A window that has a data block keeps it, and the first `n` messages
/// allocate at most one block for a window: none if it had one at first,
/// and one exactly if it has one now and had none.
proof fn lemma_allocations(start: Seq<isize>, trace: Seq<(isize, u32)>, window: isize, n: int)
    requires
        0 <= n <= trace.len(),
    ensures
        start.contains(window) ==> bound_before(start, trace, n).contains(window),
        allocations(start, trace, window, n) == if !start.contains(window) && bound_before(
            start,
            trace,
            n,
        ).contains(window) {
            1nat
        } else {
            0nat
        },
    decreases n,
{
    if n > 0 {
        lemma_allocations(start, trace, window, n - 1);
        let before = bound_before(start, trace, n - 1);
        let (w, id) = trace[n - 1];
        if binds(before, w, id) {
            let after = before.push(w);
            assert(after[before.len() as int] == w);
            assert forall|x: isize| before.contains(x) implies after.contains(x) by {
                let k = choose|k: int| 0 <= k < before.len() && before[k] == x;
                assert(after[k] == x);
            }
            if w != window && after.contains(window) {
                let k = choose|k: int| 0 <= k < after.len() && after[k] == window;
                assert(before[k] == window);
            }
        }
    }
}

/// Every sequence of messages allocates at most one data block for a
/// window, and none for a window that was bound before the sequence began.
/// A block is allocated only in response to the pre-creation message, and
/// the legacy creation message changes nothing, wherever it stands.
pub proof fn lemma_single_bind(start: Seq<isize>, trace: Seq<(isize, u32)>, window: isize)
    ensures
        allocations(start, trace, window, trace.len() as int) <= 1,
        start.contains(window) ==> allocations(start, trace, window, trace.len() as int) == 0,
        forall|i: int|
            0 <= i < trace.len() && #[trigger] binds_at(start, trace, i) ==> spec_decode(
                trace[i].1,
            ) == Message::NcCreate,
        forall|i: int|
            0 <= i < trace.len() && spec_decode(trace[i].1) == Message::Create ==> !#[trigger] binds_at(
                start,
                trace,
                i,
            ),
        forall|i: int|
            0 <= i < trace.len() && spec_decode(trace[i].1) == Message::Create ==> next(
                #[trigger] bound_before(start, trace, i),
                trace[i].0,
                trace[i].1,
            ) == bound_before(start, trace, i),
{
    lemma_allocations(start, trace, window, trace.len() as int);
}

/// A list of bound windows that names no window twice, and not the null
/// handle, stays so under every sequence of messages, and grows by the
/// blocks that the sequence allocates.
pub proof fn lemma_one_block_per_window(start: Seq<isize>, trace: Seq<(isize, u32)>, n: int)
    requires
        start.no_duplicates(),
        !start.contains(0),
        0 <= n <= trace.len(),
    ensures
        bound_before(start, trace, n).no_duplicates(),
        !bound_before(start, trace, n).contains(0),
        start.len() <= bound_before(start, trace, n).len() <= start.len() + n,
    decreases n,
{
    if n > 0 {
        lemma_one_block_per_window(start, trace, n - 1);
        let before = bound_before(start, trace, n - 1);
        let (w, id) = trace[n - 1];
        if binds(before, w, id) {
            let after = before.push(w);
            assert forall|i: int, j: int|
                0 <= i < after.len() && 0 <= j < after.len() && i != j implies after[i]
                != after[j] by {
                if i < before.len() {
                    assert(before.contains(before[i]));
                }
                if j < before.len() {
                    assert(before.contains(before[j]));
                }
            }
            if after.contains(0) {
                let k = choose|k: int| 0 <= k < after.len() && after[k] == 0;
                assert(before.contains(before[k]));
            }
        }
    }
}

/// A window that is bound before the message at position `n`, and was not
/// at first, was bound by an earlier message of the sequence.
proof fn lemma_bound_earlier(start: Seq<isize>, trace: Seq<(isize, u32)>, window: isize, n: int)
    requires
        0 <= n <= trace.len(),
        bound_before(start, trace, n).contains(window),
        !start.contains(window),
    ensures
        exists|j: int| 0 <= j < n && trace[j].0 == window && #[trigger] binds_at(start, trace, j),
    decreases n,
{
    if n > 0 {
        let before = bound_before(start, trace, n - 1);
        let (w, id) = trace[n - 1];
        if before.contains(window) {
            lemma_bound_earlier(start, trace, window, n - 1);
            let j = choose|j: int|
                0 <= j < n - 1 && trace[j].0 == window && #[trigger] binds_at(start, trace, j);
            assert(0 <= j < n && trace[j].0 == window && binds_at(start, trace, j));
        } else {
            let after = bound_before(start, trace, n);
            let k = choose|k: int| 0 <= k < after.len() && after[k] == window;
            if binds(before, w, id) {
                if k < before.len() {
                    assert(before[k] == window);
                    assert(false);
                }
                assert(w == window);
                assert(binds_at(start, trace, n - 1));
            } else {
                assert(false);
            }
        }
    }
}

/// In every sequence of messages, paint and destroy handling happens only
/// for a window that is bound, and a window that was not bound at first was
/// bound by an earlier pre-creation message of the sequence. For a window
/// that is not bound, every message but the two creation messages is left
/// to default processing and changes nothing.
pub proof fn lemma_bind_before_interpret(start: Seq<isize>, trace: Seq<(isize, u32)>, i: int)
    requires
        0 <= i < trace.len(),
    ensures
        route(bound_before(start, trace, i), trace[i].0, trace[i].1).interprets()
            ==> bound_before(start, trace, i).contains(trace[i].0),
        route(bound_before(start, trace, i), trace[i].0, trace[i].1).interprets()
            && !start.contains(trace[i].0) ==> exists|j: int|
            0 <= j < i && trace[j].0 == trace[i].0 && #[trigger] binds_at(start, trace, j)
                && spec_decode(trace[j].1) == Message::NcCreate,
        !bound_before(start, trace, i).contains(trace[i].0) && spec_decode(trace[i].1)
            != Message::NcCreate && spec_decode(trace[i].1) != Message::Create ==> route(
            bound_before(start, trace, i),
            trace[i].0,
            trace[i].1,
        ) == RouterAction::Default && bound_before(start, trace, i + 1) == bound_before(
            start,
            trace,
            i,
        ),
{
    let bound = bound_before(start, trace, i);
    if route(bound, trace[i].0, trace[i].1).interprets() && !start.contains(trace[i].0) {
        lemma_bound_earlier(start, trace, trace[i].0, i);
        let j = choose|j: int|
            0 <= j < i && trace[j].0 == trace[i].0 && #[trigger] binds_at(start, trace, j);
        assert(0 <= j < i && trace[j].0 == trace[i].0 && binds_at(start, trace, j) && spec_decode(
            trace[j].1,
        ) == Message::NcCreate);
    }
}

/// Delivers a sequence of messages to the router, in order, and returns
/// what the router did with each.
pub fn deliver_all(
    table: &mut WindowTable,
    initdata: &mut InitData,
    trace: &Vec<(isize, u32)>,
) -> (actions: Vec<RouterAction>)
    ensures
        actions@.len() == trace@.len(),
        forall|i: int|
            0 <= i < trace@.len() ==> #[trigger] actions@[i] == route(
                bound_before(old(table).bound(), trace@, i),
                trace@[i].0,
                trace@[i].1,
            ),
        final(table).bound() == bound_before(old(table).bound(), trace@, trace@.len() as int),
        final(table).wf(),
        last_bound(old(table).bound(), trace@, trace@.len() as int) is None ==> *final(initdata)
            == *old(initdata),
        last_bound(old(table).bound(), trace@, trace@.len() as int) matches Some(w) ==> {
            &&& final(initdata).spec_window() is Some
            &&& final(initdata).spec_window()->0.spec_handle() == w
        },
{
    let ghost start = table.bound();
    let ghost first = *initdata;
    let mut actions: Vec<RouterAction> = Vec::new();
    let mut i: usize = 0;
    proof {
        use_type_invariant(&*table);
    }
    while i < trace.len()
        invariant
            i <= trace@.len(),
            actions@.len() == i,
            forall|k: int|
                0 <= k < i ==> #[trigger] actions@[k] == route(
                    bound_before(start, trace@, k),
                    trace@[k].0,
                    trace@[k].1,
                ),
            table.bound() == bound_before(start, trace@, i as int),
            table.wf(),
            last_bound(start, trace@, i as int) is None ==> *initdata == first,
            last_bound(start, trace@, i as int) matches Some(w) ==> initdata.spec_window() is Some
                && initdata.spec_window()->0.spec_handle() == w,
        decreases trace@.len() - i,
    {
        let (window, msg) = trace[i];
        let action = public_window_callback(table, initdata, window, msg);
        actions.push(action);
        i += 1;
    }
    actions
}

} // verus!
