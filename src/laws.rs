use vstd::prelude::*;

use crate::payload::record;
use crate::thingy::Thingy;

verus! {

/// Registering `record` and running the trampoline once with `n` yields
/// exactly one recorded call, and that call carries `n`.
///
/// `trampoline` ensures that its result satisfies this premise.
pub proof fn lemma_record_once(n: i32, calls: Vec<i32>)
    requires
        call_ensures(record, (n,), calls),
    ensures
        calls@.len() == 1,
        calls@[0] == n,
{
}

/// Registering `Thingy::added` on a receiver and running the trampoline once
/// with `n` leaves the counter at its old value plus `n`, and changes nothing
/// else in the receiver.
///
/// `apply_closure` ensures that the receiver's new state satisfies this
/// premise.
pub proof fn lemma_bound_add(before: Thingy, n: i32, after: Thingy)
    requires
        call_ensures(Thingy::added, (before, n), after),
    ensures
        after.count == before.count + n,
        after == (Thingy { count: (before.count + n) as i32 }),
{
}

/// Each registration takes effect exactly once: two registrations of
/// `Thingy::added` on one receiver, run in turn with `n` and then `m`, move
/// the counter by `n + m`.
pub proof fn lemma_registrations_count_once(
    start: Thingy,
    n: i32,
    between: Thingy,
    m: i32,
    end: Thingy,
)
    requires
        call_ensures(Thingy::added, (start, n), between),
        call_ensures(Thingy::added, (between, m), end),
    ensures
        end.count == start.count + n + m,
{
}

} // verus!
