//! The arguments of one native call, taken together.
//!
//! A native call is prepared by checking each argument in turn. The call
//! goes ahead only where every check succeeds; where one is refused, the
//! arguments checked before it are put back as they were. After the call
//! has returned, the guards are committed.
use vstd::prelude::*;
use crate::cast::from_value::{
    accepts, committed_value, is_refusal, lemma_finish_commits, lemma_yank_restores,
    request_outcome, staged_guard, staged_value, FromValue, GcInfoGuard, RequestedType,
};
use crate::data::{GcInfo, Value};
use crate::error::TError;
use crate::void::Void;

verus! {

/// Whether a check of each of `requested` succeeds on the value of
/// `values` at the same place, up to place `upto`.
pub open spec fn all_accepted(values: Seq<Value>, requested: Seq<RequestedType>, upto: int) -> bool {
    forall|i: int| 0 <= i < upto ==> accepts(#[trigger] values[i], requested[i])
}

/// Whether `after` and `guards` are what successful checks of `requested`
/// leave of `before`, place by place, up to place `upto`.
pub open spec fn all_staged(
    before: Seq<Value>,
    requested: Seq<RequestedType>,
    after: Seq<Value>,
    guards: Seq<GcInfoGuard>,
    upto: int,
) -> bool {
    forall|i: int|
        0 <= i < upto ==> #[trigger] after[i] == staged_value(before[i], requested[i])
            && guards[i] == staged_guard(before[i], requested[i])
}

/// Whether each of `guards` was made for the value of `values` at the same
/// place.
pub open spec fn all_guarded(values: Seq<Value>, guards: Seq<GcInfoGuard>) -> bool {
    &&& guards.len() <= values.len()
    &&& forall|i: int| 0 <= i < guards.len() ==> (#[trigger] guards[i]).guards(values[i])
}

/// The value in state `gc_info`, all else as in `value`.
pub open spec fn with_tag(value: Value, gc_info: GcInfo) -> Value {
    Value { data: value.data, gc_info }
}

/// Commits the guards of one native call: the guard at each place is
/// finished on the value at the same place. Values beyond the guards are
/// left alone.
pub fn finish_all(values: &mut Vec<Value>, guards: Vec<GcInfoGuard>)
    requires
        all_guarded(old(values)@, guards@),
    ensures
        final(values).len() == old(values).len(),
        forall|i: int|
            0 <= i < guards.len() ==> #[trigger] final(values)@[i] == with_tag(
                old(values)@[i],
                guards@[i].finished_tag(old(values)@[i].gc_info),
            ),
        forall|i: int|
            guards.len() <= i < old(values).len() ==> #[trigger] final(values)@[i] == old(
                values,
            )@[i],
{
    let ghost before = values@;
    let ghost all = guards@;
    let mut guards = guards;
    let mut k: usize = guards.len();
    while k > 0
        invariant
            before == old(values)@,
            values.len() == before.len(),
            k <= all.len() <= values.len(),
            guards.len() == k,
            all_guarded(before, all),
            forall|j: int| 0 <= j < k ==> guards@[j] == all[j],
            forall|j: int|
                k <= j < all.len() ==> #[trigger] values@[j] == with_tag(
                    before[j],
                    all[j].finished_tag(before[j].gc_info),
                ),
            forall|j: int|
                0 <= j < k || all.len() <= j < before.len() ==> #[trigger] values@[j]
                    == before[j],
        decreases k,
    {
        k = k - 1;
        let popped = guards.pop();
        let mut value: Value = values[k];
        if let Some(mut guard) = popped {
            guard.finish(&mut value);
        }
        values.set(k, value);
    }
}

/// Gives up the guards of one native call: the guard at each place is
/// yanked on the value at the same place. Values beyond the guards are left
/// alone.
pub fn yank_all(values: &mut Vec<Value>, guards: Vec<GcInfoGuard>)
    requires
        all_guarded(old(values)@, guards@),
    ensures
        final(values).len() == old(values).len(),
        forall|i: int|
            0 <= i < guards.len() ==> #[trigger] final(values)@[i] == with_tag(
                old(values)@[i],
                guards@[i].yanked_tag(old(values)@[i].gc_info),
            ),
        forall|i: int|
            guards.len() <= i < old(values).len() ==> #[trigger] final(values)@[i] == old(
                values,
            )@[i],
{
    let ghost before = values@;
    let ghost all = guards@;
    let mut guards = guards;
    let mut k: usize = guards.len();
    while k > 0
        invariant
            before == old(values)@,
            values.len() == before.len(),
            k <= all.len() <= values.len(),
            guards.len() == k,
            all_guarded(before, all),
            forall|j: int| 0 <= j < k ==> guards@[j] == all[j],
            forall|j: int|
                k <= j < all.len() ==> #[trigger] values@[j] == with_tag(
                    before[j],
                    all[j].yanked_tag(before[j].gc_info),
                ),
            forall|j: int|
                0 <= j < k || all.len() <= j < before.len() ==> #[trigger] values@[j]
                    == before[j],
        decreases k,
    {
        k = k - 1;
        let popped = guards.pop();
        let mut value: Value = values[k];
        if let Some(mut guard) = popped {
            guard.yank(&mut value);
        }
        values.set(k, value);
    }
}

/// Checks the arguments of one native call, in order.
///
/// Where every check succeeds, each value is left in its staged state and
/// the guards come back in the order of the arguments. Where one is refused,
/// the guards of the arguments before it are given up, so that every value
/// is as it was before the call, and the failure comes back with the place
/// of the argument that caused it.
pub fn lifetime_check_all(values: &mut Vec<Value>, requested: &Vec<RequestedType>) -> (r: Result<
    Vec<GcInfoGuard>,
    (usize, TError),
>)
    requires
        old(values).len() == requested.len(),
    ensures
        final(values).len() == old(values).len(),
        match r {
            Ok(guards) => {
                &&& guards.len() == requested.len()
                &&& all_accepted(old(values)@, requested@, requested.len() as int)
                &&& all_staged(
                    old(values)@,
                    requested@,
                    final(values)@,
                    guards@,
                    requested.len() as int,
                )
                &&& all_guarded(final(values)@, guards@)
            },
            Err((at, e)) => {
                &&& at < requested.len()
                &&& all_accepted(old(values)@, requested@, at as int)
                &&& !accepts(old(values)@[at as int], requested@[at as int])
                &&& is_refusal(old(values)@[at as int], requested@[at as int], e)
                &&& final(values)@ == old(values)@
            },
        },
{
    let ghost before = values@;
    let n: usize = requested.len();
    let mut guards: Vec<GcInfoGuard> = Vec::new();
    let mut i: usize = 0;
    while i < n
        invariant
            n == requested.len(),
            values.len() == n,
            before == old(values)@,
            before.len() == n,
            i <= n,
            guards.len() == i,
            all_accepted(before, requested@, i as int),
            all_staged(before, requested@, values@, guards@, i as int),
            forall|j: int| i <= j < n ==> values@[j] == before[j],
        decreases n - i,
    {
        let mut value: Value = values[i];
        match <Void as FromValue>::lifetime_check(&mut value, &requested[i]) {
            Ok(guard) => {
                values.set(i, value);
                guards.push(guard);
            },
            Err(e) => {
                let ghost staged = values@;
                proof {
                    assert forall|j: int| 0 <= j < i implies with_tag(
                        #[trigger] staged[j],
                        guards@[j].yanked_tag(staged[j].gc_info),
                    ) == before[j] by {
                        lemma_yank_restores(before[j], requested@[j]);
                    }
                }
                yank_all(values, guards);
                assert(values@ =~= before);
                return Err((i, e));
            },
        }
        i = i + 1;
    }
    Ok(guards)
}

/// The arguments of a call that was checked and then committed are each in
/// the state that their action ends in.
pub proof fn lemma_finish_all_commits(
    before: Seq<Value>,
    requested: Seq<RequestedType>,
    staged: Seq<Value>,
    guards: Seq<GcInfoGuard>,
    i: int,
)
    requires
        0 <= i < requested.len(),
        before.len() == requested.len(),
        all_accepted(before, requested, requested.len() as int),
        all_staged(before, requested, staged, guards, requested.len() as int),
    ensures
        with_tag(staged[i], guards[i].finished_tag(staged[i].gc_info)) == committed_value(
            before[i],
            requested[i],
        ),
{
    lemma_finish_commits(before[i], requested[i]);
}

/// A call that fails on its second argument leaves its first as it was.
/// Where the check of the first argument succeeds and that of the second is
/// refused, the second value is untouched by its check and a `yank` of the
/// first guard restores the first value's tag. This holds as well where both
/// arguments are one value, so that the second check meets the value in the
/// state staged by the first.
pub proof fn lemma_failed_call_restores(
    first: Value,
    first_requested: RequestedType,
    second: Value,
    second_requested: RequestedType,
    r: Result<GcInfoGuard, TError>,
    second_after: Value,
)
    requires
        accepts(first, first_requested),
        !accepts(second, second_requested),
        request_outcome(second, second_requested, r, second_after),
    ensures
        r is Err,
        second_after == second,
        staged_guard(first, first_requested).yanked_tag(
            staged_value(first, first_requested).gc_info,
        ) == first.gc_info,
        second == staged_value(first, first_requested) ==> staged_guard(
            first,
            first_requested,
        ).yanked_tag(second_after.gc_info) == first.gc_info,
{
}

} // verus!
