//! All or nothing: a list of results as one result.
//!
//! A list of results collects to the list of its values where every result
//! is a success, and to the error of its first failure where one is not.

use vstd::prelude::*;

verus! {

/// Whether every result of the list is a success.
pub open spec fn all_ok<T, E>(results: Seq<Result<T, E>>) -> bool {
    forall|i: int| 0 <= i < results.len() ==> (#[trigger] results[i]) is Ok
}

/// Whether the result at `at` is a failure and every result before it a
/// success.
pub open spec fn is_first_err<T, E>(results: Seq<Result<T, E>>, at: int) -> bool {
    &&& 0 <= at < results.len()
    &&& results[at] is Err
    &&& forall|i: int| 0 <= i < at ==> (#[trigger] results[i]) is Ok
}

/// The position of the first failure of a list that holds one.
pub open spec fn first_err<T, E>(results: Seq<Result<T, E>>) -> int {
    choose|at: int| is_first_err(results, at)
}

/// The values of a list of successes, in the order of the list.
pub open spec fn values<T, E>(results: Seq<Result<T, E>>) -> Seq<T> {
    Seq::new(results.len(), |i: int| results[i]->Ok_0)
}

/// The list as one result: all values in order, or the first error.
pub open spec fn collected<T, E>(results: Seq<Result<T, E>>) -> Result<Seq<T>, E> {
    if all_ok(results) {
        Ok(values(results))
    } else {
        Err(results[first_err(results)]->Err_0)
    }
}

/// A list has at most one first failure, and `first_err` names it.
pub proof fn lemma_first_err<T, E>(results: Seq<Result<T, E>>, at: int)
    requires
        is_first_err(results, at),
    ensures
        first_err(results) == at,
        !all_ok(results),
        collected(results) == Err::<Seq<T>, E>(results[at]->Err_0),
{
    let chosen = first_err(results);
    assert(is_first_err(results, chosen));
    if chosen < at {
        assert(results[chosen] is Ok);
    } else if at < chosen {
        assert(results[at] is Ok);
    }
}

/// A list with a failure in it has a first failure.
pub proof fn lemma_some_err<T, E>(results: Seq<Result<T, E>>, failed: int)
    requires
        0 <= failed < results.len(),
        results[failed] is Err,
    ensures
        is_first_err(results, first_err(results)),
        first_err(results) <= failed,
        collected(results) is Err,
    decreases failed,
{
    if exists|i: int| 0 <= i < failed && (#[trigger] results[i]) is Err {
        let earlier = choose|i: int| 0 <= i < failed && (#[trigger] results[i]) is Err;
        lemma_some_err(results, earlier);
    } else {
        assert(is_first_err(results, failed));
        lemma_first_err(results, failed);
    }
}

/// The values of a list of successes that grew by one success.
pub proof fn lemma_values_push<T, E>(results: Seq<Result<T, E>>, value: T)
    requires
        all_ok(results),
    ensures
        all_ok(results.push(Ok(value))),
        values(results.push(Ok(value))) == values(results).push(value),
{
    let grown = results.push(Ok::<T, E>(value));
    assert forall|i: int| 0 <= i < grown.len() implies (#[trigger] grown[i]) is Ok by {
        if i < results.len() {
            assert(results[i] is Ok);
        }
    }
    assert(values(grown) =~= values(results).push(value));
}

} // verus!
