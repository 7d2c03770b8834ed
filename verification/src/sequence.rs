//! Converting the items of a sequence one by one, where the first failure
//! ends the conversion.
use vstd::prelude::*;

verus! {

/// The conversions of all items in order, or the error of the first item
/// whose conversion fails.
pub open spec fn try_map<A, B, E>(items: Seq<A>, f: spec_fn(A) -> Result<B, E>) -> Result<
    Seq<B>,
    E,
>
    decreases items.len(),
{
    if items.len() == 0 {
        Ok(Seq::empty())
    } else {
        match try_map(items.drop_last(), f) {
            Err(e) => Err(e),
            Ok(front) => match f(items.last()) {
                Err(e) => Err(e),
                Ok(converted) => Ok(front.push(converted)),
            },
        }
    }
}

/// The position of the first item whose conversion fails, or the number of
/// items if none does.
pub open spec fn first_failure<A, B, E>(items: Seq<A>, f: spec_fn(A) -> Result<B, E>) -> int
    decreases items.len(),
{
    if items.len() == 0 {
        0
    } else if first_failure(items.drop_last(), f) < items.len() - 1 {
        first_failure(items.drop_last(), f)
    } else if f(items.last()) is Err {
        items.len() - 1
    } else {
        items.len() as int
    }
}

/// `try_map` succeeds exactly when every item converts, and then holds the
/// conversions in order; otherwise it holds the error of the first item that
/// does not convert.
pub proof fn lemma_try_map<A, B, E>(items: Seq<A>, f: spec_fn(A) -> Result<B, E>)
    ensures
        0 <= first_failure(items, f) <= items.len(),
        forall|i: int| 0 <= i < first_failure(items, f) ==> (#[trigger] f(items[i])) is Ok,
        first_failure(items, f) < items.len() ==> f(items[first_failure(items, f)]) is Err,
        match try_map(items, f) {
            Ok(converted) => {
                &&& first_failure(items, f) == items.len()
                &&& converted.len() == items.len()
                &&& forall|i: int|
                    0 <= i < items.len() ==> f(items[i]) == Ok::<B, E>(#[trigger] converted[i])
            },
            Err(e) => {
                &&& first_failure(items, f) < items.len()
                &&& f(items[first_failure(items, f)]) == Err::<B, E>(e)
            },
        },
    decreases items.len(),
{
    if items.len() > 0 {
        let front = items.drop_last();
        lemma_try_map(front, f);
        assert forall|i: int| 0 <= i < first_failure(items, f) implies (#[trigger] f(
            items[i],
        )) is Ok by {
            if i < front.len() {
                assert(items[i] == front[i]);
            }
        }
        if first_failure(front, f) < front.len() {
            assert(items[first_failure(front, f)] == front[first_failure(front, f)]);
        }
        match try_map(items, f) {
            Ok(converted) => {
                assert forall|i: int| 0 <= i < items.len() implies f(items[i]) == Ok::<B, E>(
                    #[trigger] converted[i],
                ) by {
                    if i < front.len() {
                        assert(items[i] == front[i]);
                    }
                }
            },
            Err(e) => {},
        }
    }
}

/// Once a prefix fails, the whole sequence fails with the same error.
pub proof fn lemma_try_map_prefix_error<A, B, E>(
    items: Seq<A>,
    f: spec_fn(A) -> Result<B, E>,
    n: int,
)
    requires
        0 <= n <= items.len(),
        try_map(items.take(n), f) is Err,
    ensures
        try_map(items, f) == try_map(items.take(n), f),
    decreases items.len(),
{
    if n < items.len() {
        assert(items.drop_last().take(n) =~= items.take(n));
        lemma_try_map_prefix_error(items.drop_last(), f, n);
    } else {
        assert(items.take(n) =~= items);
    }
}

/// Extending a converted prefix by the next item.
pub proof fn lemma_try_map_step<A, B, E>(items: Seq<A>, f: spec_fn(A) -> Result<B, E>, n: int)
    requires
        0 <= n < items.len(),
        try_map(items.take(n), f) is Ok,
    ensures
        try_map(items.take(n + 1), f) == match f(items[n]) {
            Err(e) => Err::<Seq<B>, E>(e),
            Ok(converted) => Ok::<Seq<B>, E>(try_map(items.take(n), f)->Ok_0.push(converted)),
        },
{
    assert(items.take(n + 1).drop_last() =~= items.take(n));
    assert(items.take(n + 1).last() == items[n]);
}

} // verus!
