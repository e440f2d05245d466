//! Lists of results, of which the first failure counts.

use crate::error::{result_view, ParseError, ParseErrorView};
use vstd::prelude::*;

verus! {

/// What a list of results comes to: the first failure in it, or else all that it holds.
pub open spec fn collected<T, E>(items: Seq<Result<T, E>>) -> Result<Seq<T>, E>
    decreases items.len(),
{
    if items.len() == 0 {
        Ok(Seq::empty())
    } else {
        match collected(items.drop_last()) {
            Err(e) => Err(e),
            Ok(init) => match items.last() {
                Ok(v) => Ok(init.push(v)),
                Err(e) => Err(e),
            },
        }
    }
}

/// What the first `i + 1` results come to, from what the first `i` come to.
pub proof fn lemma_collected_next<T, E>(items: Seq<Result<T, E>>, i: int)
    requires
        0 <= i < items.len(),
    ensures
        collected(items.take(i + 1)) == (match collected(items.take(i)) {
            Err(e) => Err(e),
            Ok(init) => match items[i] {
                Ok(v) => Ok(init.push(v)),
                Err(e) => Err(e),
            },
        }),
{
    assert(items.take(i + 1).drop_last() =~= items.take(i));
}

/// A failure among the first `n` results is the failure of the whole list.
pub proof fn lemma_collected_failure<T, E>(items: Seq<Result<T, E>>, n: int)
    requires
        0 <= n <= items.len(),
        collected(items.take(n)) is Err,
    ensures
        collected(items) == collected(items.take(n)),
    decreases items.len() - n,
{
    if n < items.len() {
        lemma_collected_next(items, n);
        lemma_collected_failure(items, n + 1);
    } else {
        assert(items.take(n) =~= items);
    }
}

/// A list that comes to something holds as many items as it has results, each the value
/// of the result in its place.
pub proof fn lemma_collected_all<T, E>(items: Seq<Result<T, E>>)
    ensures
        collected(items) matches Ok(values) ==> values.len() == items.len() && forall|i: int|
            0 <= i < items.len() ==> items[i] == Ok::<T, E>(#[trigger] values[i]),
        collected(items) is Err ==> exists|i: int|
            0 <= i < items.len() && (#[trigger] items[i]) is Err,
    decreases items.len(),
{
    if items.len() > 0 {
        lemma_collected_all(items.drop_last());
        match collected(items.drop_last()) {
            Ok(init) => {
                match items.last() {
                    Ok(v) => {
                        let values = init.push(v);
                        assert forall|i: int| 0 <= i < items.len() implies items[i] == Ok::<T, E>(
                            #[trigger] values[i],
                        ) by {
                            if i < items.len() - 1 {
                                assert(items.drop_last()[i] == items[i]);
                            }
                        }
                    },
                    Err(e) => {
                        assert(items[items.len() - 1] is Err);
                    },
                }
            },
            Err(e) => {
                let i = choose|i: int|
                    0 <= i < items.drop_last().len() && (#[trigger] items.drop_last()[i]) is Err;
                assert(items[i] is Err);
            },
        }
    }
}

/// The view of a vector that an item was pushed to.
pub proof fn lemma_pushed<T: DeepView>(before: Vec<T>, after: Vec<T>, v: T)
    requires
        after@ == before@.push(v),
    ensures
        after.deep_view() == before.deep_view().push(v.deep_view()),
{
    assert(after.deep_view() =~= before.deep_view().push(v.deep_view()));
}

/// What a list of lists comes to: the first failure in it, or else all that the lists
/// hold, one list after the other.
pub open spec fn gathered<T, E>(lists: Seq<Result<Seq<T>, E>>) -> Result<Seq<T>, E>
    decreases lists.len(),
{
    if lists.len() == 0 {
        Ok(Seq::empty())
    } else {
        match gathered(lists.drop_last()) {
            Err(e) => Err(e),
            Ok(init) => match lists.last() {
                Ok(v) => Ok(init + v),
                Err(e) => Err(e),
            },
        }
    }
}

/// What the first `i + 1` lists come to, from what the first `i` come to.
pub proof fn lemma_gathered_next<T, E>(lists: Seq<Result<Seq<T>, E>>, i: int)
    requires
        0 <= i < lists.len(),
    ensures
        gathered(lists.take(i + 1)) == (match gathered(lists.take(i)) {
            Err(e) => Err(e),
            Ok(init) => match lists[i] {
                Ok(v) => Ok(init + v),
                Err(e) => Err(e),
            },
        }),
{
    assert(lists.take(i + 1).drop_last() =~= lists.take(i));
}

/// A failure among the first `n` lists is the failure of the whole.
pub proof fn lemma_gathered_failure<T, E>(lists: Seq<Result<Seq<T>, E>>, n: int)
    requires
        0 <= n <= lists.len(),
        gathered(lists.take(n)) is Err,
    ensures
        gathered(lists) == gathered(lists.take(n)),
    decreases lists.len() - n,
{
    if n < lists.len() {
        lemma_gathered_next(lists, n);
        lemma_gathered_failure(lists, n + 1);
    } else {
        assert(lists.take(n) =~= lists);
    }
}

/// Every item of what a list of lists comes to is an item of one of the lists.
pub proof fn lemma_gathered_holds<T, E>(lists: Seq<Result<Seq<T>, E>>, i: int)
    requires
        gathered(lists) is Ok,
        0 <= i < gathered(lists)->Ok_0.len(),
    ensures
        exists|k: int, j: int|
            0 <= k < lists.len() && (#[trigger] lists[k]) is Ok && 0 <= j < lists[k]->Ok_0.len()
                && (#[trigger] lists[k]->Ok_0[j]) == gathered(lists)->Ok_0[i],
    decreases lists.len(),
{
    if lists.len() > 0 {
        let init = lists.drop_last();
        let before = gathered(init)->Ok_0;
        let k = lists.len() - 1;
        if i < before.len() {
            lemma_gathered_holds(init, i);
            let (k0, j0) = choose|k0: int, j0: int|
                0 <= k0 < init.len() && (#[trigger] init[k0]) is Ok && 0 <= j0
                    < init[k0]->Ok_0.len() && (#[trigger] init[k0]->Ok_0[j0]) == before[i];
            assert(lists[k0] == init[k0]);
            assert(lists[k0]->Ok_0[j0] == gathered(lists)->Ok_0[i]);
        } else {
            assert(lists[k]->Ok_0[i - before.len()] == gathered(lists)->Ok_0[i]);
        }
    }
}

/// Takes the list `i` of a list of lists into `out`, which holds the lists before it.
pub(crate) fn push_rows<T: DeepView>(
    out: &mut Vec<T>,
    rows: Result<Vec<T>, ParseError>,
    Ghost(lists): Ghost<Seq<Result<Seq<T::V>, ParseErrorView>>>,
    Ghost(i): Ghost<int>,
) -> (r: Result<(), ParseError>)
    requires
        0 <= i < lists.len(),
        gathered(lists.take(i)) == Ok::<Seq<T::V>, ParseErrorView>(old(out).deep_view()),
        result_view(rows) == lists[i],
    ensures
        match r {
            Ok(_) => gathered(lists.take(i + 1)) == Ok::<Seq<T::V>, ParseErrorView>(
                final(out).deep_view(),
            ),
            Err(e) => gathered(lists) == Err::<Seq<T::V>, ParseErrorView>(e.deep_view()),
        },
{
    proof {
        lemma_gathered_next(lists, i);
    }
    match rows {
        Ok(rows) => {
            let ghost before = *out;
            let ghost added = rows;
            let mut rows = rows;
            out.append(&mut rows);
            assert(out.deep_view() =~= before.deep_view() + added.deep_view());
            Ok(())
        },
        Err(e) => {
            proof {
                lemma_gathered_failure(lists, i + 1);
            }
            Err(e)
        },
    }
}

/// Takes the result for the row `i` of a list into `out`, which holds the rows before it.
pub(crate) fn push_row<T: DeepView>(
    out: &mut Vec<T>,
    row: Result<T, ParseError>,
    Ghost(items): Ghost<Seq<Result<T::V, ParseErrorView>>>,
    Ghost(i): Ghost<int>,
) -> (r: Result<(), ParseError>)
    requires
        0 <= i < items.len(),
        collected(items.take(i)) == Ok::<Seq<T::V>, ParseErrorView>(old(out).deep_view()),
        result_view(row) == items[i],
    ensures
        match r {
            Ok(_) => collected(items.take(i + 1)) == Ok::<Seq<T::V>, ParseErrorView>(
                final(out).deep_view(),
            ),
            Err(e) => collected(items) == Err::<Seq<T::V>, ParseErrorView>(e.deep_view()),
        },
{
    proof {
        lemma_collected_next(items, i);
    }
    match row {
        Ok(v) => {
            let ghost before = *out;
            out.push(v);
            proof {
                lemma_pushed(before, *out, v);
            }
            Ok(())
        },
        Err(e) => {
            proof {
                lemma_collected_failure(items, i + 1);
            }
            Err(e)
        },
    }
}

} // verus!
