use vstd::prelude::*;

verus! {

/// Whether every result in the sequence is a success.
pub open spec fn all_ok<V, E>(rs: Seq<Result<V, E>>) -> bool {
    forall|i: int| 0 <= i < rs.len() ==> (#[trigger] rs[i]) is Ok
}

/// Whether `i` is the place of the first failure in the sequence.
pub open spec fn is_first_err<V, E>(rs: Seq<Result<V, E>>, i: int) -> bool {
    &&& 0 <= i < rs.len()
    &&& rs[i] is Err
    &&& forall|j: int| 0 <= j < i ==> (#[trigger] rs[j]) is Ok
}

/// The place of the first failure, where there is one.
pub open spec fn first_err_index<V, E>(rs: Seq<Result<V, E>>) -> int {
    choose|i: int| is_first_err(rs, i)
}

/// The values of a sequence of successes, in order.
pub open spec fn oks<V, E>(rs: Seq<Result<V, E>>) -> Seq<V> {
    Seq::new(rs.len(), |i: int| rs[i]->Ok_0)
}

/// The values of the results if all succeeded, else the first failure.
pub open spec fn collect<V, E>(rs: Seq<Result<V, E>>) -> Result<Seq<V>, E> {
    if all_ok(rs) {
        Ok(oks(rs))
    } else {
        Err(rs[first_err_index(rs)]->Err_0)
    }
}

/// A failure that only successes precede is the one that `collect` reports.
pub proof fn lemma_collect_first_err<V, E>(rs: Seq<Result<V, E>>, i: int)
    requires
        is_first_err(rs, i),
    ensures
        collect(rs) == Err::<Seq<V>, E>(rs[i]->Err_0),
{
    let k = first_err_index(rs);
    assert(is_first_err(rs, k));
    assert(!all_ok(rs));
    if k < i {
        assert(rs[k] is Ok);
    }
    if i < k {
        assert(rs[i] is Ok);
    }
}

} // verus!
