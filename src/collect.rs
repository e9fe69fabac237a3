use vstd::prelude::*;

use crate::error::UtxoInquirerErrorView;

verus! {

/// Applies `f` to each element of `s` in order: the results, or the error of
/// the first element on which `f` fails.
pub open spec fn collect<A, B>(s: Seq<A>, f: spec_fn(A) -> Result<B, UtxoInquirerErrorView>) -> Result<Seq<B>, UtxoInquirerErrorView>
    decreases s.len(),
{
    if s.len() == 0 {
        Ok(Seq::empty())
    } else {
        match collect(s.drop_last(), f) {
            Err(e) => Err(e),
            Ok(bs) => match f(s.last()) {
                Err(e) => Err(e),
                Ok(b) => Ok(bs.push(b)),
            },
        }
    }
}

/// Collecting one more element extends the results of a prefix.
pub proof fn lemma_collect_step<A, B>(s: Seq<A>, k: int, f: spec_fn(A) -> Result<B, UtxoInquirerErrorView>)
    requires
        0 <= k < s.len(),
    ensures
        collect(s.subrange(0, k + 1), f) == match collect(s.subrange(0, k), f) {
            Err(e) => Err(e),
            Ok(bs) => match f(s[k]) {
                Err(e) => Err(e),
                Ok(b) => Ok(bs.push(b)),
            },
        },
{
    assert(s.subrange(0, k + 1).drop_last() =~= s.subrange(0, k));
}

/// Once a prefix fails, the whole sequence fails with the same error.
pub proof fn lemma_collect_error_persists<A, B>(s: Seq<A>, k: int, f: spec_fn(A) -> Result<B, UtxoInquirerErrorView>)
    requires
        0 <= k <= s.len(),
        collect(s.subrange(0, k), f) is Err,
    ensures
        collect(s, f) == collect(s.subrange(0, k), f),
    decreases s.len(),
{
    if s.len() == k {
        assert(s.subrange(0, k) =~= s);
    } else {
        assert(s.drop_last().subrange(0, k) =~= s.subrange(0, k));
        lemma_collect_error_persists(s.drop_last(), k, f);
    }
}

/// A successful collection holds one result per element, each the result of
/// `f` on that element.
pub proof fn lemma_collect_ok<A, B>(s: Seq<A>, f: spec_fn(A) -> Result<B, UtxoInquirerErrorView>)
    ensures
        collect(s, f) matches Ok(bs) ==> bs.len() == s.len() && forall|i: int| 0 <= i < s.len() ==> #[trigger] f(s[i]) == Ok::<B, UtxoInquirerErrorView>(bs[i]),
    decreases s.len(),
{
    if s.len() > 0 {
        lemma_collect_ok(s.drop_last(), f);
        if collect(s, f) is Ok {
            let bs = collect(s, f)->Ok_0;
            assert forall|i: int| 0 <= i < s.len() implies #[trigger] f(s[i]) == Ok::<B, UtxoInquirerErrorView>(bs[i]) by {
                if i < s.len() - 1 {
                    assert(s[i] == s.drop_last()[i]);
                }
            }
        }
    }
}

} // verus!
