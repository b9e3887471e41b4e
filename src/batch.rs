//! The outcome of a batch of downloads run side by side: every result where
//! all succeeded, else the first failure.
use vstd::prelude::*;

use crate::error::{DownloadError, DownloadResult};

verus! {

pub open spec fn all_ok(rs: Seq<Result<DownloadResult, DownloadError>>) -> bool {
    forall|i: int| 0 <= i < rs.len() ==> (#[trigger] rs[i]) is Ok
}

/// Gathers the per-download outcomes of a batch, in the order given. The
/// batch succeeds with every result where every download succeeded, and
/// otherwise fails with the first failure in that order.
pub fn collect_batch(results: Vec<Result<DownloadResult, DownloadError>>) -> (r: Result<
    Vec<DownloadResult>,
    DownloadError,
>)
    ensures
        r is Ok <==> all_ok(results@),
        r matches Ok(v) ==> {
            &&& v@.len() == results@.len()
            &&& forall|i: int|
                0 <= i < v@.len() ==> results@[i] == Ok::<DownloadResult, DownloadError>(
                    #[trigger] v@[i],
                )
        },
        r matches Err(e) ==> exists|i: int|
            0 <= i < results@.len() && results@[i] == Err::<DownloadResult, DownloadError>(e)
                && all_ok(results@.subrange(0, i)),
{
    let ghost orig = results@;
    let mut rest = results;
    let mut out: Vec<DownloadResult> = Vec::new();
    while rest.len() > 0
        invariant
            orig == results@,
            out@.len() + rest@.len() == orig.len(),
            rest@ == orig.subrange(out@.len() as int, orig.len() as int),
            forall|j: int|
                0 <= j < out@.len() ==> orig[j] == Ok::<DownloadResult, DownloadError>(
                    #[trigger] out@[j],
                ),
        decreases rest@.len(),
    {
        let ghost k = out@.len() as int;
        let item = rest.remove(0);
        assert(item == orig[k]);
        match item {
            Ok(d) => {
                out.push(d);
                assert(rest@ =~= orig.subrange(out@.len() as int, orig.len() as int));
            },
            Err(e) => {
                assert(all_ok(orig.subrange(0, k))) by {
                    assert forall|j: int| 0 <= j < k implies (#[trigger] orig.subrange(0, k)[j]) is Ok by {
                        assert(orig[j] == Ok::<DownloadResult, DownloadError>(out@[j]));
                    }
                }
                assert(!all_ok(orig)) by {
                    assert(orig[k] is Err);
                }
                assert(orig[k] == Err::<DownloadResult, DownloadError>(e));
                return Err(e);
            },
        }
    }
    assert(all_ok(orig)) by {
        assert forall|j: int| 0 <= j < orig.len() implies (#[trigger] orig[j]) is Ok by {
            assert(orig[j] == Ok::<DownloadResult, DownloadError>(out@[j]));
        }
    }
    Ok(out)
}

} // verus!
