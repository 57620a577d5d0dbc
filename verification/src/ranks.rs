use vstd::prelude::*;

use crate::errors::AppError;

verus! {

/// The ranks of a list appended to an empty view: each one generated after the one before
/// (`between(prev, None)`), the first with no neighbour at all.
pub open spec fn chained_after<F: Fn(Option<String>, Option<String>) -> Result<String, AppError>>(
    between: F,
    ranks: Seq<String>,
) -> bool {
    forall|i: int|
        0 <= i < ranks.len() ==> call_ensures(
            between,
            (if i == 0 { None::<String> } else { Some(ranks[i - 1]) }, None::<String>),
            Ok::<String, AppError>(#[trigger] ranks[i]),
        )
}

/// The ranks of a list put in front of a view whose first rank is `first`: generated from
/// the back, each one before the one after it (`between(None, next)`), the last one before
/// `first`.
pub open spec fn chained_before<F: Fn(Option<String>, Option<String>) -> Result<String, AppError>>(
    between: F,
    first: String,
    ranks: Seq<String>,
) -> bool {
    forall|i: int|
        0 <= i < ranks.len() ==> call_ensures(
            between,
            (None::<String>, Some(if i == ranks.len() - 1 { first } else { ranks[i + 1] })),
            Ok::<String, AppError>(#[trigger] ranks[i]),
        )
}

/// The error came from one of the calls of `between`.
pub open spec fn error_from<F: Fn(Option<String>, Option<String>) -> Result<String, AppError>>(
    between: F,
    e: AppError,
) -> bool {
    exists|a: Option<String>, b: Option<String>| call_ensures(between, (a, b), Err::<String, AppError>(e))
}

pub open spec fn ranks_for<F: Fn(Option<String>, Option<String>) -> Result<String, AppError>>(
    between: F,
    existing_first: Option<String>,
    n: nat,
    r: Result<Seq<String>, AppError>,
) -> bool {
    match r {
        Ok(v) => v.len() == n && match existing_first {
            None => chained_after(between, v),
            Some(first) => chained_before(between, first, v),
        },
        Err(e) => error_from(between, e),
    }
}

pub open spec fn seq_result(r: Result<Vec<String>, AppError>) -> Result<Seq<String>, AppError> {
    match r {
        Ok(v) => Ok(v@),
        Err(e) => Err(e),
    }
}

fn copy_opt(o: &Option<String>) -> (r: Option<String>)
    ensures
        r == *o,
{
    match o {
        Some(s) => Some(s.clone()),
        None => None,
    }
}

/// `n` ranks for items put, in order, at the end of an empty view (`existing_first` is
/// `None`) or in front of the view's first rank. `between(prev, next)` makes a rank
/// between two neighbours; its first error stops the work.
pub fn chain_ranks<F: Fn(Option<String>, Option<String>) -> Result<String, AppError>>(
    existing_first: &Option<String>,
    n: usize,
    between: &F,
) -> (r: Result<Vec<String>, AppError>)
    requires
        forall|a: Option<String>, b: Option<String>| call_requires(*between, (a, b)),
    ensures
        ranks_for(*between, *existing_first, n as nat, seq_result(r)),
{
    match existing_first {
        None => {
            let mut out: Vec<String> = Vec::new();
            let mut prev: Option<String> = None;
            let mut i: usize = 0;
            while i < n
                invariant
                    i <= n,
                    out@.len() == i,
                    forall|a: Option<String>, b: Option<String>| call_requires(*between, (a, b)),
                    chained_after(*between, out@),
                    i == 0 ==> prev is None,
                    i > 0 ==> prev == Some(out@[i - 1]),
                decreases n - i,
            {
                let arg = copy_opt(&prev);
                let rank = match between(arg, None) {
                    Ok(x) => x,
                    Err(e) => {
                        return Err(e);
                    },
                };
                let ghost before = out@;
                out.push(rank.clone());
                proof {
                    assert forall|k: int| 0 <= k < out@.len() implies call_ensures(
                        *between,
                        (if k == 0 { None::<String> } else { Some(out@[k - 1]) }, None::<String>),
                        Ok::<String, AppError>(#[trigger] out@[k]),
                    ) by {
                        if k < i {
                            assert(out@[k] == before[k]);
                            if k > 0 {
                                assert(out@[k - 1] == before[k - 1]);
                            }
                        }
                    }
                }
                prev = Some(rank);
                i = i + 1;
            }
            Ok(out)
        },
        Some(first) => {
            // `rev[k]` is the rank of item `n - 1 - k`.
            let mut rev: Vec<String> = Vec::new();
            let mut anchor: String = first.clone();
            let mut k: usize = 0;
            while k < n
                invariant
                    k <= n,
                    rev@.len() == k,
                    forall|a: Option<String>, b: Option<String>| call_requires(*between, (a, b)),
                    k == 0 ==> anchor == *first,
                    k > 0 ==> anchor == rev@[k - 1],
                    forall|j: int|
                        0 <= j < k ==> call_ensures(
                            *between,
                            (None::<String>, Some(if j == 0 { *first } else { rev@[j - 1] })),
                            Ok::<String, AppError>(#[trigger] rev@[j]),
                        ),
                decreases n - k,
            {
                let rank = match between(None, Some(anchor.clone())) {
                    Ok(x) => x,
                    Err(e) => {
                        return Err(e);
                    },
                };
                let ghost before = rev@;
                rev.push(rank.clone());
                proof {
                    assert forall|j: int| 0 <= j < rev@.len() implies call_ensures(
                        *between,
                        (None::<String>, Some(if j == 0 { *first } else { rev@[j - 1] })),
                        Ok::<String, AppError>(#[trigger] rev@[j]),
                    ) by {
                        if j < k {
                            assert(rev@[j] == before[j]);
                            if j > 0 {
                                assert(rev@[j - 1] == before[j - 1]);
                            }
                        }
                    }
                }
                anchor = rank;
                k = k + 1;
            }
            let mut out: Vec<String> = Vec::new();
            let mut i: usize = 0;
            while i < n
                invariant
                    i <= n,
                    rev@.len() == n,
                    out@.len() == i,
                    forall|m: int| 0 <= m < i ==> out@[m] == rev@[n - 1 - m],
                decreases n - i,
            {
                out.push(rev[n - 1 - i].clone());
                i = i + 1;
            }
            proof {
                assert forall|m: int| 0 <= m < out@.len() implies call_ensures(
                    *between,
                    (None::<String>, Some(if m == out@.len() - 1 { *first } else { out@[m + 1] })),
                    Ok::<String, AppError>(#[trigger] out@[m]),
                ) by {
                    let j = n - 1 - m;
                    assert(out@[m] == rev@[j]);
                    if m < n - 1 {
                        assert(out@[m + 1] == rev@[j - 1]);
                    }
                }
            }
            Ok(out)
        },
    }
}

} // verus!
