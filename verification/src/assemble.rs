use vstd::prelude::*;

use crate::classify::{decoded_summary, is_decrypted_kind, wrapper_summary};
use crate::types::{DecodedTx, TxHashEntryV, TxSummaryV};

verus! {

/// How one "Decrypted" entry was resolved against the store: its full record
/// was absent, or it was found and decoding gave this outcome (`None` when
/// decoding failed).
pub ghost enum Resolution {
    Missing,
    Found(Option<DecodedTx>),
}

/// How many entries of the sequence are tagged "Decrypted"; each of them
/// consumes exactly one resolution during assembly.
pub open spec fn n_decrypted(entries: Seq<TxHashEntryV>) -> nat
    decreases entries.len(),
{
    if entries.len() == 0 {
        0
    } else {
        (if is_decrypted_kind(entries[0].raw_kind) {
            1nat
        } else {
            0nat
        }) + n_decrypted(entries.skip(1))
    }
}

/// How many resolutions report an absent record; each omits one summary.
pub open spec fn n_missing(res: Seq<Resolution>) -> nat
    decreases res.len(),
{
    if res.len() == 0 {
        0
    } else {
        (if res[0] is Missing {
            1nat
        } else {
            0nat
        }) + n_missing(res.skip(1))
    }
}

/// The summary sequence an assembled block carries: entries in stored order,
/// a non-"Decrypted" entry labeled "Wrapper" outright, a "Decrypted" entry
/// consuming the next resolution — omitted when its record was absent,
/// otherwise labeled by its decode outcome.
pub open spec fn summaries_spec(entries: Seq<TxHashEntryV>, res: Seq<Resolution>) -> Seq<
    TxSummaryV,
>
    decreases entries.len(),
{
    if entries.len() == 0 {
        Seq::empty()
    } else if !is_decrypted_kind(entries[0].raw_kind) {
        seq![wrapper_summary(entries[0])] + summaries_spec(entries.skip(1), res)
    } else if res.len() == 0 {
        Seq::empty()
    } else {
        match res[0] {
            Resolution::Missing => summaries_spec(entries.skip(1), res.skip(1)),
            Resolution::Found(d) => seq![decoded_summary(entries[0], d)] + summaries_spec(
                entries.skip(1),
                res.skip(1),
            ),
        }
    }
}

/// Appending an entry keeps the count of "Decrypted" entries additive.
pub proof fn lemma_n_decrypted_push(entries: Seq<TxHashEntryV>, x: TxHashEntryV)
    ensures
        n_decrypted(entries.push(x)) == n_decrypted(entries) + (if is_decrypted_kind(x.raw_kind) {
            1nat
        } else {
            0nat
        }),
    decreases entries.len(),
{
    if entries.len() == 0 {
        assert(entries.push(x)[0] == x);
        assert(entries.push(x).skip(1) =~= entries);
    } else {
        assert(entries.push(x)[0] == entries[0]);
        assert(entries.push(x).skip(1) =~= entries.skip(1).push(x));
        lemma_n_decrypted_push(entries.skip(1), x);
    }
}

/// Classifying one more non-"Decrypted" entry appends exactly its "Wrapper"
/// summary.
pub proof fn lemma_summaries_push_wrapper(
    entries: Seq<TxHashEntryV>,
    res: Seq<Resolution>,
    x: TxHashEntryV,
)
    requires
        !is_decrypted_kind(x.raw_kind),
        res.len() == n_decrypted(entries),
    ensures
        summaries_spec(entries.push(x), res) == summaries_spec(entries, res).push(
            wrapper_summary(x),
        ),
    decreases entries.len(),
{
    if entries.len() == 0 {
        assert(entries.push(x)[0] == x);
        assert(entries.push(x).skip(1) =~= entries);
        assert(summaries_spec(entries.push(x), res) =~= summaries_spec(entries, res).push(
            wrapper_summary(x),
        ));
    } else {
        let e0 = entries[0];
        assert(entries.push(x)[0] == e0);
        assert(entries.push(x).skip(1) =~= entries.skip(1).push(x));
        if !is_decrypted_kind(e0.raw_kind) {
            lemma_summaries_push_wrapper(entries.skip(1), res, x);
            assert(summaries_spec(entries.push(x), res) =~= summaries_spec(entries, res).push(
                wrapper_summary(x),
            ));
        } else {
            assert(res.len() >= 1);
            match res[0] {
                Resolution::Missing => {
                    lemma_summaries_push_wrapper(entries.skip(1), res.skip(1), x);
                    assert(summaries_spec(entries.push(x), res) =~= summaries_spec(
                        entries,
                        res,
                    ).push(wrapper_summary(x)));
                },
                Resolution::Found(d) => {
                    lemma_summaries_push_wrapper(entries.skip(1), res.skip(1), x);
                    assert(summaries_spec(entries.push(x), res) =~= summaries_spec(
                        entries,
                        res,
                    ).push(wrapper_summary(x)));
                },
            }
        }
    }
}

/// Classifying one more "Decrypted" entry with its resolution appends its
/// decoded summary, or omits it when the record was absent.
pub proof fn lemma_summaries_push_decrypted(
    entries: Seq<TxHashEntryV>,
    res: Seq<Resolution>,
    x: TxHashEntryV,
    r: Resolution,
)
    requires
        is_decrypted_kind(x.raw_kind),
        res.len() == n_decrypted(entries),
    ensures
        summaries_spec(entries.push(x), res.push(r)) == (match r {
            Resolution::Missing => summaries_spec(entries, res),
            Resolution::Found(d) => summaries_spec(entries, res).push(decoded_summary(x, d)),
        }),
    decreases entries.len(),
{
    if entries.len() == 0 {
        assert(entries.push(x)[0] == x);
        assert(entries.push(x).skip(1) =~= entries);
        assert(res.push(r)[0] == r);
        assert(res.push(r).skip(1) =~= res);
        match r {
            Resolution::Missing => {
                assert(summaries_spec(entries.push(x), res.push(r)) =~= summaries_spec(
                    entries,
                    res,
                ));
            },
            Resolution::Found(d) => {
                assert(summaries_spec(entries.push(x), res.push(r)) =~= summaries_spec(
                    entries,
                    res,
                ).push(decoded_summary(x, d)));
            },
        }
    } else {
        let e0 = entries[0];
        assert(entries.push(x)[0] == e0);
        assert(entries.push(x).skip(1) =~= entries.skip(1).push(x));
        if !is_decrypted_kind(e0.raw_kind) {
            lemma_summaries_push_decrypted(entries.skip(1), res, x, r);
            match r {
                Resolution::Missing => {
                    assert(summaries_spec(entries.push(x), res.push(r)) =~= summaries_spec(
                        entries,
                        res,
                    ));
                },
                Resolution::Found(d) => {
                    assert(summaries_spec(entries.push(x), res.push(r)) =~= summaries_spec(
                        entries,
                        res,
                    ).push(decoded_summary(x, d)));
                },
            }
        } else {
            assert(res.len() >= 1);
            assert(res.push(r)[0] == res[0]);
            assert(res.push(r).skip(1) =~= res.skip(1).push(r));
            lemma_summaries_push_decrypted(entries.skip(1), res.skip(1), x, r);
            match r {
                Resolution::Missing => {
                    assert(summaries_spec(entries.push(x), res.push(r)) =~= summaries_spec(
                        entries,
                        res,
                    ));
                },
                Resolution::Found(d) => {
                    assert(summaries_spec(entries.push(x), res.push(r)) =~= summaries_spec(
                        entries,
                        res,
                    ).push(decoded_summary(x, d)));
                },
            }
        }
    }
}

/// Assembly drops exactly the entries whose record was absent: the summary
/// count is the entry count minus the number of absent records. With every
/// record present that is one summary per entry; with exactly one absent it
/// is one fewer.
pub proof fn lemma_summary_count(entries: Seq<TxHashEntryV>, res: Seq<Resolution>)
    requires
        res.len() == n_decrypted(entries),
    ensures
        summaries_spec(entries, res).len() + n_missing(res) == entries.len(),
    decreases entries.len(),
{
    if entries.len() == 0 {
    } else {
        let e0 = entries[0];
        if !is_decrypted_kind(e0.raw_kind) {
            lemma_summary_count(entries.skip(1), res);
        } else {
            assert(res.len() >= 1);
            assert(n_missing(res) == (if res[0] is Missing {
                1nat
            } else {
                0nat
            }) + n_missing(res.skip(1)));
            lemma_summary_count(entries.skip(1), res.skip(1));
        }
    }
}

/// With every referenced record present, assembly keeps exactly one summary
/// per entry, in stored order, each keeping its own entry's hash, a
/// non-"Decrypted" entry labeled "Wrapper" and a "Decrypted" one labeled by
/// its decode outcome.
pub proof fn lemma_all_found_order(entries: Seq<TxHashEntryV>, res: Seq<Resolution>)
    requires
        res.len() == n_decrypted(entries),
        forall|i: int| 0 <= i < res.len() ==> !(#[trigger] res[i] is Missing),
    ensures
        summaries_spec(entries, res).len() == entries.len(),
        forall|i: int|
            0 <= i < entries.len() ==> (#[trigger] summaries_spec(entries, res)[i]).hash
                == entries[i].hash,
        forall|i: int|
            0 <= i < entries.len() && !is_decrypted_kind(entries[i].raw_kind) ==> (
            #[trigger] summaries_spec(entries, res)[i]) == wrapper_summary(entries[i]),
    decreases entries.len(),
{
    if entries.len() == 0 {
    } else {
        let e0 = entries[0];
        let out = summaries_spec(entries, res);
        if !is_decrypted_kind(e0.raw_kind) {
            lemma_all_found_order(entries.skip(1), res);
            let rest = summaries_spec(entries.skip(1), res);
            assert forall|i: int| 0 <= i < entries.len() implies (#[trigger] out[i]).hash
                == entries[i].hash by {
                if i > 0 {
                    assert(out[i] == rest[i - 1]);
                    assert(entries[i] == entries.skip(1)[i - 1]);
                }
            }
            assert forall|i: int|
                0 <= i < entries.len() && !is_decrypted_kind(entries[i].raw_kind) implies (
            #[trigger] out[i]) == wrapper_summary(entries[i]) by {
                if i > 0 {
                    assert(out[i] == rest[i - 1]);
                    assert(entries[i] == entries.skip(1)[i - 1]);
                }
            }
        } else {
            assert(res.len() >= 1);
            assert(!(res[0] is Missing));
            let d = res[0]->Found_0;
            assert forall|i: int| 0 <= i < res.skip(1).len() implies !(#[trigger] res.skip(1)[i]
                is Missing) by {
                assert(res.skip(1)[i] == res[i + 1]);
            }
            lemma_all_found_order(entries.skip(1), res.skip(1));
            let rest = summaries_spec(entries.skip(1), res.skip(1));
            assert forall|i: int| 0 <= i < entries.len() implies (#[trigger] out[i]).hash
                == entries[i].hash by {
                if i > 0 {
                    assert(out[i] == rest[i - 1]);
                    assert(entries[i] == entries.skip(1)[i - 1]);
                }
            }
            assert forall|i: int|
                0 <= i < entries.len() && !is_decrypted_kind(entries[i].raw_kind) implies (
            #[trigger] out[i]) == wrapper_summary(entries[i]) by {
                if i > 0 {
                    assert(out[i] == rest[i - 1]);
                    assert(entries[i] == entries.skip(1)[i - 1]);
                }
            }
        }
    }
}

} // verus!
