//! Mass-validation of deployment templates against a remote platform.
//!
//! The crate holds the decision logic of the validation pipeline: the
//! request builder that turns a parsed template configuration into a
//! deploy request, the polling state machines for workflow and build
//! completion, the cleanup guarantee that ties every failure after a
//! confirmed deploy back to a project deletion, and the merging of
//! per-chunk run reports. The surrounding process — HTTP transport,
//! timers, filesystem output — drives these decisions from outside.

pub mod environment;
pub mod error;
pub mod pipeline;
pub mod railway;

use vstd::prelude::*;

use crate::error::Error;
use crate::railway::template::Template;
use rand::seq::SliceRandom;

verus! {

/// The accumulated outcome of one chunk of templates, and, after
/// merging, of a whole run: how many templates were attempted, how many
/// reached a completed workflow, and every error recorded on the way.
#[derive(Debug)]
pub struct Run {
    pub total: u64,
    pub valid: u64,
    pub errors: Vec<Error>,
}

/// The sum of `total` over a sequence of chunk results.
pub open spec fn merged_total(rs: Seq<Run>) -> int
    decreases rs.len(),
{
    if rs.len() == 0 {
        0
    } else {
        merged_total(rs.drop_last()) + rs.last().total
    }
}

/// The sum of `valid` over a sequence of chunk results.
pub open spec fn merged_valid(rs: Seq<Run>) -> int
    decreases rs.len(),
{
    if rs.len() == 0 {
        0
    } else {
        merged_valid(rs.drop_last()) + rs.last().valid
    }
}

/// The concatenation of the error lists of a sequence of chunk results.
pub open spec fn merged_errors(rs: Seq<Run>) -> Seq<Error>
    decreases rs.len(),
{
    if rs.len() == 0 {
        Seq::empty()
    } else {
        merged_errors(rs.drop_last()) + rs.last().errors@
    }
}

impl Run {
    /// An empty accumulator.
    pub fn new() -> (r: Run)
        ensures
            r.total == 0,
            r.valid == 0,
            r.errors@ == Seq::<Error>::empty(),
    {
        Run { total: 0, valid: 0, errors: Vec::new() }
    }

    /// Folds another chunk's result into this one: counts are summed and
    /// the error lists are concatenated.
    pub fn merge(&mut self, other: Run)
        requires
            old(self).total + other.total <= u64::MAX,
            old(self).valid + other.valid <= u64::MAX,
        ensures
            final(self).total == old(self).total + other.total,
            final(self).valid == old(self).valid + other.valid,
            final(self).errors@ == old(self).errors@ + other.errors@,
    {
        let mut other = other;
        self.total = self.total + other.total;
        self.valid = self.valid + other.valid;
        self.errors.append(&mut other.errors);
    }
}

/// Merges the results of all chunk workers, in the order they finished,
/// into the final run report.
pub fn merge_all(runs: Vec<Run>) -> (r: Run)
    requires
        merged_total(runs@) <= u64::MAX,
        merged_valid(runs@) <= u64::MAX,
    ensures
        r.total == merged_total(runs@),
        r.valid == merged_valid(runs@),
        r.errors@ == merged_errors(runs@),
{
    let mut acc = Run::new();
    let mut runs = runs;
    let ghost all: Seq<Run> = runs@;
    let ghost mut i: int = 0;
    while runs.len() > 0
        invariant
            0 <= i <= all.len(),
            runs@ == all.skip(i),
            acc.total == merged_total(all.take(i)),
            acc.valid == merged_valid(all.take(i)),
            acc.errors@ == merged_errors(all.take(i)),
            merged_total(all) <= u64::MAX,
            merged_valid(all) <= u64::MAX,
        decreases runs.len(),
    {
        proof {
            lemma_merged_prefix_bound(all, i + 1);
            assert(all.take(i + 1).drop_last() =~= all.take(i));
            assert(all.take(i + 1).last() == all[i]);
        }
        let next = runs.remove(0);
        proof {
            assert(all.skip(i)[0] == all[i]);
            assert(all.skip(i).remove(0) =~= all.skip(i + 1));
        }
        acc.merge(next);
        proof {
            i = i + 1;
        }
    }
    proof {
        assert(all.take(i) =~= all);
    }
    acc
}

/// The templates of a sequence of chunks, in chunk order.
pub open spec fn concat_chunks(chunks: Seq<Vec<Template>>) -> Seq<Template>
    decreases chunks.len(),
{
    if chunks.len() == 0 {
        Seq::empty()
    } else {
        concat_chunks(chunks.drop_last()) + chunks.last()@
    }
}

/// Shuffles the template list in place before it is partitioned.
///
/// Relies on rand's `SliceRandom::shuffle`: an in-place permutation of
/// the slice, picked uniformly, so the list afterwards holds exactly the
/// same templates.
#[verifier::external_body]
pub fn shuffle_templates(templates: &mut Vec<Template>)
    ensures
        final(templates)@.len() == old(templates)@.len(),
        final(templates)@.to_multiset() == old(templates)@.to_multiset(),
{
    templates.shuffle(&mut rand::rng());
}

/// Splits the template list into the given number of contiguous chunks,
/// one per worker: concatenating the chunks gives back the list, and the
/// sizes are balanced — the first `len % chunks` chunks hold one template
/// more than the rest.
pub fn partition(templates: Vec<Template>, chunks: usize) -> (r: Vec<Vec<Template>>)
    requires
        1 <= chunks,
    ensures
        r@.len() == chunks,
        concat_chunks(r@) == templates@,
        forall|i: int|
            0 <= i < chunks ==> #[trigger] r@[i]@.len() == templates@.len() as int / (
            chunks as int) + (
            if i < templates@.len() as int % (chunks as int) {
                1int
            } else {
                0int
            }),
{
    let n = templates.len();
    let base = n / chunks;
    let rem = n % chunks;
    let mut ts = templates;
    let ghost all: Seq<Template> = ts@;
    let mut r: Vec<Vec<Template>> = Vec::new();
    let ghost mut consumed: int = 0;
    let mut i: usize = 0;
    proof {
        vstd::arithmetic::div_mod::lemma_fundamental_div_mod(n as int, chunks as int);
    }
    while i < chunks
        invariant
            1 <= chunks,
            i <= chunks,
            n == all.len(),
            base == n as int / chunks as int,
            rem == n as int % chunks as int,
            n as int == chunks as int * base + rem,
            r@.len() == i,
            consumed == i * base + (if i <= rem {
                i as int
            } else {
                rem as int
            }),
            0 <= consumed <= n,
            ts@ == all.skip(consumed),
            concat_chunks(r@) == all.take(consumed),
            forall|t: int|
                0 <= t < i ==> #[trigger] r@[t]@.len() == base + (if t < rem {
                    1int
                } else {
                    0int
                }),
        decreases chunks - i,
    {
        proof {
            assert(chunks as int * base >= base) by (nonlinear_arith)
                requires
                    chunks as int >= 1,
                    base >= 0,
            ;
        }
        let size = if i < rem {
            base + 1
        } else {
            base
        };
        proof {
            assert((i + 1) * base == i * base + base) by (nonlinear_arith);
            assert((i + 1) * base <= chunks as int * base) by (nonlinear_arith)
                requires
                    i + 1 <= chunks as int,
                    base >= 0,
            ;
            assert(consumed + size <= n);
        }
        let mut chunk: Vec<Template> = Vec::new();
        let mut c: usize = 0;
        while c < size
            invariant
                c <= size,
                chunk@.len() == c,
                n == all.len(),
                0 <= consumed,
                consumed + size <= n,
                ts@ == all.skip(consumed + c),
                chunk@ == all.subrange(consumed, consumed + c),
            decreases size - c,
        {
            proof {
                assert(all.skip(consumed + c)[0] == all[consumed + c]);
                assert(all.skip(consumed + c).remove(0) =~= all.skip(consumed + c + 1));
            }
            let x = ts.remove(0);
            chunk.push(x);
            proof {
                assert(chunk@ =~= all.subrange(consumed, consumed + c + 1));
            }
            c = c + 1;
        }
        let ghost before: Seq<Vec<Template>> = r@;
        r.push(chunk);
        proof {
            assert(r@.drop_last() =~= before);
            assert(concat_chunks(r@) == concat_chunks(before) + r@.last()@);
            assert(all.take(consumed) + all.subrange(consumed, consumed + size) =~= all.take(
                consumed + size,
            ));
            consumed = consumed + size;
        }
        i = i + 1;
    }
    proof {
        assert(consumed == n);
        assert(all.take(n as int) =~= all);
    }
    r
}

/// Removing one chunk result from a sequence subtracts exactly its own
/// contribution from the merged counts and from the merged error multiset.
proof fn lemma_merged_remove(rs: Seq<Run>, i: int)
    requires
        0 <= i < rs.len(),
    ensures
        merged_total(rs) == merged_total(rs.remove(i)) + rs[i].total,
        merged_valid(rs) == merged_valid(rs.remove(i)) + rs[i].valid,
        merged_errors(rs).to_multiset() == merged_errors(rs.remove(i)).to_multiset().add(
            rs[i].errors@.to_multiset(),
        ),
    decreases rs.len(),
{
    broadcast use vstd::multiset::group_multiset_axioms;

    if i == rs.len() - 1 {
        assert(rs.remove(i) =~= rs.drop_last());
        vstd::seq_lib::lemma_multiset_commutative(merged_errors(rs.drop_last()), rs[i].errors@);
    } else {
        let r = rs.drop_last();
        lemma_merged_remove(r, i);
        assert(rs.remove(i).drop_last() =~= r.remove(i));
        assert(rs.remove(i).last() == rs.last());
        vstd::seq_lib::lemma_multiset_commutative(merged_errors(r), rs.last().errors@);
        vstd::seq_lib::lemma_multiset_commutative(
            merged_errors(r.remove(i)),
            rs.last().errors@,
        );
        assert(merged_errors(rs).to_multiset() =~= merged_errors(rs.remove(i)).to_multiset().add(
            rs[i].errors@.to_multiset(),
        ));
    }
}

/// Merge commutativity: however the finished chunk results are interleaved,
/// the merged run report is the same — counts are equal and the error lists
/// hold the same errors, as a multiset.
pub proof fn lemma_merge_order_independent(a: Seq<Run>, b: Seq<Run>)
    requires
        a.to_multiset() == b.to_multiset(),
    ensures
        merged_total(a) == merged_total(b),
        merged_valid(a) == merged_valid(b),
        merged_errors(a).to_multiset() == merged_errors(b).to_multiset(),
    decreases a.len(),
{
    broadcast use vstd::seq_lib::group_to_multiset_ensures;
    broadcast use vstd::multiset::group_multiset_axioms;

    if a.len() == 0 {
        vstd::seq_lib::to_multiset_len(a);
        vstd::seq_lib::to_multiset_len(b);
        assert(b.len() == 0);
    } else {
        let ai = a.len() - 1;
        let x = a[ai];
        assert(a.contains(x));
        assert(b.to_multiset().count(x) > 0);
        assert(b.contains(x));
        let j = choose|j: int| 0 <= j < b.len() && b[j] == x;
        assert(a.remove(ai).to_multiset() =~= b.remove(j).to_multiset());
        lemma_merge_order_independent(a.remove(ai), b.remove(j));
        lemma_merged_remove(a, ai);
        lemma_merged_remove(b, j);
        assert(merged_errors(a).to_multiset() =~= merged_errors(b).to_multiset());
    }
}

/// Every prefix sum of `total` and `valid` is bounded by the full sum,
/// since both fields are unsigned.
proof fn lemma_merged_prefix_bound(rs: Seq<Run>, k: int)
    requires
        0 <= k <= rs.len(),
    ensures
        merged_total(rs.take(k)) <= merged_total(rs),
        merged_valid(rs.take(k)) <= merged_valid(rs),
    decreases rs.len(),
{
    if rs.len() > 0 && k < rs.len() {
        assert(rs.drop_last().take(k) =~= rs.take(k));
        lemma_merged_prefix_bound(rs.drop_last(), k);
    } else if k == rs.len() {
        assert(rs.take(k) =~= rs);
    }
}

} // verus!
