//! Ambiguity resolution: which of the overlapping candidates of a parse are
//! returned to the caller.
use vstd::prelude::*;
use crate::dimension::Dimension;

verus! {

/// A value found over the span `[start, end)` of the input.
#[derive(Clone, Debug, PartialEq)]
pub struct Candidate {
    pub start: usize,
    pub end: usize,
    pub value: Dimension,
}

impl Candidate {
    pub open spec fn len(self) -> int {
        self.end - self.start
    }

    pub open spec fn overlaps(self, o: Candidate) -> bool {
        self.start < o.end && o.start < self.end
    }

    pub open spec fn same_span(self, o: Candidate) -> bool {
        self.start == o.start && self.end == o.end
    }
}

/// Some candidate overlaps `c` and covers a longer span.
pub open spec fn dominated(c: Candidate, cands: Seq<Candidate>) -> bool {
    exists|j: int| 0 <= j < cands.len() && cands[j].overlaps(c) && #[trigger] cands[j].len() > c.len()
}

/// An earlier candidate has the same span and the same value as the `i`-th.
pub open spec fn duplicate_before(cands: Seq<Candidate>, i: int) -> bool {
    exists|j: int| 0 <= j < i && #[trigger] cands[j].same_span(cands[i]) && cands[j].value == cands[i].value
}

/// The `i`-th candidate is returned: no overlapping candidate is longer, and it
/// is the first of its span and value.
pub open spec fn kept(cands: Seq<Candidate>, i: int) -> bool {
    !dominated(cands[i], cands) && !duplicate_before(cands, i)
}

/// The candidates among the first `n` that are kept, in their order.
pub open spec fn resolved_prefix(cands: Seq<Candidate>, n: nat) -> Seq<Candidate>
    decreases n,
{
    if n == 0 || n > cands.len() {
        seq![]
    } else if kept(cands, n - 1) {
        resolved_prefix(cands, (n - 1) as nat).push(cands[n - 1])
    } else {
        resolved_prefix(cands, (n - 1) as nat)
    }
}

/// The candidates returned to the caller, in the order they were found.
pub open spec fn resolved(cands: Seq<Candidate>) -> Seq<Candidate> {
    resolved_prefix(cands, cands.len())
}

fn is_dominated(cands: &Vec<Candidate>, i: usize) -> (r: bool)
    requires
        i < cands@.len(),
    ensures
        r == dominated(cands@[i as int], cands@),
{
    let c = &cands[i];
    let mut j: usize = 0;
    while j < cands.len()
        invariant
            i < cands@.len(),
            *c == cands@[i as int],
            j <= cands@.len(),
            forall|k: int|
                0 <= k < j ==> !(cands@[k].overlaps(*c) && #[trigger] cands@[k].len() > c.len()),
        decreases cands@.len() - j,
    {
        let d = &cands[j];
        if d.start < c.end && c.start < d.end && (d.end as i128) - (d.start as i128) > (c.end as i128)
            - (c.start as i128) {
            assert(cands@[j as int].len() > c.len());
            return true;
        }
        j = j + 1;
    }
    false
}

fn has_duplicate_before(cands: &Vec<Candidate>, i: usize) -> (r: bool)
    requires
        i < cands@.len(),
    ensures
        r == duplicate_before(cands@, i as int),
{
    let c = &cands[i];
    let mut j: usize = 0;
    while j < i
        invariant
            i < cands@.len(),
            *c == cands@[i as int],
            j <= i,
            forall|k: int|
                0 <= k < j ==> !(#[trigger] cands@[k].same_span(*c) && cands@[k].value == c.value),
        decreases i - j,
    {
        let d = &cands[j];
        if d.start == c.start && d.end == c.end && d.value.same(&c.value) {
            assert(cands@[j as int].same_span(*c));
            return true;
        }
        j = j + 1;
    }
    false
}

/// Keeps, in order, each candidate that no overlapping candidate outspans and
/// that repeats no earlier candidate's span and value. Candidates of one span
/// with different values are all kept.
pub fn resolve(cands: &Vec<Candidate>) -> (r: Vec<Candidate>)
    ensures
        r@ == resolved(cands@),
{
    let mut out: Vec<Candidate> = Vec::new();
    let mut i: usize = 0;
    while i < cands.len()
        invariant
            i <= cands@.len(),
            out@ == resolved_prefix(cands@, i as nat),
        decreases cands@.len() - i,
    {
        if !is_dominated(cands, i) && !has_duplicate_before(cands, i) {
            let c = &cands[i];
            out.push(Candidate { start: c.start, end: c.end, value: c.value.copy() });
        }
        i = i + 1;
    }
    out
}

proof fn lemma_prefix_contains(cands: Seq<Candidate>, n: nat, i: int)
    requires
        0 <= i < n <= cands.len(),
        kept(cands, i),
    ensures
        resolved_prefix(cands, n).contains(cands[i]),
    decreases n,
{
    if i < n - 1 {
        lemma_prefix_contains(cands, (n - 1) as nat, i);
        let prev = resolved_prefix(cands, (n - 1) as nat);
        let k = choose|k: int| 0 <= k < prev.len() && prev[k] == cands[i];
        if kept(cands, n - 1) {
            assert(prev.push(cands[n - 1])[k] == cands[i]);
        }
    } else {
        let prev = resolved_prefix(cands, (n - 1) as nat);
        assert(prev.push(cands[n - 1])[prev.len() as int] == cands[i]);
    }
}

proof fn lemma_prefix_members_kept(cands: Seq<Candidate>, n: nat, x: Candidate)
    requires
        n <= cands.len(),
        resolved_prefix(cands, n).contains(x),
    ensures
        exists|i: int| 0 <= i < n && cands[i] == x && kept(cands, i),
    decreases n,
{
    if n > 0 {
        let prev = resolved_prefix(cands, (n - 1) as nat);
        if prev.contains(x) {
            lemma_prefix_members_kept(cands, (n - 1) as nat, x);
        } else {
            let k = choose|k: int| 0 <= k < resolved_prefix(cands, n).len() && resolved_prefix(cands, n)[k] == x;
            assert(kept(cands, n - 1));
            assert(k == prev.len());
            assert(cands[n - 1] == x);
        }
    }
}

/// A candidate is returned exactly when no overlapping candidate covers a
/// longer span and no earlier candidate has its span and value: so a candidate
/// strictly inside a longer one is dropped, and candidates of one span with
/// different values are returned together.
pub proof fn lemma_resolution(cands: Seq<Candidate>, i: int, j: int)
    requires
        0 <= i < cands.len(),
        0 <= j < cands.len(),
    ensures
        kept(cands, i) ==> resolved(cands).contains(cands[i]),
        (cands[j].start <= cands[i].start && cands[i].end <= cands[j].end && cands[j].len()
            > cands[i].len() && cands[i].len() > 0) ==> !kept(cands, i),
        forall|x: Candidate| #[trigger]
            resolved(cands).contains(x) ==> exists|k: int|
                0 <= k < cands.len() && cands[k] == x && kept(cands, k),
{
    if kept(cands, i) {
        lemma_prefix_contains(cands, cands.len(), i);
    }
    if cands[j].start <= cands[i].start && cands[i].end <= cands[j].end && cands[j].len()
        > cands[i].len() && cands[i].len() > 0 {
        assert(cands[j].overlaps(cands[i]));
    }
    assert forall|x: Candidate| #[trigger] resolved(cands).contains(x) implies exists|k: int|
        0 <= k < cands.len() && cands[k] == x && kept(cands, k) by {
        lemma_prefix_members_kept(cands, cands.len(), x);
    }
}

} // verus!
