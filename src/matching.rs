//! Matching: rule applications over adjacent spans of tokens and earlier
//! candidates, applied round after round until nothing new appears.
use vstd::prelude::*;
use crate::engine::{
    apply, arg_value, arg_values, fold_tokens, match_word, produce, rule_wf, words, Arg, Pattern,
    Production, RuleSet, word_len,
};
use crate::resolve::{resolve, resolved, Candidate};
use crate::text::folded;

verus! {

/// Position `k` of a match fits pattern `pat` at token position `pos`.
pub open spec fn arg_fits(pat: Pattern, a: Arg, toks: Seq<Seq<char>>, cands: Seq<Candidate>, pos: int) -> bool {
    match (pat, a) {
        (Pattern::Word(c), Arg::Word(s, l)) => s == pos && l == word_len(c, toks, pos) && l > 0,
        (Pattern::Value, Arg::Value(j)) => j < cands.len() && cands[j as int].start == pos,
        _ => false,
    }
}

/// The token position after a position of a match.
pub open spec fn arg_end(a: Arg, cands: Seq<Candidate>) -> int {
    match a {
        Arg::Word(s, l) => s + l,
        Arg::Value(j) => if j < cands.len() {
            cands[j as int].end as int
        } else {
            0
        },
    }
}

/// The token position after the first `k` positions of a match from `start`.
pub open spec fn match_end(args: Seq<Arg>, cands: Seq<Candidate>, start: int, k: int) -> int {
    if k <= 0 {
        start
    } else {
        arg_end(args[k - 1], cands)
    }
}

/// The first `k` positions of `args` fit the first `k` patterns, each
/// starting where the previous one ended.
pub open spec fn matches_prefix(
    pats: Seq<Pattern>,
    args: Seq<Arg>,
    toks: Seq<Seq<char>>,
    cands: Seq<Candidate>,
    start: int,
    k: nat,
) -> bool
    decreases k,
{
    if k == 0 {
        true
    } else {
        matches_prefix(pats, args, toks, cands, start, (k - 1) as nat) && arg_fits(
            pats[k - 1],
            args[k - 1],
            toks,
            cands,
            match_end(args, cands, start, k - 1),
        )
    }
}

/// Candidate `c` is what rule `(pats, prod)` makes of the match `args` over
/// the tokens and the earlier candidates `cands`.
pub open spec fn applies(
    pats: Seq<Pattern>,
    prod: Production,
    toks: Seq<Seq<char>>,
    cands: Seq<Candidate>,
    args: Seq<Arg>,
    c: Candidate,
) -> bool {
    &&& args.len() == pats.len() >= 1
    &&& matches_prefix(pats, args, toks, cands, c.start as int, pats.len())
    &&& c.end == match_end(args, cands, c.start as int, pats.len() as int)
    &&& c.start < c.end <= toks.len()
    &&& produce(prod, toks, args, arg_values(cands, args)) == Some(c.value)
}

/// Some rule of the set makes candidate `c` from the tokens and `cands`.
#[verifier::opaque]
pub open spec fn justified(
    rules: Seq<(Seq<Pattern>, Production)>,
    toks: Seq<Seq<char>>,
    cands: Seq<Candidate>,
    c: Candidate,
) -> bool {
    exists|r: int, args: Seq<Arg>|
        0 <= r < rules.len() && #[trigger] applies(rules[r].0, rules[r].1, toks, cands, args, c)
}

/// Every candidate is made by some rule from the tokens and the candidates before it.
#[verifier::opaque]
pub open spec fn derivation(
    rules: Seq<(Seq<Pattern>, Production)>,
    toks: Seq<Seq<char>>,
    cands: Seq<Candidate>,
) -> bool {
    forall|k: int| 0 <= k < cands.len() ==> justified(rules, toks, cands.take(k), #[trigger] cands[k])
}

proof fn lemma_prefix_of_args(
    pats: Seq<Pattern>,
    a1: Seq<Arg>,
    a2: Seq<Arg>,
    toks: Seq<Seq<char>>,
    cands: Seq<Candidate>,
    start: int,
    k: nat,
)
    requires
        k <= a1.len(),
        k <= a2.len(),
        forall|i: int| 0 <= i < k ==> a1[i] == a2[i],
    ensures
        matches_prefix(pats, a1, toks, cands, start, k) == matches_prefix(pats, a2, toks, cands, start, k),
        match_end(a1, cands, start, k as int) == match_end(a2, cands, start, k as int),
    decreases k,
{
    if k > 0 {
        lemma_prefix_of_args(pats, a1, a2, toks, cands, start, (k - 1) as nat);
    }
}

proof fn lemma_extend_cands(
    pats: Seq<Pattern>,
    args: Seq<Arg>,
    toks: Seq<Seq<char>>,
    s: Seq<Candidate>,
    t: Seq<Candidate>,
    start: int,
    k: nat,
)
    requires
        k <= args.len(),
        s.len() <= t.len(),
        forall|i: int| 0 <= i < s.len() ==> s[i] == t[i],
        matches_prefix(pats, args, toks, s, start, k),
    ensures
        matches_prefix(pats, args, toks, t, start, k),
        match_end(args, s, start, k as int) == match_end(args, t, start, k as int),
        forall|i: int| 0 <= i < k ==> arg_value(s, #[trigger] args[i]) == arg_value(t, args[i]),
    decreases k,
{
    if k > 0 {
        lemma_extend_cands(pats, args, toks, s, t, start, (k - 1) as nat);
    }
}

proof fn lemma_justified_extends(
    rules: Seq<(Seq<Pattern>, Production)>,
    toks: Seq<Seq<char>>,
    s: Seq<Candidate>,
    t: Seq<Candidate>,
    c: Candidate,
)
    requires
        justified(rules, toks, s, c),
        s.len() <= t.len(),
        forall|i: int| 0 <= i < s.len() ==> s[i] == t[i],
    ensures
        justified(rules, toks, t, c),
{
    reveal(justified);
    let (r, args) = choose|r: int, args: Seq<Arg>|
        0 <= r < rules.len() && #[trigger] applies(rules[r].0, rules[r].1, toks, s, args, c);
    let pats = rules[r].0;
    lemma_extend_cands(pats, args, toks, s, t, c.start as int, pats.len());
    assert(arg_values(s, args) =~= arg_values(t, args));
    assert(applies(rules[r].0, rules[r].1, toks, t, args, c));
}

proof fn lemma_matches_shorter(
    pats: Seq<Pattern>,
    args: Seq<Arg>,
    toks: Seq<Seq<char>>,
    cands: Seq<Candidate>,
    start: int,
    k: nat,
    k2: nat,
)
    requires
        k2 <= k,
        matches_prefix(pats, args, toks, cands, start, k),
    ensures
        matches_prefix(pats, args, toks, cands, start, k2),
    decreases k,
{
    if k2 < k {
        lemma_matches_shorter(pats, args, toks, cands, start, (k - 1) as nat, k2);
    }
}

/// The first `k` positions of `a2` are those of `a1`.
pub open spec fn agrees(a1: Seq<Arg>, a2: Seq<Arg>, k: int) -> bool {
    k <= a1.len() && k <= a2.len() && forall|i: int| 0 <= i < k ==> a1[i] == a2[i]
}

/// Extends a partial match of rule `r` at position `args.len()` in every way
/// the tokens and candidates allow, and collects what complete matches
/// produce: each candidate collected is made by the rule, and every candidate
/// the rule makes from an extension of the partial match is collected.
fn search(
    rules: &RuleSet,
    r: usize,
    toks: &Vec<Vec<char>>,
    cands: &Vec<Candidate>,
    start: usize,
    pos: usize,
    args: &mut Vec<Arg>,
    found: &mut Vec<Candidate>,
)
    requires
        r < rules.rules().len(),
        old(args)@.len() <= rules.rules()[r as int].0.len(),
        matches_prefix(rules.rules()[r as int].0, old(args)@, words(toks@), cands@, start as int, old(args)@.len()),
        pos == match_end(old(args)@, cands@, start as int, old(args)@.len() as int),
        forall|k: int| 0 <= k < old(found)@.len() ==> justified(rules.rules(), words(toks@), cands@, #[trigger] old(found)@[k]),
    ensures
        final(args)@ == old(args)@,
        forall|k: int| 0 <= k < final(found)@.len() ==> justified(rules.rules(), words(toks@), cands@, #[trigger] final(found)@[k]),
        old(found)@.len() <= final(found)@.len(),
        forall|k: int| 0 <= k < old(found)@.len() ==> #[trigger] final(found)@[k] == old(found)@[k],
        forall|args2: Seq<Arg>, c: Candidate|
            #[trigger] applies(rules.rules()[r as int].0, rules.rules()[r as int].1, words(toks@), cands@, args2, c)
                && c.start == start && agrees(old(args)@, args2, old(args)@.len() as int)
                ==> final(found)@.contains(c),
    decreases rules.rules()[r as int].0.len() - old(args)@.len(),
{
    let ghost pats = rules.rules()[r as int].0;
    let ghost prod = rules.rules()[r as int].1;
    let ghost tw = words(toks@);
    let ghost found0 = found@;
    let rule = rules.rule_at(r);
    assert(rule.patterns@ == pats);
    let p = args.len();
    if p == rule.patterns.len() {
        if p >= 1 && pos > start && pos <= toks.len() {
            match apply(rule.production, toks, args, cands) {
                Some(v) => {
                    let c = Candidate { start, end: pos, value: v };
                    assert(applies(rules.rules()[r as int].0, rules.rules()[r as int].1, tw, cands@, args@, c));
                    proof {
                        reveal(justified);
                    }
                    found.push(c);
                    assert(found@[found@.len() - 1] == c);
                },
                None => {},
            }
        }
        proof {
            assert forall|args2: Seq<Arg>, c: Candidate|
                #[trigger] applies(pats, prod, tw, cands@, args2, c) && c.start == start && agrees(
                    old(args)@,
                    args2,
                    p as int,
                ) implies found@.contains(c) by {
                assert(args2 =~= old(args)@);
                assert(found@[found@.len() - 1] == c);
            }
        }
        return;
    }
    match rule.patterns[p] {
        Pattern::Word(wc) => {
            let l = match_word(wc, toks, pos);
            let n = toks.len();
            if l > 0 {
                assert(pos + l <= n);
                let ghost before = args@;
                args.push(Arg::Word(pos, l));
                proof {
                    lemma_prefix_of_args(pats, before, args@, tw, cands@, start as int, p as nat);
                    assert(arg_fits(pats[p as int], args@[p as int], tw, cands@, pos as int));
                }
                search(rules, r, toks, cands, start, pos + l, args, found);
                args.pop();
                assert(args@ =~= before);
                proof {
                    let pushed = before.push(Arg::Word(pos, l));
                    assert forall|args2: Seq<Arg>, c: Candidate|
                        #[trigger] applies(pats, prod, tw, cands@, args2, c) && c.start == start
                            && agrees(before, args2, p as int) implies found@.contains(c) by {
                        lemma_matches_shorter(pats, args2, tw, cands@, start as int, pats.len(), (p + 1) as nat);
                        lemma_prefix_of_args(pats, before, args2, tw, cands@, start as int, p as nat);
                        assert(agrees(pushed, args2, p + 1));
                    }
                }
            } else {
                proof {
                    assert forall|args2: Seq<Arg>, c: Candidate|
                        #[trigger] applies(pats, prod, tw, cands@, args2, c) && c.start == start
                            && agrees(old(args)@, args2, p as int) implies found@.contains(c) by {
                        lemma_matches_shorter(pats, args2, tw, cands@, start as int, pats.len(), (p + 1) as nat);
                        lemma_prefix_of_args(pats, old(args)@, args2, tw, cands@, start as int, p as nat);
                    }
                }
            }
        },
        Pattern::Value => {
            let ghost before = args@;
            let mut j: usize = 0;
            while j < cands.len()
                invariant
                    args@ == before,
                    before == old(args)@,
                    p == before.len(),
                    p < pats.len(),
                    pats == rules.rules()[r as int].0,
                    prod == rules.rules()[r as int].1,
                    pats[p as int] == Pattern::Value,
                    tw == words(toks@),
                    r < rules.rules().len(),
                    matches_prefix(pats, before, tw, cands@, start as int, p as nat),
                    pos == match_end(before, cands@, start as int, p as int),
                    forall|k: int| 0 <= k < found@.len() ==> justified(rules.rules(), tw, cands@, #[trigger] found@[k]),
                    found0.len() <= found@.len(),
                    forall|k: int| 0 <= k < found0.len() ==> #[trigger] found@[k] == found0[k],
                    forall|args2: Seq<Arg>, c: Candidate|
                        #[trigger] applies(pats, prod, tw, cands@, args2, c) && c.start == start
                            && agrees(before, args2, p as int) && args2[p as int] is Value
                            && args2[p as int]->Value_0 < j ==> found@.contains(c),
                decreases cands@.len() - j,
            {
                if cands[j].start == pos {
                    let ghost mid = found@;
                    args.push(Arg::Value(j));
                    proof {
                        lemma_prefix_of_args(pats, before, args@, tw, cands@, start as int, p as nat);
                        assert(arg_fits(pats[p as int], args@[p as int], tw, cands@, pos as int));
                    }
                    search(rules, r, toks, cands, start, cands[j].end, args, found);
                    args.pop();
                    assert(args@ =~= before);
                    proof {
                        let pushed = before.push(Arg::Value(j));
                        assert forall|args2: Seq<Arg>, c: Candidate|
                            #[trigger] applies(pats, prod, tw, cands@, args2, c) && c.start == start
                                && agrees(before, args2, p as int) && args2[p as int] is Value
                                && args2[p as int]->Value_0 < j + 1 implies found@.contains(c) by {
                            if args2[p as int]->Value_0 == j {
                                assert(agrees(pushed, args2, p + 1));
                            } else {
                                let k = choose|k: int| 0 <= k < mid.len() && mid[k] == c;
                                assert(found@[k] == c);
                            }
                        }
                    }
                } else {
                    proof {
                        assert forall|args2: Seq<Arg>, c: Candidate|
                            #[trigger] applies(pats, prod, tw, cands@, args2, c) && c.start == start
                                && agrees(before, args2, p as int) && args2[p as int] is Value
                                && args2[p as int]->Value_0 < j + 1 implies found@.contains(c) by {
                            if args2[p as int]->Value_0 == j {
                                lemma_matches_shorter(pats, args2, tw, cands@, start as int, pats.len(), (p + 1) as nat);
                                lemma_prefix_of_args(pats, before, args2, tw, cands@, start as int, p as nat);
                            }
                        }
                    }
                }
                j = j + 1;
            }
            proof {
                assert forall|args2: Seq<Arg>, c: Candidate|
                    #[trigger] applies(pats, prod, tw, cands@, args2, c) && c.start == start && agrees(
                        before,
                        args2,
                        p as int,
                    ) implies found@.contains(c) by {
                    lemma_matches_shorter(pats, args2, tw, cands@, start as int, pats.len(), (p + 1) as nat);
                    lemma_prefix_of_args(pats, before, args2, tw, cands@, start as int, p as nat);
                }
            }
        },
    }
}

proof fn lemma_contains_after_growth(a: Seq<Candidate>, b: Seq<Candidate>, c: Candidate)
    requires
        a.contains(c),
        a.len() <= b.len(),
        forall|k: int| 0 <= k < a.len() ==> #[trigger] b[k] == a[k],
    ensures
        b.contains(c),
{
    let k = choose|k: int| 0 <= k < a.len() && a[k] == c;
    assert(b[k] == c);
}

/// Everything the rules make in one pass over the tokens and the candidates:
/// each candidate found is made by a rule, and every candidate a rule makes is found.
fn round(rules: &RuleSet, toks: &Vec<Vec<char>>, cands: &Vec<Candidate>) -> (found: Vec<Candidate>)
    ensures
        forall|k: int| 0 <= k < found@.len() ==> justified(rules.rules(), words(toks@), cands@, #[trigger] found@[k]),
        forall|ri: int, args: Seq<Arg>, c: Candidate|
            0 <= ri < rules.rules().len() && #[trigger] applies(
                rules.rules()[ri].0,
                rules.rules()[ri].1,
                words(toks@),
                cands@,
                args,
                c,
            ) ==> found@.contains(c),
{
    let ghost tw = words(toks@);
    let mut found: Vec<Candidate> = Vec::new();
    let mut r: usize = 0;
    while r < rules.len()
        invariant
            tw == words(toks@),
            r <= rules.rules().len(),
            forall|k: int| 0 <= k < found@.len() ==> justified(rules.rules(), tw, cands@, #[trigger] found@[k]),
            forall|ri: int, args: Seq<Arg>, c: Candidate|
                0 <= ri < r && #[trigger] applies(rules.rules()[ri].0, rules.rules()[ri].1, tw, cands@, args, c)
                    ==> found@.contains(c),
        decreases rules.rules().len() - r,
    {
        let mut start: usize = 0;
        while start < toks.len()
            invariant
                tw == words(toks@),
                r < rules.rules().len(),
                forall|k: int| 0 <= k < found@.len() ==> justified(rules.rules(), tw, cands@, #[trigger] found@[k]),
                forall|ri: int, args: Seq<Arg>, c: Candidate|
                    0 <= ri < r && #[trigger] applies(rules.rules()[ri].0, rules.rules()[ri].1, tw, cands@, args, c)
                        ==> found@.contains(c),
                forall|args: Seq<Arg>, c: Candidate|
                    #[trigger] applies(rules.rules()[r as int].0, rules.rules()[r as int].1, tw, cands@, args, c)
                        && c.start < start ==> found@.contains(c),
            decreases toks@.len() - start,
        {
            let ghost before = found@;
            let mut args: Vec<Arg> = Vec::new();
            search(rules, r, toks, cands, start, start, &mut args, &mut found);
            proof {
                assert forall|ri: int, args2: Seq<Arg>, c: Candidate|
                    0 <= ri < r && #[trigger] applies(rules.rules()[ri].0, rules.rules()[ri].1, tw, cands@, args2, c)
                        implies found@.contains(c) by {
                    lemma_contains_after_growth(before, found@, c);
                }
                assert forall|args2: Seq<Arg>, c: Candidate|
                    #[trigger] applies(rules.rules()[r as int].0, rules.rules()[r as int].1, tw, cands@, args2, c)
                        && c.start < start + 1 implies found@.contains(c) by {
                    if c.start < start {
                        lemma_contains_after_growth(before, found@, c);
                    } else {
                        assert(agrees(Seq::<Arg>::empty(), args2, 0));
                    }
                }
            }
            start = start + 1;
        }
        r = r + 1;
    }
    found
}

fn contains_candidate(cands: &Vec<Candidate>, c: &Candidate) -> (r: bool)
    ensures
        r == cands@.contains(*c),
{
    let mut i: usize = 0;
    while i < cands.len()
        invariant
            i <= cands@.len(),
            forall|k: int| 0 <= k < i ==> cands@[k] != *c,
        decreases cands@.len() - i,
    {
        let d = &cands[i];
        if d.start == c.start && d.end == c.end && d.value.same(&c.value) {
            assert(cands@[i as int] == *c);
            return true;
        }
        i = i + 1;
    }
    false
}

proof fn lemma_push_derivation(
    rules: Seq<(Seq<Pattern>, Production)>,
    tw: Seq<Seq<char>>,
    prev: Seq<Candidate>,
    snapshot: Seq<Candidate>,
    c: Candidate,
)
    requires
        derivation(rules, tw, prev),
        snapshot.len() <= prev.len(),
        forall|k: int| 0 <= k < snapshot.len() ==> #[trigger] prev[k] == snapshot[k],
        justified(rules, tw, snapshot, c),
    ensures
        derivation(rules, tw, prev.push(c)),
{
    reveal(derivation);
    let out = prev.push(c);
    assert forall|k: int| 0 <= k < out.len() implies justified(rules, tw, out.take(k), #[trigger] out[k]) by {
        if k < prev.len() {
            assert(out.take(k) =~= prev.take(k));
            assert(out[k] == prev[k]);
        } else {
            lemma_justified_extends(rules, tw, snapshot, out.take(k), c);
        }
    }
}

proof fn lemma_push_contains(prev: Seq<Candidate>, found: Seq<Candidate>, i: int, c: Candidate)
    requires
        0 <= i < found.len(),
        found[i] == c,
        forall|k: int| 0 <= k < i ==> prev.contains(#[trigger] found[k]),
    ensures
        forall|k: int| 0 <= k < i + 1 ==> prev.push(c).contains(#[trigger] found[k]),
{
    let out = prev.push(c);
    assert forall|k: int| 0 <= k < i + 1 implies out.contains(#[trigger] found[k]) by {
        if k < i {
            lemma_contains_after_growth(prev, out, found[k]);
        } else {
            assert(out[prev.len() as int] == found[k]);
        }
    }
}

/// Appends to `out` each candidate of `found` it does not hold yet; says
/// whether any was appended.
#[verifier::rlimit(100)]
fn merge(
    out: &mut Vec<Candidate>,
    found: &Vec<Candidate>,
    rules: Ghost<Seq<(Seq<Pattern>, Production)>>,
    tw: Ghost<Seq<Seq<char>>>,
) -> (changed: bool)
    requires
        derivation(rules@, tw@, old(out)@),
        forall|k: int| 0 <= k < found@.len() ==> justified(rules@, tw@, old(out)@, #[trigger] found@[k]),
    ensures
        derivation(rules@, tw@, final(out)@),
        forall|k: int| 0 <= k < found@.len() ==> final(out)@.contains(#[trigger] found@[k]),
        !changed ==> final(out)@ == old(out)@,
        changed ==> final(out)@.len() > old(out)@.len(),
        is_prefix(old(out)@, final(out)@),
        forall|k: int|
            old(out)@.len() <= k < final(out)@.len() ==> justified(rules@, tw@, old(out)@, #[trigger] final(out)@[k])
                && !old(out)@.contains(final(out)@[k]),
{
    let ghost snapshot = out@;
    let mut changed = false;
    let mut i: usize = 0;
    while i < found.len()
        invariant
            snapshot == old(out)@,
            snapshot.len() <= out@.len(),
            forall|k: int| 0 <= k < snapshot.len() ==> #[trigger] out@[k] == snapshot[k],
            derivation(rules@, tw@, out@),
            forall|k: int| 0 <= k < found@.len() ==> justified(rules@, tw@, snapshot, #[trigger] found@[k]),
            i <= found@.len(),
            forall|k: int| 0 <= k < i ==> out@.contains(#[trigger] found@[k]),
            !changed ==> out@ == snapshot,
            changed ==> out@.len() > snapshot.len(),
            forall|k: int|
                snapshot.len() <= k < out@.len() ==> justified(rules@, tw@, snapshot, #[trigger] out@[k])
                    && !snapshot.contains(out@[k]),
        decreases found@.len() - i,
    {
        if !contains_candidate(out, &found[i]) {
            let c = Candidate { start: found[i].start, end: found[i].end, value: found[i].value.copy() };
            let ghost prev = out@;
            proof {
                if snapshot.contains(c) {
                    lemma_contains_after_growth(snapshot, prev, c);
                }
            }
            out.push(c);
            proof {
                lemma_push_derivation(rules@, tw@, prev, snapshot, c);
                lemma_push_contains(prev, found@, i as int, c);
                assert(out@[prev.len() as int] == c);
            }
            changed = true;
        } else {
            proof {
                assert forall|k: int| 0 <= k < i + 1 implies out@.contains(#[trigger] found@[k]) by {}
            }
        }
        i = i + 1;
    }
    changed
}

/// `s` is a prefix of `t`.
pub open spec fn is_prefix(s: Seq<Candidate>, t: Seq<Candidate>) -> bool {
    s.len() <= t.len() && forall|k: int| 0 <= k < s.len() ==> #[trigger] t[k] == s[k]
}

/// Every candidate covers at least one token.
pub open spec fn spans_positive(cands: Seq<Candidate>) -> bool {
    forall|k: int| 0 <= k < cands.len() ==> (#[trigger] cands[k]).start < cands[k].end
}

/// Every candidate a rule makes from the tokens and `s` is among `t`.
pub open spec fn closed_over(
    rules: Seq<(Seq<Pattern>, Production)>,
    toks: Seq<Seq<char>>,
    s: Seq<Candidate>,
    t: Seq<Candidate>,
) -> bool {
    forall|ri: int, args: Seq<Arg>, c: Candidate|
        0 <= ri < rules.len() && #[trigger] applies(rules[ri].0, rules[ri].1, toks, s, args, c)
            ==> t.contains(c)
}

proof fn lemma_match_spans(
    pats: Seq<Pattern>,
    args: Seq<Arg>,
    toks: Seq<Seq<char>>,
    t: Seq<Candidate>,
    start: int,
    k: nat,
)
    requires
        k <= args.len(),
        k <= pats.len(),
        matches_prefix(pats, args, toks, t, start, k),
        spans_positive(t),
    ensures
        match_end(args, t, start, k as int) >= start + k,
        forall|i: int|
            0 <= i < k && (#[trigger] args[i]) is Value ==> args[i]->Value_0 < t.len() && match_end(args, t, start, k as int)
                >= start + (k - 1) + (t[args[i]->Value_0 as int].end - t[args[i]->Value_0 as int].start),
    decreases k,
{
    if k > 0 {
        lemma_match_spans(pats, args, toks, t, start, (k - 1) as nat);
        let a = args[k - 1];
        if a is Value {
            let j = a->Value_0 as int;
            assert(t[j].start < t[j].end);
        }
    }
}

proof fn lemma_restrict(
    pats: Seq<Pattern>,
    args: Seq<Arg>,
    toks: Seq<Seq<char>>,
    s: Seq<Candidate>,
    t: Seq<Candidate>,
    start: int,
    k: nat,
)
    requires
        k <= args.len(),
        is_prefix(s, t),
        matches_prefix(pats, args, toks, t, start, k),
        forall|i: int| 0 <= i < k && (#[trigger] args[i]) is Value ==> args[i]->Value_0 < s.len(),
    ensures
        matches_prefix(pats, args, toks, s, start, k),
        match_end(args, s, start, k as int) == match_end(args, t, start, k as int),
        forall|i: int| 0 <= i < k ==> arg_value(s, #[trigger] args[i]) == arg_value(t, args[i]),
    decreases k,
{
    if k > 0 {
        lemma_restrict(pats, args, toks, s, t, start, (k - 1) as nat);
        let a = args[k - 1];
        if a is Value {
            assert(s[a->Value_0 as int] == t[a->Value_0 as int]);
        }
    }
}

/// A candidate a rule makes from `cur` that is not in `cur`, where every
/// candidate made from `prev` is in `cur`, uses a candidate of `cur` beyond
/// `prev`, and so spans more tokens than it.
proof fn lemma_fresh_span(
    rules: Seq<(Seq<Pattern>, Production)>,
    toks: Seq<Seq<char>>,
    prev: Seq<Candidate>,
    cur: Seq<Candidate>,
    r: int,
    args: Seq<Arg>,
    c: Candidate,
    d: int,
)
    requires
        0 <= r < rules.len(),
        rule_wf(rules[r].0),
        applies(rules[r].0, rules[r].1, toks, cur, args, c),
        is_prefix(prev, cur),
        closed_over(rules, toks, prev, cur),
        !cur.contains(c),
        spans_positive(cur),
        forall|k: int| prev.len() <= k < cur.len() ==> (#[trigger] cur[k]).end - cur[k].start >= d,
    ensures
        c.end - c.start >= d + 1,
{
    let pats = rules[r].0;
    let n = pats.len();
    if forall|i: int| 0 <= i < n && (#[trigger] args[i]) is Value ==> args[i]->Value_0 < prev.len() {
        lemma_restrict(pats, args, toks, prev, cur, c.start as int, n);
        assert(arg_values(prev, args) =~= arg_values(cur, args));
        assert(applies(rules[r].0, rules[r].1, toks, prev, args, c));
    } else {
        let i = choose|i: int| 0 <= i < n && (#[trigger] args[i]) is Value && args[i]->Value_0 >= prev.len();
        lemma_match_spans(pats, args, toks, cur, c.start as int, n);
        lemma_matches_shorter(pats, args, toks, cur, c.start as int, n, (i + 1) as nat);
        assert(pats[i] is Value);
        let j = args[i]->Value_0 as int;
        assert(cur[j].end - cur[j].start >= d);
    }
}

proof fn lemma_new_element_span(
    rules: Seq<(Seq<Pattern>, Production)>,
    toks: Seq<Seq<char>>,
    prev: Seq<Candidate>,
    cur: Seq<Candidate>,
    c: Candidate,
    d: int,
)
    requires
        forall|i: int| 0 <= i < rules.len() ==> rule_wf(#[trigger] rules[i].0),
        justified(rules, toks, cur, c),
        is_prefix(prev, cur),
        closed_over(rules, toks, prev, cur),
        !cur.contains(c),
        spans_positive(cur),
        forall|k: int| prev.len() <= k < cur.len() ==> (#[trigger] cur[k]).end - cur[k].start >= d,
    ensures
        c.end - c.start >= d + 1,
{
    reveal(justified);
    let (r, args) = choose|r: int, args: Seq<Arg>|
        0 <= r < rules.len() && #[trigger] applies(rules[r].0, rules[r].1, toks, cur, args, c);
    lemma_fresh_span(rules, toks, prev, cur, r, args, c, d);
}

proof fn lemma_justified_bounds(
    rules: Seq<(Seq<Pattern>, Production)>,
    toks: Seq<Seq<char>>,
    cands: Seq<Candidate>,
    c: Candidate,
)
    requires
        justified(rules, toks, cands, c),
    ensures
        c.start < c.end <= toks.len(),
{
    reveal(justified);
}

/// Every candidate a rule makes from the tokens and `cands` is already among `cands`.
pub open spec fn closed(
    rules: Seq<(Seq<Pattern>, Production)>,
    toks: Seq<Seq<char>>,
    cands: Seq<Candidate>,
) -> bool {
    forall|ri: int, args: Seq<Arg>, c: Candidate|
        0 <= ri < rules.len() && #[trigger] applies(rules[ri].0, rules[ri].1, toks, cands, args, c)
            ==> cands.contains(c)
}

/// Every candidate the rules make from the tokens: terminal rules first, then
/// rule applications over adjacent spans, round after round, until a round
/// adds nothing. Each candidate is made by a rule of the set from the tokens
/// and the candidates before it, and the result is closed under the rules.
/// A candidate first made in round `d` spans at least `d` tokens, so
/// `tokens.len()` rounds always reach the fixpoint.
pub fn candidates(rules: &RuleSet, tokens: &Vec<String>) -> (r: Vec<Candidate>)
    requires
        rules.wf(),
    ensures
        derivation(rules.rules(), folded_tokens(tokens@), r@),
        closed(rules.rules(), folded_tokens(tokens@), r@),
{
    let toks = fold_tokens(tokens);
    let ghost tw = words(toks@);
    proof {
        assert(words(toks@) =~= folded_tokens(tokens@));
        rules.lemma_wf_rules();
    }
    let mut out: Vec<Candidate> = Vec::new();
    proof {
        reveal(derivation);
    }
    let ghost mut prev: Seq<Candidate> = Seq::empty();
    let mut rounds: usize = 0;
    let max_rounds = tokens.len();
    let mut changed = true;
    while changed && rounds < max_rounds
        invariant
            tw == words(toks@),
            words(toks@) == folded_tokens(tokens@),
            max_rounds == tokens@.len(),
            tw.len() == tokens@.len(),
            rounds <= max_rounds,
            forall|i: int| 0 <= i < rules.rules().len() ==> rule_wf(#[trigger] rules.rules()[i].0),
            derivation(rules.rules(), tw, out@),
            spans_positive(out@),
            rounds > 0 ==> is_prefix(prev, out@) && closed_over(rules.rules(), tw, prev, out@),
            rounds > 0 ==> forall|k: int| prev.len() <= k < out@.len() ==> (#[trigger] out@[k]).end - out@[k].start >= rounds,
            !changed ==> closed(rules.rules(), tw, out@),
        decreases max_rounds - rounds,
    {
        let found = round(rules, &toks, &out);
        let ghost snapshot = out@;
        changed = merge(&mut out, &found, Ghost(rules.rules()), Ghost(tw));
        proof {
            assert forall|ri: int, args: Seq<Arg>, c: Candidate|
                0 <= ri < rules.rules().len() && #[trigger] applies(
                    rules.rules()[ri].0,
                    rules.rules()[ri].1,
                    tw,
                    snapshot,
                    args,
                    c,
                ) implies out@.contains(c) by {
                let k = choose|k: int| 0 <= k < found@.len() && found@[k] == c;
                assert(out@.contains(found@[k]));
            }
            assert forall|k: int| snapshot.len() <= k < out@.len() implies (#[trigger] out@[k]).end
                - out@[k].start >= rounds + 1 by {
                lemma_justified_bounds(rules.rules(), tw, snapshot, out@[k]);
                if rounds > 0 {
                    lemma_new_element_span(rules.rules(), tw, prev, snapshot, out@[k], rounds as int);
                }
            }
            assert forall|k: int| 0 <= k < out@.len() implies (#[trigger] out@[k]).start < out@[k].end by {
                if k < snapshot.len() {
                    assert(out@[k] == snapshot[k]);
                } else {
                    lemma_justified_bounds(rules.rules(), tw, snapshot, out@[k]);
                }
            }
            if !changed {
                assert forall|ri: int, args: Seq<Arg>, c: Candidate|
                    0 <= ri < rules.rules().len() && #[trigger] applies(
                        rules.rules()[ri].0,
                        rules.rules()[ri].1,
                        tw,
                        out@,
                        args,
                        c,
                    ) implies out@.contains(c) by {
                    assert(out@ == snapshot);
                }
            }
            prev = snapshot;
        }
        rounds = rounds + 1;
    }
    proof {
        assert forall|ri: int, args: Seq<Arg>, c: Candidate|
            0 <= ri < rules.rules().len() && #[trigger] applies(
                rules.rules()[ri].0,
                rules.rules()[ri].1,
                tw,
                out@,
                args,
                c,
            ) implies out@.contains(c) by {
            if changed && !out@.contains(c) {
                assert(rounds == max_rounds);
                if rounds > 0 {
                    lemma_fresh_span(rules.rules(), tw, prev, out@, ri, args, c, rounds as int);
                }
            }
        }
    }
    out
}

/// The tokens of an input, each with its accents folded.
pub open spec fn folded_tokens(tokens: Seq<String>) -> Seq<Seq<char>> {
    tokens.map_values(|t: String| folded(t@))
}

/// Parses tokens: the candidates the rules make, resolved. Never fails; no
/// match gives an empty list.
pub fn parse(rules: &RuleSet, tokens: &Vec<String>) -> (r: Vec<Candidate>)
    requires
        rules.wf(),
    ensures
        exists|all: Seq<Candidate>|
            derivation(rules.rules(), folded_tokens(tokens@), all) && closed(
                rules.rules(),
                folded_tokens(tokens@),
                all,
            ) && r@ == resolved(all),
{
    let all = candidates(rules, tokens);
    resolve(&all)
}

} // verus!
