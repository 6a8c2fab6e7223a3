//! Ranking the catalogue against a query: which records match, and in what
//! order they are shown.

use priority_queue::PriorityQueue;
use vstd::prelude::*;

use crate::symbol::{catalogue, Ref, RefView};

verus! {

/// A character as a number, an ASCII capital as its small letter.
pub open spec fn ascii_lower(c: char) -> int {
    if 'A' <= c <= 'Z' {
        c as u32 + 32
    } else {
        c as u32 as int
    }
}

/// Whether two characters are the same, the case of ASCII letters aside.
pub open spec fn same_letter(a: char, b: char) -> bool {
    ascii_lower(a) == ascii_lower(b)
}

/// Whether the characters of `pattern` occur in `line`, in their order and
/// the case of ASCII letters aside, with any characters between them.
pub open spec fn is_subsequence(pattern: Seq<char>, line: Seq<char>) -> bool
    decreases line.len(),
{
    if pattern.len() == 0 {
        true
    } else if line.len() == 0 {
        false
    } else if same_letter(line[0], pattern[0]) {
        is_subsequence(pattern.drop_first(), line.drop_first())
    } else {
        is_subsequence(pattern, line.drop_first())
    }
}

/// The score that the matcher gives to `line` against `pattern`, or `None`
/// where `line` does not match. What `fuzzy_matcher::clangd::fuzzy_match`
/// returns; it depends on the two texts alone.
pub uninterp spec fn fuzzy_score(line: Seq<char>, pattern: Seq<char>) -> Option<i64>;

/// Calls `fuzzy_matcher::clangd::fuzzy_match`, the case-insensitive matcher
/// after clangd. It gives a score exactly when the pattern's characters
/// occur in the line in their order, the case of ASCII letters aside: the
/// matcher looks for just that before it scores, and scores whatever
/// passes. Of the score nothing is claimed but that it is the one the
/// matcher computes for these two texts.
#[verifier::external_body]
fn fuzzy_match(line: &str, pattern: &str) -> (score: Option<i64>)
    ensures
        score == fuzzy_score(line@, pattern@),
        score is Some <==> is_subsequence(pattern@, line@),
{
    fuzzy_matcher::clangd::fuzzy_match(line, pattern)
}

/// `priority_queue::PriorityQueue`, a heap of items that each carry a priority.
#[verifier::external_type_specification]
#[verifier::external_body]
#[verifier::reject_recursive_types(I)]
#[verifier::reject_recursive_types(P)]
#[verifier::reject_recursive_types(H)]
pub struct ExPriorityQueue<I, P, H>(PriorityQueue<I, P, H>);

/// A priority: a score, then a number that decides between equal scores.
pub type Priority = (i64, usize);

/// The queue in which a ranking is sorted: places in the catalogue, each
/// with its priority.
pub type Queue = PriorityQueue<usize, Priority>;

/// What a queue holds: each item with its priority.
pub uninterp spec fn queue_entries(queue: Queue) -> Map<usize, Priority>;

/// The order of pairs: by the first component, then by the second.
pub open spec fn pair_ge(a: Priority, b: Priority) -> bool {
    a.0 > b.0 || (a.0 == b.0 && a.1 >= b.1)
}

/// Calls `PriorityQueue::new`: a queue that holds nothing.
#[verifier::external_body]
fn queue_new() -> (queue: Queue)
    ensures
        queue_entries(queue) =~= Map::empty(),
{
    PriorityQueue::new()
}

/// Calls `PriorityQueue::push`: the item enters with the priority given, or
/// has its priority replaced if it was there; the priority it had before is
/// handed back.
#[verifier::external_body]
fn queue_push(queue: &mut Queue, item: usize, priority: Priority) -> (before: Option<Priority>)
    ensures
        queue_entries(*final(queue)) == queue_entries(*old(queue)).insert(item, priority),
        before == if queue_entries(*old(queue)).dom().contains(item) {
            Some(queue_entries(*old(queue))[item])
        } else {
            None
        },
{
    queue.push(item, priority)
}

/// Calls `PriorityQueue::into_sorted_vec`: every item of the queue once, from
/// the highest priority to the lowest. Among equal priorities the order is
/// left open.
#[verifier::external_body]
fn queue_into_sorted_vec(queue: Queue) -> (items: Vec<usize>)
    ensures
        items@.no_duplicates(),
        forall|item: usize| items@.contains(item) <==> queue_entries(queue).dom().contains(item),
        forall|a: int, b: int|
            0 <= a < b < items@.len() ==> pair_ge(
                #[trigger] queue_entries(queue)[items@[a]],
                #[trigger] queue_entries(queue)[items@[b]],
            ),
{
    queue.into_sorted_vec()
}

/// One line of a ranking: a record, by its place in the catalogue, and the
/// score it got.
#[derive(Debug, Clone, Copy, PartialEq, Eq, Structural)]
pub struct RankedResult {
    pub index: usize,
    pub score: i64,
}

/// Whether `a` is shown before `b`: the higher score first, and of two equal
/// scores the record that stands earlier in the catalogue.
pub open spec fn outranks(a: RankedResult, b: RankedResult) -> bool {
    a.score > b.score || (a.score == b.score && a.index < b.index)
}

/// Whether each line of `ranked` outranks all that follow it.
pub open spec fn in_order(ranked: Seq<RankedResult>) -> bool {
    forall|a: int, b: int|
        0 <= a < b < ranked.len() ==> outranks(#[trigger] ranked[a], #[trigger] ranked[b])
}

/// Whether `ranked` is the ranking of a catalogue whose records got `scores`:
/// it lists each record that has a score, with that score, and no other; and
/// each line outranks all that follow it.
pub open spec fn is_ranking(scores: Seq<Option<i64>>, ranked: Seq<RankedResult>) -> bool {
    &&& forall|k: int|
        0 <= k < ranked.len() ==> (#[trigger] ranked[k]).index < scores.len()
            && scores[ranked[k].index as int] == Some(ranked[k].score)
    &&& forall|i: int|
        0 <= i < scores.len() && (#[trigger] scores[i]) is Some ==> exists|k: int|
            0 <= k < ranked.len() && (#[trigger] ranked[k]).index == i
    &&& in_order(ranked)
}

/// The ranking of a catalogue whose records got `scores`.
pub open spec fn ranking(scores: Seq<Option<i64>>) -> Seq<RankedResult> {
    choose|ranked: Seq<RankedResult>| is_ranking(scores, ranked)
}

/// The score of a record's label against the query. The empty query is
/// matched by every label, with score zero.
pub open spec fn score_of(sig: Seq<char>, query: Seq<char>) -> Option<i64> {
    if query.len() == 0 {
        Some(0)
    } else {
        fuzzy_score(sig, query)
    }
}

/// The scores that the records of `index` get against `query`, record by
/// record.
pub open spec fn scores_for(index: Seq<RefView>, query: Seq<char>) -> Seq<Option<i64>> {
    Seq::new(index.len(), |i: int| score_of(index[i].sig, query))
}

/// The ranking in which every record of a catalogue of `n` records stands
/// at its own place, with score zero.
pub open spec fn unranked(n: nat) -> Seq<RankedResult> {
    Seq::new(n, |i: int| RankedResult { index: i as usize, score: 0 })
}

/// Of two lines for different records exactly one outranks the other.
proof fn lemma_outranks_total(a: RankedResult, b: RankedResult)
    requires
        a.index != b.index,
    ensures
        outranks(a, b) != outranks(b, a),
{
}

/// Two sequences in which each line outranks those behind it, and which
/// hold the same lines, are one sequence.
proof fn lemma_same_lines(r1: Seq<RankedResult>, r2: Seq<RankedResult>)
    requires
        in_order(r1),
        in_order(r2),
        forall|x: RankedResult| r1.contains(x) <==> r2.contains(x),
    ensures
        r1 == r2,
    decreases r1.len(),
{
    if r1.len() == 0 {
        if r2.len() > 0 {
            assert(r2.contains(r2[0]));
            assert(r1.contains(r2[0]));
        }
        assert(r1 =~= r2);
    } else {
        assert(r1.contains(r1[0]));
        assert(r2.contains(r1[0]));
        let j = choose|j: int| 0 <= j < r2.len() && r2[j] == r1[0];
        assert(r2.contains(r2[0]));
        assert(r1.contains(r2[0]));
        let i = choose|i: int| 0 <= i < r1.len() && r1[i] == r2[0];
        if j > 0 {
            assert(outranks(r2[0], r2[j]));
            if i > 0 {
                assert(outranks(r1[0], r1[i]));
            }
        }
        assert(r1[0] == r2[0]);
        let t1 = r1.drop_first();
        let t2 = r2.drop_first();
        assert forall|x: RankedResult| t1.contains(x) <==> t2.contains(x) by {
            if t1.contains(x) {
                let a = choose|a: int| 0 <= a < t1.len() && t1[a] == x;
                assert(r1[a + 1] == x);
                assert(outranks(r1[0], r1[a + 1]));
                assert(r1.contains(x));
                let b = choose|b: int| 0 <= b < r2.len() && r2[b] == x;
                assert(b > 0);
                assert(t2[b - 1] == x);
            }
            if t2.contains(x) {
                let a = choose|a: int| 0 <= a < t2.len() && t2[a] == x;
                assert(r2[a + 1] == x);
                assert(outranks(r2[0], r2[a + 1]));
                assert(r2.contains(x));
                let b = choose|b: int| 0 <= b < r1.len() && r1[b] == x;
                assert(b > 0);
                assert(t1[b - 1] == x);
            }
        }
        assert forall|a: int, b: int| 0 <= a < b < t1.len() implies outranks(
            #[trigger] t1[a],
            #[trigger] t1[b],
        ) by {
            assert(outranks(r1[a + 1], r1[b + 1]));
        }
        assert forall|a: int, b: int| 0 <= a < b < t2.len() implies outranks(
            #[trigger] t2[a],
            #[trigger] t2[b],
        ) by {
            assert(outranks(r2[a + 1], r2[b + 1]));
        }
        lemma_same_lines(t1, t2);
        assert(r1 =~= seq![r1[0]] + t1);
        assert(r2 =~= seq![r2[0]] + t2);
    }
}

/// A catalogue has one ranking only: the order of the lines is fixed by the
/// scores and the records' places, so ranking the same catalogue against the
/// same query again gives the same lines in the same order.
pub proof fn ranking_unique(
    scores: Seq<Option<i64>>,
    r1: Seq<RankedResult>,
    r2: Seq<RankedResult>,
)
    requires
        is_ranking(scores, r1),
        is_ranking(scores, r2),
    ensures
        r1 == r2,
{
    assert forall|x: RankedResult| r1.contains(x) <==> r2.contains(x) by {
        if r1.contains(x) {
            let a = choose|a: int| 0 <= a < r1.len() && r1[a] == x;
            assert(scores[r1[a].index as int] is Some);
            let b = choose|b: int| 0 <= b < r2.len() && (#[trigger] r2[b]).index == x.index as int;
            assert(r2[b] == x);
        }
        if r2.contains(x) {
            let a = choose|a: int| 0 <= a < r2.len() && r2[a] == x;
            assert(scores[r2[a].index as int] is Some);
            let b = choose|b: int| 0 <= b < r1.len() && (#[trigger] r1[b]).index == x.index as int;
            assert(r1[b] == x);
        }
    }
    lemma_same_lines(r1, r2);
}

/// `ranked` with the line `x` put where it belongs.
spec fn placed(ranked: Seq<RankedResult>, x: RankedResult) -> Seq<RankedResult>
    decreases ranked.len(),
{
    if ranked.len() == 0 || outranks(ranked.last(), x) {
        ranked.push(x)
    } else {
        placed(ranked.drop_last(), x).push(ranked.last())
    }
}

/// The ranking of the first `n` records, built record by record.
spec fn ranked_prefix(scores: Seq<Option<i64>>, n: nat) -> Seq<RankedResult>
    decreases n,
{
    if n == 0 {
        Seq::empty()
    } else {
        let before = ranked_prefix(scores, (n - 1) as nat);
        match scores[n - 1] {
            Some(score) => placed(before, RankedResult { index: (n - 1) as usize, score }),
            None => before,
        }
    }
}

/// Putting a line where it belongs keeps the order, and adds that line and
/// no other.
proof fn lemma_placed(ranked: Seq<RankedResult>, x: RankedResult)
    requires
        in_order(ranked),
        forall|a: int| 0 <= a < ranked.len() ==> (#[trigger] ranked[a]).index != x.index,
    ensures
        in_order(placed(ranked, x)),
        forall|y: RankedResult|
            #![trigger placed(ranked, x).contains(y)]
            #![trigger ranked.contains(y)]
            placed(ranked, x).contains(y) <==> (ranked.contains(y) || y == x),
    decreases ranked.len(),
{
    let p = placed(ranked, x);
    if ranked.len() == 0 || outranks(ranked.last(), x) {
        assert(p == ranked.push(x));
        assert forall|a: int, b: int| 0 <= a < b < p.len() implies outranks(
            #[trigger] p[a],
            #[trigger] p[b],
        ) by {
            if b == ranked.len() {
                if a < ranked.len() - 1 {
                    assert(outranks(ranked[a], ranked[ranked.len() - 1]));
                }
            } else {
                assert(outranks(ranked[a], ranked[b]));
            }
        }
        assert forall|y: RankedResult| p.contains(y) <==> (ranked.contains(y) || y == x) by {
            if p.contains(y) {
                let a = choose|a: int| 0 <= a < p.len() && p[a] == y;
                if a < ranked.len() {
                    assert(ranked[a] == y);
                }
            }
            if ranked.contains(y) {
                let a = choose|a: int| 0 <= a < ranked.len() && ranked[a] == y;
                assert(p[a] == y);
            }
            if y == x {
                assert(p[ranked.len() as int] == y);
            }
        }
    } else {
        let front = ranked.drop_last();
        let last = ranked.last();
        let q = placed(front, x);
        assert forall|a: int, b: int| 0 <= a < b < front.len() implies outranks(
            #[trigger] front[a],
            #[trigger] front[b],
        ) by {
            assert(outranks(ranked[a], ranked[b]));
        }
        assert forall|a: int| 0 <= a < front.len() implies (#[trigger] front[a]).index
            != x.index by {
            assert(ranked[a].index != x.index);
        }
        lemma_placed(front, x);
        assert(p == q.push(last));
        lemma_outranks_total(last, x);
        assert forall|a: int, b: int| 0 <= a < b < p.len() implies outranks(
            #[trigger] p[a],
            #[trigger] p[b],
        ) by {
            if b == q.len() {
                assert(q.contains(q[a]));
                if front.contains(q[a]) {
                    let c = choose|c: int| 0 <= c < front.len() && front[c] == q[a];
                    assert(outranks(ranked[c], ranked[ranked.len() - 1]));
                }
            } else {
                assert(outranks(q[a], q[b]));
            }
        }
        assert forall|y: RankedResult| p.contains(y) <==> (ranked.contains(y) || y == x) by {
            if p.contains(y) {
                let a = choose|a: int| 0 <= a < p.len() && p[a] == y;
                if a < q.len() {
                    assert(q.contains(y));
                    if front.contains(y) {
                        let c = choose|c: int| 0 <= c < front.len() && front[c] == y;
                        assert(ranked[c] == y);
                    }
                } else {
                    assert(ranked[ranked.len() - 1] == y);
                }
            }
            if ranked.contains(y) {
                let a = choose|a: int| 0 <= a < ranked.len() && ranked[a] == y;
                if a < front.len() {
                    assert(front[a] == y);
                    assert(front.contains(y));
                    assert(q.contains(y));
                    let c = choose|c: int| 0 <= c < q.len() && q[c] == y;
                    assert(p[c] == y);
                } else {
                    assert(p[q.len() as int] == y);
                }
            }
            if y == x {
                assert(q.contains(y));
                let c = choose|c: int| 0 <= c < q.len() && q[c] == y;
                assert(p[c] == y);
            }
        }
    }
}

/// Built record by record, the ranking of the first `n` records is their
/// ranking.
proof fn lemma_ranked_prefix(scores: Seq<Option<i64>>, n: nat)
    requires
        n <= scores.len() <= usize::MAX,
    ensures
        is_ranking(scores.take(n as int), ranked_prefix(scores, n)),
    decreases n,
{
    let r = ranked_prefix(scores, n);
    let s = scores.take(n as int);
    if n > 0 {
        let m = (n - 1) as nat;
        let before = ranked_prefix(scores, m);
        let sb = scores.take(m as int);
        lemma_ranked_prefix(scores, m);
        assert forall|k: int| 0 <= k < before.len() implies (#[trigger] before[k]).index < m
            && s[before[k].index as int] == Some(before[k].score) by {
            assert(sb[before[k].index as int] == Some(before[k].score));
        }
        match scores[n - 1] {
            Some(score) => {
                let x = RankedResult { index: m as usize, score };
                lemma_placed(before, x);
                assert forall|k: int| 0 <= k < r.len() implies (#[trigger] r[k]).index < s.len()
                    && s[r[k].index as int] == Some(r[k].score) by {
                    assert(r.contains(r[k]));
                    if before.contains(r[k]) {
                        let c = choose|c: int| 0 <= c < before.len() && before[c] == r[k];
                    }
                }
                assert forall|i: int| 0 <= i < s.len() && (#[trigger] s[i]) is Some implies exists|
                    k: int,
                | 0 <= k < r.len() && (#[trigger] r[k]).index == i by {
                    if i < m {
                        assert(sb[i] is Some);
                        let c = choose|c: int|
                            0 <= c < before.len() && (#[trigger] before[c]).index == i;
                        assert(before.contains(before[c]));
                        assert(r.contains(before[c]));
                        let k = choose|k: int| 0 <= k < r.len() && r[k] == before[c];
                        assert(r[k].index == i);
                    } else {
                        assert(r.contains(x));
                        let k = choose|k: int| 0 <= k < r.len() && r[k] == x;
                        assert(r[k].index == i);
                    }
                }
            },
            None => {
                assert forall|i: int| 0 <= i < s.len() && (#[trigger] s[i]) is Some implies exists|
                    k: int,
                | 0 <= k < r.len() && (#[trigger] r[k]).index == i by {
                    assert(sb[i] is Some);
                }
            },
        }
    }
}

/// Every catalogue that a machine can hold has a ranking, and `ranking`
/// names it.
pub proof fn ranking_exists(scores: Seq<Option<i64>>)
    requires
        scores.len() <= usize::MAX,
    ensures
        is_ranking(scores, ranking(scores)),
{
    lemma_ranked_prefix(scores, scores.len());
    assert(scores.take(scores.len() as int) =~= scores);
}

/// Against the empty query nothing is left out and nothing moves: the
/// ranking lists every record of the catalogue, at its own place.
pub proof fn ranking_of_empty_query(index: Seq<RefView>)
    requires
        index.len() <= usize::MAX,
    ensures
        ranking(scores_for(index, Seq::empty())) == unranked(index.len()),
{
    let scores = scores_for(index, Seq::empty());
    let plain = unranked(index.len());
    assert forall|i: int| 0 <= i < scores.len() && (#[trigger] scores[i]) is Some implies exists|
        k: int,
    | 0 <= k < plain.len() && (#[trigger] plain[k]).index == i by {
        assert(plain[i].index == i);
    }
    assert(is_ranking(scores, plain));
    ranking_exists(scores);
    ranking_unique(scores, plain, ranking(scores));
}

/// Against a query that is not empty, the ranking holds the records whose
/// label the matcher accepts, and no other.
pub proof fn ranking_holds_the_matches(index: Seq<RefView>, query: Seq<char>)
    requires
        index.len() <= usize::MAX,
        query.len() > 0,
    ensures
        forall|k: int|
            0 <= k < ranking(scores_for(index, query)).len() ==> {
                let line = #[trigger] ranking(scores_for(index, query))[k];
                line.index < index.len() && fuzzy_score(index[line.index as int].sig, query)
                    == Some(line.score)
            },
        forall|i: int|
            0 <= i < index.len() && fuzzy_score((#[trigger] index[i]).sig, query) is Some
                ==> exists|k: int|
                0 <= k < ranking(scores_for(index, query)).len() && (#[trigger] ranking(
                    scores_for(index, query),
                )[k]).index == i,
{
    let scores = scores_for(index, query);
    ranking_exists(scores);
    assert forall|i: int|
        0 <= i < index.len() && fuzzy_score((#[trigger] index[i]).sig, query) is Some
    implies exists|
        k: int,
    | 0 <= k < ranking(scores).len() && (#[trigger] ranking(scores)[k]).index == i by {
        assert(scores[i] is Some);
    }
}

/// Ranks a catalogue whose records got `scores`: the records that have a
/// score, the higher score first, and of equal scores the record that
/// stands earlier in the catalogue.
pub fn rank_scored(scores: &Vec<Option<i64>>) -> (ranked: Vec<RankedResult>)
    ensures
        is_ranking(scores@, ranked@),
        ranked@ == ranking(scores@),
{
    let mut queue = queue_new();
    let mut i: usize = 0;
    while i < scores.len()
        invariant
            i <= scores.len(),
            forall|j: usize|
                queue_entries(queue).dom().contains(j) <==> (j < i && scores@[j as int] is Some),
            forall|j: usize|
                queue_entries(queue).dom().contains(j) ==> #[trigger] queue_entries(queue)[j] == (
                    scores@[j as int]->0,
                    (usize::MAX - j) as usize,
                ),
        decreases scores.len() - i,
    {
        if let Some(score) = scores[i] {
            queue_push(&mut queue, i, (score, usize::MAX - i));
        }
        i += 1;
    }
    let ghost entries = queue_entries(queue);
    let order = queue_into_sorted_vec(queue);
    let mut ranked: Vec<RankedResult> = Vec::new();
    let mut k: usize = 0;
    assert forall|m: int| 0 <= m < order@.len() implies (#[trigger] order@[m]) < scores.len()
        && scores@[order@[m] as int] is Some by {
        assert(order@.contains(order@[m]));
    }
    while k < order.len()
        invariant
            k <= order.len(),
            ranked@.len() == k,
            forall|m: int|
                0 <= m < order@.len() ==> (#[trigger] order@[m]) < scores.len()
                    && scores@[order@[m] as int] is Some,
            forall|m: int|
                0 <= m < k ==> #[trigger] ranked@[m] == (RankedResult {
                    index: order@[m],
                    score: scores@[order@[m] as int]->0,
                }),
        decreases order.len() - k,
    {
        let index = order[k];
        match scores[index] {
            Some(score) => ranked.push(RankedResult { index, score }),
            None => {},
        }
        k += 1;
    }
    proof {
        assert forall|i: int|
            0 <= i < scores@.len() && (#[trigger] scores@[i]) is Some implies exists|
            k: int,
        | 0 <= k < ranked@.len() && (#[trigger] ranked@[k]).index == i by {
            assert(order@.contains(i as usize));
            let k = choose|k: int| 0 <= k < order@.len() && order@[k] == i as usize;
            assert(ranked@[k].index == i);
        }
        assert forall|a: int, b: int| 0 <= a < b < ranked@.len() implies outranks(
            #[trigger] ranked@[a],
            #[trigger] ranked@[b],
        ) by {
            assert(order@.contains(order@[a]));
            assert(order@.contains(order@[b]));
            assert(pair_ge(entries[order@[a]], entries[order@[b]]));
            assert(order@[a] != order@[b]);
        }
        assert(is_ranking(scores@, ranked@));
        ranking_exists(scores@);
        ranking_unique(scores@, ranked@, ranking(scores@));
    }
    ranked
}

/// Scores every record of the catalogue against the query. A record has a
/// score exactly when the query's characters occur in its label, in their
/// order and the case of ASCII letters aside.
pub fn score_all(refs: &Vec<Ref>, query: &str) -> (scores: Vec<Option<i64>>)
    ensures
        scores@ == scores_for(catalogue(refs@), query@),
        forall|i: int|
            0 <= i < refs@.len() ==> ((#[trigger] scores@[i]) is Some <==> is_subsequence(
                query@,
                refs@[i].sig@,
            )),
{
    let mut scores: Vec<Option<i64>> = Vec::new();
    let mut i: usize = 0;
    while i < refs.len()
        invariant
            i <= refs.len(),
            scores@.len() == i,
            forall|j: int|
                0 <= j < i ==> #[trigger] scores@[j] == score_of(refs@[j].sig@, query@),
            forall|j: int|
                0 <= j < i ==> ((#[trigger] scores@[j]) is Some <==> is_subsequence(
                    query@,
                    refs@[j].sig@,
                )),
        decreases refs.len() - i,
    {
        let score = if query.is_empty() {
            Some(0)
        } else {
            fuzzy_match(refs[i].sig.as_str(), query)
        };
        scores.push(score);
        i += 1;
    }
    assert(scores@ =~= scores_for(catalogue(refs@), query@));
    scores
}

/// Ranks the catalogue against the query, from scratch: the records in
/// whose label the query's characters occur, in their order and the case
/// of ASCII letters aside; best score first, equal scores in catalogue
/// order. Against the empty query that is the whole catalogue, in its own
/// order.
pub fn rank(refs: &Vec<Ref>, query: &str) -> (ranked: Vec<RankedResult>)
    ensures
        is_ranking(scores_for(catalogue(refs@), query@), ranked@),
        ranked@ == ranking(scores_for(catalogue(refs@), query@)),
        query@.len() == 0 ==> ranked@ == unranked(refs@.len()),
        query@.len() > 0 ==> forall|k: int|
            0 <= k < ranked@.len() ==> fuzzy_score(
                refs@[(#[trigger] ranked@[k]).index as int].sig@,
                query@,
            ) == Some(ranked@[k].score),
        forall|k: int|
            0 <= k < ranked@.len() ==> is_subsequence(
                query@,
                refs@[(#[trigger] ranked@[k]).index as int].sig@,
            ),
        forall|i: int|
            0 <= i < refs@.len() && is_subsequence(query@, (#[trigger] refs@[i]).sig@)
                ==> exists|k: int| 0 <= k < ranked@.len() && (#[trigger] ranked@[k]).index == i,
{
    let scores = score_all(refs, query);
    let ranked = rank_scored(&scores);
    proof {
        let index = catalogue(refs@);
        assert(index.len() == refs.len());
        if query@.len() == 0 {
            assert(query@ =~= Seq::empty());
            ranking_of_empty_query(index);
        }
        assert forall|k: int| 0 <= k < ranked@.len() implies is_subsequence(
            query@,
            refs@[(#[trigger] ranked@[k]).index as int].sig@,
        ) by {
            assert(scores@[ranked@[k].index as int] is Some);
        }
        assert forall|i: int|
            0 <= i < refs@.len() && is_subsequence(
                query@,
                (#[trigger] refs@[i]).sig@,
            ) implies exists|k: int| 0 <= k < ranked@.len() && (#[trigger] ranked@[k]).index
            == i by {
            assert(scores@[i] is Some);
        }
    }
    ranked
}

} // verus!
