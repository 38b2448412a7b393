//! Ranking of results: newest first by their modification stamp, results with
//! the same stamp in the order in which they came, then cut to a limit.
//!
//! The stamps are compared as text. A stamp has the fixed width and zero
//! padding of `YYYY-MM-DD HH:MM`, so for the years 0000 to 9999 the order of
//! the texts is the order of the instants; `unknown` sorts before every stamp.
use crate::result::{ResultView, SearchResult};
use crate::text::{chars_lex_le, lemma_lex_le_total, lex_le, lex_le_from, to_chars};
use vstd::prelude::*;

verus! {

/// Where a result with the stamp `stamp` goes into `sorted`, looking from
/// `from` on: before the first result whose stamp is not greater. The new
/// result came in before every result of `sorted`, so it goes before those
/// that share its stamp.
pub open spec fn insertion_point(sorted: Seq<ResultView>, stamp: Seq<char>, from: int) -> int
    decreases sorted.len() - from,
{
    if from < 0 || from >= sorted.len() || lex_le(sorted[from].modified, stamp) {
        from
    } else {
        insertion_point(sorted, stamp, from + 1)
    }
}

/// The results in rank order: those with the greater stamp first, those with
/// the same stamp in the order in which they stand in `results`.
pub open spec fn ranked(results: Seq<ResultView>) -> Seq<ResultView>
    decreases results.len(),
{
    if results.len() == 0 {
        Seq::empty()
    } else {
        let rest = ranked(results.drop_first());
        rest.insert(insertion_point(rest, results[0].modified, 0), results[0])
    }
}

/// The ranked results, cut to `limit`.
pub open spec fn ranked_and_cut(results: Seq<ResultView>, limit: int) -> Seq<ResultView> {
    if limit < results.len() {
        ranked(results).take(limit)
    } else {
        ranked(results)
    }
}

/// Of two results that follow each other, the first has the greater stamp, or
/// the same.
pub open spec fn newest_first(results: Seq<ResultView>) -> bool {
    forall|i: int, j: int|
        0 <= i && j == i + 1 && j < results.len() ==> lex_le(
            (#[trigger] results[j]).modified,
            (#[trigger] results[i]).modified,
        )
}

/// The results of `results` that bear the stamp `stamp`, in their order.
pub open spec fn with_stamp(results: Seq<ResultView>, stamp: Seq<char>) -> Seq<ResultView>
    decreases results.len(),
{
    if results.len() == 0 {
        Seq::empty()
    } else if results[0].modified == stamp {
        seq![results[0]] + with_stamp(results.drop_first(), stamp)
    } else {
        with_stamp(results.drop_first(), stamp)
    }
}

/// The insertion point lies within the sequence, every stamp before it is
/// strictly greater than `stamp`, and the stamp at it is not.
pub proof fn lemma_insertion_point(sorted: Seq<ResultView>, stamp: Seq<char>, from: int)
    requires
        0 <= from <= sorted.len(),
    ensures
        from <= insertion_point(sorted, stamp, from) <= sorted.len(),
        forall|k: int|
            from <= k < insertion_point(sorted, stamp, from) ==> !lex_le(
                (#[trigger] sorted[k]).modified,
                stamp,
            ),
        insertion_point(sorted, stamp, from) < sorted.len() ==> lex_le(
            sorted[insertion_point(sorted, stamp, from)].modified,
            stamp,
        ),
    decreases sorted.len() - from,
{
    if from < sorted.len() && !lex_le(sorted[from].modified, stamp) {
        lemma_insertion_point(sorted, stamp, from + 1);
    }
}

/// Ranking neither adds nor drops a result.
pub proof fn lemma_ranked_len(results: Seq<ResultView>)
    ensures
        ranked(results).len() == results.len(),
    decreases results.len(),
{
    if results.len() > 0 {
        let rest = ranked(results.drop_first());
        lemma_ranked_len(results.drop_first());
        lemma_insertion_point(rest, results[0].modified, 0);
        rest.insert_ensures(insertion_point(rest, results[0].modified, 0), results[0]);
    }
}

/// Ranking rearranges: each result comes out as often as it went in.
pub proof fn lemma_ranked_is_permutation(results: Seq<ResultView>)
    ensures
        ranked(results).to_multiset() == results.to_multiset(),
    decreases results.len(),
{
    if results.len() > 0 {
        let tail = results.drop_first();
        let rest = ranked(tail);
        lemma_ranked_is_permutation(tail);
        lemma_ranked_len(tail);
        lemma_insertion_point(rest, results[0].modified, 0);
        vstd::seq_lib::to_multiset_insert(
            rest,
            insertion_point(rest, results[0].modified, 0),
            results[0],
        );
        vstd::seq_lib::to_multiset_insert(tail, 0, results[0]);
        assert(tail.insert(0, results[0]) =~= results);
    } else {
        assert(ranked(results) =~= results);
    }
}

/// The ranking law: of two ranked results that follow each other, the first
/// has the greater stamp, or the same.
pub proof fn lemma_ranked_newest_first(results: Seq<ResultView>)
    ensures
        newest_first(ranked(results)),
    decreases results.len(),
{
    if results.len() > 0 {
        let x = results[0];
        let rest = ranked(results.drop_first());
        let p = insertion_point(rest, x.modified, 0);
        let out = ranked(results);
        lemma_ranked_newest_first(results.drop_first());
        lemma_insertion_point(rest, x.modified, 0);
        rest.insert_ensures(p, x);
        assert forall|i: int, j: int| 0 <= i && j == i + 1 && j < out.len() implies lex_le(
            (#[trigger] out[j]).modified,
            (#[trigger] out[i]).modified,
        ) by {
            if j == p {
                lemma_lex_le_total(rest[i].modified, x.modified);
            }
        }
    }
}

/// The truncation law: no more results are given than the limit allows, and
/// where fewer are given, nothing was cut: they are all the matches. So only
/// a count that reaches the limit leaves room for matches that are not shown.
pub proof fn lemma_cut_keeps_within_limit(results: Seq<ResultView>, limit: int)
    requires
        0 <= limit,
    ensures
        ranked_and_cut(results, limit).len() <= limit,
        ranked_and_cut(results, limit).len() <= results.len(),
        ranked_and_cut(results, limit).len() < limit ==> ranked_and_cut(results, limit) == ranked(
            results,
        ),
        ranked_and_cut(results, limit) == ranked(results).take(
            ranked_and_cut(results, limit).len() as int,
        ),
{
    lemma_ranked_len(results);
    assert(ranked(results).take(ranked(results).len() as int) =~= ranked(results));
}

/// A cut of results that are newest first is newest first.
pub proof fn lemma_cut_newest_first(results: Seq<ResultView>, limit: int)
    requires
        newest_first(results),
        0 <= limit <= results.len(),
    ensures
        newest_first(results.take(limit)),
{
    let cut = results.take(limit);
    assert forall|i: int, j: int| 0 <= i && j == i + 1 && j < cut.len() implies lex_le(
        (#[trigger] cut[j]).modified,
        (#[trigger] cut[i]).modified,
    ) by {
        assert(cut[i] == results[i] && cut[j] == results[j]);
    }
}

/// The results with a given stamp, taken from a concatenation.
proof fn lemma_with_stamp_concat(a: Seq<ResultView>, b: Seq<ResultView>, stamp: Seq<char>)
    ensures
        with_stamp(a + b, stamp) == with_stamp(a, stamp) + with_stamp(b, stamp),
    decreases a.len(),
{
    if a.len() > 0 {
        assert((a + b).drop_first() =~= a.drop_first() + b);
        lemma_with_stamp_concat(a.drop_first(), b, stamp);
    }
}

/// Where no result bears the stamp, none is picked.
proof fn lemma_with_stamp_none(a: Seq<ResultView>, stamp: Seq<char>)
    requires
        forall|k: int| 0 <= k < a.len() ==> (#[trigger] a[k]).modified != stamp,
    ensures
        with_stamp(a, stamp) == Seq::<ResultView>::empty(),
    decreases a.len(),
{
    if a.len() > 0 {
        let rest = a.drop_first();
        assert forall|k: int| 0 <= k < rest.len() implies (#[trigger] rest[k]).modified
            != stamp by {
            assert(rest[k] == a[k + 1]);
        }
        lemma_with_stamp_none(rest, stamp);
    }
}

/// The lexicographic order is reflexive.
proof fn lemma_lex_le_reflexive(a: Seq<char>, i: int)
    requires
        0 <= i,
    ensures
        lex_le_from(a, a, i),
    decreases a.len() - i,
{
    if i < a.len() {
        lemma_lex_le_reflexive(a, i + 1);
    }
}

/// The ranking is stable: the results that bear one stamp come out in the
/// order in which they went in.
pub proof fn lemma_ranked_is_stable(results: Seq<ResultView>, stamp: Seq<char>)
    ensures
        with_stamp(ranked(results), stamp) == with_stamp(results, stamp),
    decreases results.len(),
{
    if results.len() > 0 {
        let x = results[0];
        let tail = results.drop_first();
        let rest = ranked(tail);
        let p = insertion_point(rest, x.modified, 0);
        lemma_ranked_is_stable(tail, stamp);
        lemma_insertion_point(rest, x.modified, 0);
        let front = rest.subrange(0, p);
        let back = rest.subrange(p, rest.len() as int);
        assert(rest =~= front + back);
        assert(ranked(results) =~= (front + seq![x]) + back);
        lemma_with_stamp_concat(front, back, stamp);
        lemma_with_stamp_concat(front + seq![x], back, stamp);
        lemma_with_stamp_concat(front, seq![x], stamp);
        assert(seq![x].drop_first() =~= Seq::<ResultView>::empty());
        assert(with_stamp(Seq::<ResultView>::empty(), stamp) =~= Seq::<ResultView>::empty());
        if x.modified == stamp {
            assert forall|k: int| 0 <= k < front.len() implies (#[trigger] front[k]).modified
                != stamp by {
                lemma_lex_le_reflexive(stamp, 0);
            }
            lemma_with_stamp_none(front, stamp);
        }
    }
}

/// Ranks the results newest first and cuts them to `limit`.
///
/// The results are ordered by their stamp, the greater first; results with
/// the same stamp keep the order in which they came. At most `limit` results
/// are given back: the first of that order. Nothing is reordered after the
/// cut.
pub fn rank_results(results: Vec<SearchResult>, limit: usize) -> (r: Vec<SearchResult>)
    ensures
        r.deep_view() == ranked_and_cut(results.deep_view(), limit as int),
        r.len() <= limit,
        r.len() <= results.len(),
        r.len() == limit || r.len() == results.len(),
        newest_first(r.deep_view()),
{
    let ghost all = results.deep_view();
    let mut input = results;
    let mut sorted: Vec<SearchResult> = Vec::new();
    let mut stamps: Vec<Vec<char>> = Vec::new();
    while input.len() > 0
        invariant
            input.len() <= all.len(),
            input.deep_view() == all.take(input.len() as int),
            sorted.deep_view() == ranked(all.skip(input.len() as int)),
            stamps.len() == sorted.len(),
            forall|k: int| 0 <= k < sorted.len() ==> (#[trigger] stamps[k])@ == sorted[k].modified@,
        decreases input.len(),
    {
        let ghost n = input.len() as int;
        let ghost ranked_before = sorted.deep_view();
        let x = input.pop().unwrap();
        assert(x@ == all[n - 1]) by {
            assert(all.take(n)[n - 1] == all[n - 1]);
        }
        let stamp = to_chars(x.modified.as_str());
        let mut p: usize = 0;
        while p < sorted.len() && !chars_lex_le(&stamps[p], &stamp)
            invariant
                p <= sorted.len(),
                stamps.len() == sorted.len(),
                stamp@ == x.modified@,
                sorted.deep_view() == ranked_before,
                forall|k: int|
                    0 <= k < sorted.len() ==> (#[trigger] stamps[k])@ == sorted[k].modified@,
                insertion_point(ranked_before, stamp@, 0) == insertion_point(
                    ranked_before,
                    stamp@,
                    p as int,
                ),
            decreases sorted.len() - p,
        {
            p += 1;
        }
        assert(all.skip(n - 1).drop_first() =~= all.skip(n));
        sorted.insert(p, x);
        stamps.insert(p, stamp);
    }
    proof {
        assert(all.skip(0) =~= all);
        lemma_ranked_len(all);
        lemma_ranked_newest_first(all);
        if limit < sorted.len() {
            lemma_cut_newest_first(ranked(all), limit as int);
        }
    }
    sorted.truncate(limit);
    sorted
}

} // verus!
