//! Filtering items by a query and ranking them by how well they match.
use vstd::prelude::*;

use fuzzy_matcher::skim::SkimMatcherV2;
use fuzzy_matcher::FuzzyMatcher;

use crate::chars::push_str;
use crate::{Item, Response, Workflow};

verus! {

/// The score that the skim matcher gives `choice` for `pattern`, if it
/// matches at all.
pub uninterp spec fn fuzzy_score_of(choice: Seq<char>, pattern: Seq<char>) -> Option<i64>;

/// Relies on `SkimMatcherV2::default` and `FuzzyMatcher::fuzzy_match`: the
/// score depends on the two strings alone; an empty pattern matches
/// everything with score zero.
#[verifier::external_body]
fn fuzzy_score(choice: &str, pattern: &str) -> (r: Option<i64>)
    ensures
        r == fuzzy_score_of(choice@, pattern@),
        pattern@.len() == 0 ==> r == Some(0i64),
{
    SkimMatcherV2::default().fuzzy_match(choice, pattern)
}

/// The text of an item that a query is matched against: subtitle, then
/// ` : `, then title.
pub open spec fn search_text(item: Item) -> Seq<char> {
    let sub = match item.subtitle {
        Some(s) => s@,
        None => Seq::empty(),
    };
    sub + " : "@ + item.title@
}

/// `sorted` with `e` put after every entry whose score is at least `e`'s.
pub open spec fn insert_by_score(sorted: Seq<(Item, i64)>, e: (Item, i64)) -> Seq<(Item, i64)>
    decreases sorted.len(),
{
    if sorted.len() == 0 {
        seq![e]
    } else if sorted.last().1 >= e.1 {
        sorted.push(e)
    } else {
        insert_by_score(sorted.drop_last(), e).push(sorted.last())
    }
}

/// The items that have a score, from the highest score to the lowest;
/// items of equal score keep their order.
pub open spec fn ranked(items: Seq<Item>, scores: Seq<Option<i64>>) -> Seq<(Item, i64)>
    decreases items.len(),
{
    if items.len() == 0 {
        Seq::empty()
    } else {
        let rest = ranked(items.drop_last(), scores.drop_last());
        match scores[items.len() - 1] {
            Some(x) => insert_by_score(rest, (items.last(), x)),
            None => rest,
        }
    }
}

/// Scores that never increase along `s`.
pub open spec fn non_increasing(s: Seq<(Item, i64)>) -> bool {
    forall|i: int, j: int| 0 <= i < j < s.len() ==> #[trigger] s[i].1 >= #[trigger] s[j].1
}

proof fn lemma_insert_at(s: Seq<(Item, i64)>, e: (Item, i64), j: int)
    requires
        0 <= j <= s.len(),
        j == 0 || s[j - 1].1 >= e.1,
        forall|k: int| j <= k < s.len() ==> (#[trigger] s[k]).1 < e.1,
    ensures
        insert_by_score(s, e) == s.insert(j, e),
    decreases s.len(),
{
    if s.len() == 0 {
        assert(s.insert(j, e) =~= seq![e]);
    } else if j == s.len() {
        assert(s.insert(j, e) =~= s.push(e));
    } else {
        assert(s.last().1 < e.1);
        let d = s.drop_last();
        lemma_insert_at(d, e, j);
        assert(d.insert(j, e).push(s.last()) =~= s.insert(j, e));
    }
}

proof fn lemma_insert_sorted(s: Seq<(Item, i64)>, e: (Item, i64), j: int)
    requires
        non_increasing(s),
        0 <= j <= s.len(),
        j == 0 || s[j - 1].1 >= e.1,
        forall|k: int| j <= k < s.len() ==> (#[trigger] s[k]).1 < e.1,
    ensures
        non_increasing(s.insert(j, e)),
{
    let t = s.insert(j, e);
    assert forall|a: int, b: int| 0 <= a < b < t.len() implies #[trigger] t[a].1 >= #[trigger] t[b].1 by {
        if a < j && b < j {
            assert(t[a] == s[a] && t[b] == s[b]);
        } else if a < j && b == j {
            assert(t[a] == s[a]);
            assert(s[j - 1].1 >= e.1);
            if a < j - 1 {
                assert(s[a].1 >= s[j - 1].1);
            }
        } else if a < j {
            assert(t[a] == s[a] && t[b] == s[b - 1]);
        } else if a == j {
            assert(t[b] == s[b - 1]);
        } else {
            assert(t[a] == s[a - 1] && t[b] == s[b - 1]);
        }
    }
}

/// The items that have a score (`scores[i]` is that of `items[i]`), from
/// the highest score to the lowest; items of equal score keep their order.
pub fn rank_items(items: Vec<Item>, scores: Vec<Option<i64>>) -> (r: Vec<Item>)
    requires
        items@.len() == scores@.len(),
    ensures
        r@ == ranked(items@, scores@).map_values(|p: (Item, i64)| p.0),
        non_increasing(ranked(items@, scores@)),
{
    let ghost all = items@;
    let ghost all_scores = scores@;
    let mut rest = items;
    let mut out: Vec<Item> = Vec::new();
    let mut out_scores: Vec<i64> = Vec::new();
    let ghost mut sorted: Seq<(Item, i64)> = Seq::empty();
    let total = rest.len();
    let mut n: usize = 0;
    assert(rest@ =~= all.subrange(0, all.len() as int));
    assert(all.take(0) =~= Seq::<Item>::empty());
    assert(all_scores.take(0) =~= Seq::<Option<i64>>::empty());
    while rest.len() > 0
        invariant
            total == all.len(),
            all.len() == all_scores.len(),
            scores@ == all_scores,
            n + rest@.len() == total,
            rest@ == all.subrange(n as int, total as int),
            sorted == ranked(all.take(n as int), all_scores.take(n as int)),
            non_increasing(sorted),
            out@ == sorted.map_values(|p: (Item, i64)| p.0),
            out_scores@ == sorted.map_values(|p: (Item, i64)| p.1),
        decreases rest.len(),
    {
        let item = rest.remove(0);
        proof {
            assert(item == all[n as int]);
            assert(rest@ =~= all.subrange(n + 1, total as int));
            assert(all.take(n + 1).drop_last() =~= all.take(n as int));
            assert(all_scores.take(n + 1).drop_last() =~= all_scores.take(n as int));
            assert(all.take(n + 1).last() == item);
            assert(all_scores.take(n + 1)[n as int] == all_scores[n as int]);
        }
        match scores[n] {
            Some(x) => {
                let mut j: usize = out.len();
                while j > 0 && out_scores[j - 1] < x
                    invariant
                        j <= out@.len(),
                        out@.len() == sorted.len(),
                        out_scores@ == sorted.map_values(|p: (Item, i64)| p.1),
                        forall|k: int| j <= k < sorted.len() ==> (#[trigger] sorted[k]).1 < x,
                    decreases j,
                {
                    assert(out_scores@[j - 1] == sorted[j - 1].1);
                    j -= 1;
                }
                proof {
                    if j > 0 {
                        assert(out_scores@[j - 1] == sorted[j - 1].1);
                    }
                    lemma_insert_at(sorted, (item, x), j as int);
                    lemma_insert_sorted(sorted, (item, x), j as int);
                }
                let ghost new_sorted = sorted.insert(j as int, (item, x));
                out.insert(j, item);
                out_scores.insert(j, x);
                proof {
                    sorted = new_sorted;
                    assert(out@ =~= sorted.map_values(|p: (Item, i64)| p.0));
                    assert(out_scores@ =~= sorted.map_values(|p: (Item, i64)| p.1));
                }
            },
            None => {},
        }
        n += 1;
    }
    assert(all.take(total as int) =~= all);
    assert(all_scores.take(total as int) =~= all_scores);
    out
}

/// The text of `item` that a query is matched against.
pub fn item_search_text(item: &Item) -> (r: String)
    ensures
        r@ == search_text(*item),
{
    let mut t = match &item.subtitle {
        Some(s) => s.clone(),
        None => String::new(),
    };
    push_str(&mut t, " : ");
    push_str(&mut t, item.title.as_str());
    t
}

/// The scores of `items` for `query`.
pub open spec fn scores_for(items: Seq<Item>, query: Seq<char>) -> Seq<Option<i64>> {
    items.map_values(|it: Item| fuzzy_score_of(search_text(it), query))
}

/// The items that match `query`, best match first; items of equal score
/// keep their order.
pub fn filter_and_sort_items(items: Vec<Item>, query: &str) -> (r: Vec<Item>)
    ensures
        r@ == ranked(items@, scores_for(items@, query@)).map_values(|p: (Item, i64)| p.0),
{
    let mut scores: Vec<Option<i64>> = Vec::new();
    let mut i: usize = 0;
    while i < items.len()
        invariant
            i <= items@.len(),
            scores@ == scores_for(items@.take(i as int), query@),
        decreases items.len() - i,
    {
        let text = item_search_text(&items[i]);
        let s = fuzzy_score(text.as_str(), query);
        scores.push(s);
        i += 1;
        assert(scores@ =~= scores_for(items@.take(i as int), query@));
    }
    assert(items@.take(items@.len() as int) =~= items@);
    rank_items(items, scores)
}

/// Filters and ranks the response's items where a filter keyword is set.
pub fn apply_filter(workflow: &mut Workflow)
    ensures
        ({
            let w = *old(workflow);
            if w.sort_and_filter_results && w.keyword is Some {
                &&& final(workflow).response.items@ == ranked(
                    w.response.items@,
                    scores_for(w.response.items@, w.keyword->0@),
                ).map_values(|p: (Item, i64)| p.0)
                &&& *final(workflow) == (Workflow {
                    response: Response { items: final(workflow).response.items, ..w.response },
                    ..w
                })
            } else {
                *final(workflow) == w
            }
        }),
{
    if workflow.sort_and_filter_results {
        match &workflow.keyword {
            Some(k) => {
                let k = k.clone();
                let mut items: Vec<Item> = Vec::new();
                std::mem::swap(&mut items, &mut workflow.response.items);
                workflow.response.items = filter_and_sort_items(items, k.as_str());
            },
            None => {},
        }
    }
}

} // verus!
