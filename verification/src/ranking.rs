//! Scoring and ordering search results: the best score first, and among
//! equal scores whatever came first.

use vstd::prelude::*;
use crate::text::{contains, has_substring, lowercase_of, pinyin_initials_of, pinyin_of, same_text, starts_with, to_lowercase, to_pinyin, to_pinyin_initials};

verus! {

/// Entry `a` comes before entry `b`: its key is higher, or the keys are equal
/// and it stood earlier.
pub open spec fn outranks(keys: Seq<Option<u64>>, a: int, b: int) -> bool {
    keys[a]->0 > keys[b]->0 || (keys[a]->0 == keys[b]->0 && a < b)
}

/// Every member of `order` is the index of an entry that has a key.
pub open spec fn ranks_keyed_entries(order: Seq<usize>, keys: Seq<Option<u64>>) -> bool {
    forall|k: int| 0 <= k < order.len() ==> (#[trigger] order[k]) < keys.len() && keys[order[k] as int] is Some
}

/// Whatever stands earlier in `order` outranks whatever stands later.
pub open spec fn ranks_in_order(order: Seq<usize>, keys: Seq<Option<u64>>) -> bool {
    forall|k: int, l: int|
        0 <= k < l < order.len() ==> outranks(keys, #[trigger] order[k] as int, #[trigger] order[l] as int)
}

/// Every one of the first `n` entries that has a key is in `order`.
pub open spec fn ranks_all_below(order: Seq<usize>, keys: Seq<Option<u64>>, n: int) -> bool {
    forall|i: int| 0 <= i < n && i < keys.len() && (#[trigger] keys[i]) is Some ==> order.contains(i as usize)
}

/// `order` is the ranking of `keys`: it holds the index of every entry that
/// has a key, each once, the higher key first and equal keys in their old
/// order. There is one such sequence and no other.
pub open spec fn is_ranking(order: Seq<usize>, keys: Seq<Option<u64>>) -> bool {
    &&& ranks_keyed_entries(order, keys)
    &&& ranks_in_order(order, keys)
    &&& ranks_all_below(order, keys, keys.len() as int)
}

/// The ranking of `keys`.
pub open spec fn ranking_of(keys: Seq<Option<u64>>) -> Seq<usize> {
    choose|order: Seq<usize>| is_ranking(order, keys)
}

/// Two sequences that are both in ranking order and hold the same indices are
/// one and the same.
pub proof fn lemma_same_members_same_order(a: Seq<usize>, b: Seq<usize>, keys: Seq<Option<u64>>)
    requires
        ranks_in_order(a, keys),
        ranks_in_order(b, keys),
        forall|x: usize| a.contains(x) <==> b.contains(x),
    ensures
        a == b,
    decreases a.len(),
{
    if a.len() == 0 {
        if b.len() > 0 {
            assert(b.contains(b[0]));
            assert(a.contains(b[0]));
        }
        assert(a =~= b);
    } else {
        assert(a.contains(a[0]));
        assert(b.contains(a[0]));
        let j = choose|j: int| 0 <= j < b.len() && b[j] == a[0];
        assert(b.contains(b[0]));
        assert(a.contains(b[0]));
        let m = choose|m: int| 0 <= m < a.len() && a[m] == b[0];
        if j > 0 {
            assert(outranks(keys, b[0] as int, b[j] as int));
            if m > 0 {
                assert(outranks(keys, a[0] as int, a[m] as int));
            }
            assert(false);
        }
        assert(a[0] == b[0]);
        let at = a.drop_first();
        let bt = b.drop_first();
        assert forall|x: usize| at.contains(x) <==> bt.contains(x) by {
            if at.contains(x) {
                let k = choose|k: int| 0 <= k < at.len() && at[k] == x;
                assert(a[k + 1] == x);
                assert(outranks(keys, a[0] as int, a[k + 1] as int));
                assert(a.contains(x));
                assert(b.contains(x));
                let l = choose|l: int| 0 <= l < b.len() && b[l] == x;
                assert(l > 0);
                assert(bt[l - 1] == x);
            }
            if bt.contains(x) {
                let k = choose|k: int| 0 <= k < bt.len() && bt[k] == x;
                assert(b[k + 1] == x);
                assert(outranks(keys, b[0] as int, b[k + 1] as int));
                assert(b.contains(x));
                assert(a.contains(x));
                let l = choose|l: int| 0 <= l < a.len() && a[l] == x;
                assert(l > 0);
                assert(at[l - 1] == x);
            }
        }
        assert(ranks_in_order(at, keys)) by {
            assert forall|k: int, l: int| 0 <= k < l < at.len() implies outranks(
                keys,
                #[trigger] at[k] as int,
                #[trigger] at[l] as int,
            ) by {
                assert(at[k] == a[k + 1] && at[l] == a[l + 1]);
            }
        }
        assert(ranks_in_order(bt, keys)) by {
            assert forall|k: int, l: int| 0 <= k < l < bt.len() implies outranks(
                keys,
                #[trigger] bt[k] as int,
                #[trigger] bt[l] as int,
            ) by {
                assert(bt[k] == b[k + 1] && bt[l] == b[l + 1]);
            }
        }
        lemma_same_members_same_order(at, bt, keys);
        assert(a =~= seq![a[0]] + at);
        assert(b =~= seq![b[0]] + bt);
    }
}

/// There is one ranking of `keys` and no other.
pub proof fn lemma_ranking_is_unique(a: Seq<usize>, b: Seq<usize>, keys: Seq<Option<u64>>)
    requires
        is_ranking(a, keys),
        is_ranking(b, keys),
    ensures
        a == b,
        a == ranking_of(keys),
{
    assert forall|x: usize| a.contains(x) <==> b.contains(x) by {
        if a.contains(x) {
            let k = choose|k: int| 0 <= k < a.len() && a[k] == x;
            assert(keys[x as int] is Some);
        }
        if b.contains(x) {
            let k = choose|k: int| 0 <= k < b.len() && b[k] == x;
            assert(keys[x as int] is Some);
        }
    }
    lemma_same_members_same_order(a, b, keys);
    let c = ranking_of(keys);
    assert forall|x: usize| a.contains(x) <==> c.contains(x) by {
        if a.contains(x) {
            let k = choose|k: int| 0 <= k < a.len() && a[k] == x;
            assert(keys[x as int] is Some);
        }
        if c.contains(x) {
            let k = choose|k: int| 0 <= k < c.len() && c[k] == x;
            assert(keys[x as int] is Some);
        }
    }
    lemma_same_members_same_order(a, c, keys);
}

/// A ranking is no longer than the list of keys, and holds no index twice.
pub proof fn lemma_ranking_has_no_duplicates(order: Seq<usize>, keys: Seq<Option<u64>>, k: int, l: int)
    requires
        is_ranking(order, keys),
        0 <= k < l < order.len(),
    ensures
        order[k] != order[l],
{
    assert(outranks(keys, order[k] as int, order[l] as int));
}

/// Ranks the entries that have a key: the highest key first, equal keys in
/// the order in which they stand in `keys`.
pub fn rank(keys: &Vec<Option<u64>>) -> (order: Vec<usize>)
    ensures
        is_ranking(order@, keys@),
        order@ == ranking_of(keys@),
{
    let mut order: Vec<usize> = Vec::new();
    let mut i: usize = 0;
    while i < keys.len()
        invariant
            i <= keys.len(),
            ranks_keyed_entries(order@, keys@),
            ranks_in_order(order@, keys@),
            ranks_all_below(order@, keys@, i as int),
            forall|k: int| 0 <= k < order@.len() ==> (#[trigger] order@[k]) < i,
        decreases keys.len() - i,
    {
        match keys[i] {
            Some(key) => {
                let mut p: usize = 0;
                while p < order.len() && key_at(keys, order[p]) >= key
                    invariant
                        p <= order.len(),
                        i < keys.len(),
                        keys@[i as int] == Some(key),
                        ranks_keyed_entries(order@, keys@),
                        forall|k: int| 0 <= k < p ==> keys@[(#[trigger] order@[k]) as int]->0 >= key,
                    decreases order.len() - p,
                {
                    p += 1;
                }
                let ghost before = order@;
                order.insert(p, i);
                proof {
                    let after = order@;
                    assert(after == before.insert(p as int, i));
                    assert forall|k: int| 0 <= k < after.len() implies (#[trigger] after[k])
                        < keys@.len() && keys@[after[k] as int] is Some && after[k] < i + 1 by {
                        if k < p {
                            assert(after[k] == before[k]);
                        } else if k > p {
                            assert(after[k] == before[k - 1]);
                        }
                    }
                    assert forall|k: int, l: int| 0 <= k < l < after.len() implies outranks(
                        keys@,
                        #[trigger] after[k] as int,
                        #[trigger] after[l] as int,
                    ) by {
                        if l < p {
                            assert(after[k] == before[k] && after[l] == before[l]);
                        } else if l == p {
                            assert(after[k] == before[k]);
                        } else if k == p {
                            assert(after[l] == before[l - 1]);
                            if l - 1 > p {
                                assert(outranks(keys@, before[p as int] as int, before[l - 1] as int));
                            }
                        } else if k < p {
                            assert(after[k] == before[k] && after[l] == before[l - 1]);
                        } else {
                            assert(after[k] == before[k - 1] && after[l] == before[l - 1]);
                        }
                    }
                    assert forall|x: int| 0 <= x < i + 1 && x < keys@.len() && (
                    #[trigger] keys@[x]) is Some implies after.contains(x as usize) by {
                        if x == i {
                            assert(after[p as int] == i);
                        } else {
                            assert(before.contains(x as usize));
                            let k = choose|k: int| 0 <= k < before.len() && before[k] == x as usize;
                            if k < p {
                                assert(after[k] == before[k]);
                            } else {
                                assert(after[k + 1] == before[k]);
                            }
                        }
                    }
                }
            },
            None => {},
        }
        i += 1;
    }
    proof {
        lemma_ranking_is_unique(order@, order@, keys@);
    }
    order
}

/// The key of entry `i`, zero where it has none.
fn key_at(keys: &Vec<Option<u64>>, i: usize) -> (key: u64)
    requires
        i < keys.len(),
    ensures
        keys@[i as int] is Some ==> key == keys@[i as int]->0,
{
    match keys[i] {
        Some(key) => key,
        None => 0,
    }
}

/// A value that can be copied field by field. The searches hand out copies
/// of what they find.
pub trait Replicate: Sized {
    /// A copy equal to `self`.
    fn replicate(&self) -> (copy: Self)
        ensures
            copy == *self,
    ;
}

/// The key of a score: an entry that scores nothing has no key and is left
/// out of the ranking.
pub open spec fn key_of_score(score: int) -> Option<u64> {
    if score > 0 {
        Some(score as u64)
    } else {
        None
    }
}

/// The key of a score.
pub fn score_key(score: u64) -> (key: Option<u64>)
    ensures
        key == key_of_score(score as int),
{
    if score > 0 {
        Some(score)
    } else {
        None
    }
}

/// The entries of `items` that `order` names, in its order.
pub open spec fn selection<T>(items: Seq<T>, order: Seq<usize>) -> Seq<T> {
    Seq::new(order.len(), |k: int| items[order[k] as int])
}

/// Copies the entries that `order` names, in its order.
pub fn select<T: Replicate>(items: &[T], order: &Vec<usize>) -> (picked: Vec<T>)
    requires
        forall|k: int| 0 <= k < order@.len() ==> (#[trigger] order@[k]) < items@.len(),
    ensures
        picked@ == selection(items@, order@),
{
    let mut picked: Vec<T> = Vec::new();
    let mut k: usize = 0;
    while k < order.len()
        invariant
            k <= order.len(),
            picked@.len() == k,
            forall|j: int| 0 <= j < order@.len() ==> (#[trigger] order@[j]) < items@.len(),
            forall|j: int| 0 <= j < k ==> picked@[j] == items@[order@[j] as int],
        decreases order.len() - k,
    {
        picked.push(items[order[k]].replicate());
        k += 1;
    }
    assert(picked@ =~= selection(items@, order@));
    picked
}

/// A copy of a text.
pub fn replicate_text(text: &String) -> (copy: String)
    ensures
        copy == *text,
{
    text.clone()
}

/// A copy of a text that may be missing.
pub fn replicate_optional_text(text: &Option<String>) -> (copy: Option<String>)
    ensures
        copy == *text,
{
    match text {
        Some(t) => Some(t.clone()),
        None => None,
    }
}

/// How well `text` matches `query`: `exact` where they are the same, `prefix`
/// where the text begins with the query, `inside` where the query occurs in
/// it, and nothing otherwise.
pub open spec fn graded_match(
    text: Seq<char>,
    query: Seq<char>,
    exact: int,
    prefix: int,
    inside: int,
) -> int {
    if text == query {
        exact
    } else if query.is_prefix_of(text) {
        prefix
    } else if has_substring(text, query) {
        inside
    } else {
        0
    }
}

/// `bonus` where the query occurs in `text`.
pub open spec fn inside_match(text: Seq<char>, query: Seq<char>, bonus: int) -> int {
    if has_substring(text, query) {
        bonus
    } else {
        0
    }
}

/// Grades how well `text` matches `query`.
pub fn grade_match(text: &str, query: &str, exact: u64, prefix: u64, inside: u64) -> (score: u64)
    ensures
        score == graded_match(text@, query@, exact as int, prefix as int, inside as int),
{
    if same_text(text, query) {
        exact
    } else if starts_with(text, query) {
        prefix
    } else if contains(text, query) {
        inside
    } else {
        0
    }
}

/// Gives `bonus` where the query occurs in `text`.
pub fn grade_inside(text: &str, query: &str, bonus: u64) -> (score: u64)
    ensures
        score == inside_match(text@, query@, bonus as int),
{
    if contains(text, query) {
        bonus
    } else {
        0
    }
}

/// What the pinyin of `text` adds to its score for a query in lower case: 800,
/// 400 or 150 for the full pinyin, and 600, 300 or 120 for the initials.
pub open spec fn pinyin_match(text: Seq<char>, query_lower: Seq<char>) -> int {
    graded_match(lowercase_of(pinyin_of(text)), query_lower, 800, 400, 150) + graded_match(
        lowercase_of(pinyin_initials_of(text)),
        query_lower,
        600,
        300,
        120,
    )
}

/// Grades how well the pinyin of `text` matches a query in lower case.
pub fn grade_pinyin(text: &str, query_lower: &str) -> (score: u64)
    ensures
        score == pinyin_match(text@, query_lower@),
{
    let full = to_lowercase(to_pinyin(text).as_str());
    let initials = to_lowercase(to_pinyin_initials(text).as_str());
    let by_full = grade_match(full.as_str(), query_lower, 800, 400, 150);
    let by_initials = grade_match(initials.as_str(), query_lower, 600, 300, 120);
    by_full + by_initials
}

} // verus!
