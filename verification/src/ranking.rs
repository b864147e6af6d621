//! Ranking of texts by the words they share.
//!
//! Two texts are compared by their sets of words, without regard to case.
//! This module counts the words that both have and the words that only one
//! has; the similarity of the texts is the first count over the sum of all
//! three, which is the caller's to divide.

use vstd::prelude::*;
use vstd::string::*;
use crate::logs::{lower, lowercase};
use crate::stream::{split_words, words};
use crate::text::{same_text, views};

verus! {

/// The words of `text` in lower case, each once.
pub open spec fn tokens(text: Seq<char>) -> Set<Seq<char>> {
    words(text).map_values(|word: Seq<char>| lowercase(word)).to_set()
}

/// How the words of two texts overlap.
#[derive(Debug, Clone, Copy, PartialEq, Eq, Structural)]
pub struct Overlap {
    /// The number of words that both texts have.
    pub shared: usize,
    /// The number of words that only the first text has.
    pub only_first: usize,
    /// The number of words that only the second text has.
    pub only_second: usize,
}

fn lowered_words(text: &str) -> (list: Vec<String>)
    ensures
        views(list@) == words(text@).map_values(|word: Seq<char>| lowercase(word)),
{
    let found = split_words(text);
    let ghost expected = words(text@).map_values(|word: Seq<char>| lowercase(word));
    let mut list: Vec<String> = Vec::new();
    let mut i: usize = 0;
    while i < found.len()
        invariant
            i <= found.len(),
            views(found@) == words(text@),
            expected == words(text@).map_values(|word: Seq<char>| lowercase(word)),
            list.len() == i,
            forall|k: int| 0 <= k < i ==> (#[trigger] list@[k])@ == expected[k],
        decreases found.len() - i,
    {
        assert(views(found@)[i as int] == found@[i as int]@);
        list.push(lower(found[i].as_str()));
        i = i + 1;
    }
    assert(views(list@) =~= expected);
    list
}

fn holds(list: &Vec<String>, item: &str) -> (found: bool)
    ensures
        found == views(list@).contains(item@),
{
    let mut i: usize = 0;
    while i < list.len()
        invariant
            i <= list.len(),
            forall|k: int| 0 <= k < i ==> views(list@)[k] != item@,
        decreases list.len() - i,
    {
        assert(views(list@)[i as int] == list@[i as int]@);
        if same_text(list[i].as_str(), item) {
            return true;
        }
        i = i + 1;
    }
    false
}

/// Taking one item more into a set of items adds that item to the set.
proof fn lemma_take_one_more(items: Seq<Seq<char>>, count: int)
    requires
        0 <= count < items.len(),
    ensures
        items.take(count + 1).to_set() == items.take(count).to_set().insert(items[count]),
        items.take(count).to_set().finite(),
{
    let shorter = items.take(count);
    let longer = items.take(count + 1);
    vstd::seq_lib::seq_to_set_is_finite(shorter);
    assert(longer =~= shorter.push(items[count]));
    assert forall|item: Seq<char>| longer.to_set().contains(item) <==> shorter.to_set().insert(
        items[count],
    ).contains(item) by {
        if longer.contains(item) {
            let k = choose|k: int| 0 <= k < longer.len() && longer[k] == item;
            if k < count {
                assert(shorter[k] == item);
            }
        }
        if shorter.contains(item) {
            let k = choose|k: int| 0 <= k < shorter.len() && shorter[k] == item;
            assert(longer[k] == item);
        }
        assert(longer[count] == items[count]);
    }
    assert(longer.to_set() =~= shorter.to_set().insert(items[count]));
}

fn distinct(list: &Vec<String>) -> (kept: Vec<String>)
    ensures
        views(kept@).no_duplicates(),
        views(kept@).to_set() == views(list@).to_set(),
{
    let ghost all = views(list@);
    let mut kept: Vec<String> = Vec::new();
    let mut i: usize = 0;
    assert(views(kept@) =~= Seq::<Seq<char>>::empty());
    assert(all.take(0) =~= Seq::<Seq<char>>::empty());
    assert(views(kept@).to_set() =~= all.take(0).to_set());
    while i < list.len()
        invariant
            i <= list.len(),
            all == views(list@),
            views(kept@).no_duplicates(),
            views(kept@).to_set() == all.take(i as int).to_set(),
        decreases list.len() - i,
    {
        proof {
            lemma_take_one_more(all, i as int);
        }
        assert(all[i as int] == list@[i as int]@);
        if !holds(&kept, list[i].as_str()) {
            let ghost before = views(kept@);
            kept.push(list[i].clone());
            proof {
                let after = views(kept@);
                assert(after =~= before.push(all[i as int]));
                assert(after.take(before.len() as int) =~= before);
                lemma_take_one_more(after, before.len() as int);
            }
        } else {
            assert(all.take(i as int).to_set().insert(all[i as int]) =~= all.take(i as int).to_set());
        }
        i = i + 1;
    }
    assert(all.take(list.len() as int) =~= all);
    kept
}

fn count_split(items: &Vec<String>, other: &Vec<String>) -> (counts: (usize, usize))
    requires
        views(items@).no_duplicates(),
    ensures
        counts.0 == views(items@).to_set().intersect(views(other@).to_set()).len(),
        counts.1 == views(items@).to_set().difference(views(other@).to_set()).len(),
{
    let ghost all = views(items@);
    let ghost others = views(other@).to_set();
    let mut inside: usize = 0;
    let mut outside: usize = 0;
    let mut i: usize = 0;
    assert(all.take(0) =~= Seq::<Seq<char>>::empty());
    assert(all.take(0).to_set().intersect(others) =~= Set::<Seq<char>>::empty());
    assert(all.take(0).to_set().difference(others) =~= Set::<Seq<char>>::empty());
    while i < items.len()
        invariant
            i <= items.len(),
            all == views(items@),
            all.no_duplicates(),
            others == views(other@).to_set(),
            inside + outside == i,
            inside == all.take(i as int).to_set().intersect(others).len(),
            outside == all.take(i as int).to_set().difference(others).len(),
        decreases items.len() - i,
    {
        let ghost seen = all.take(i as int).to_set();
        let ghost item = all[i as int];
        proof {
            lemma_take_one_more(all, i as int);
            assert(!seen.contains(item)) by {
                if all.take(i as int).contains(item) {
                    let k = choose|k: int| 0 <= k < i && all.take(i as int)[k] == item;
                    assert(all[k] == all[i as int]);
                }
            }
            assert(seen.intersect(others).finite());
            assert(seen.difference(others).finite());
        }
        assert(all[i as int] == items@[i as int]@);
        if holds(other, items[i].as_str()) {
            proof {
                assert(seen.insert(item).intersect(others) =~= seen.intersect(others).insert(item));
                assert(seen.insert(item).difference(others) =~= seen.difference(others));
            }
            inside = inside + 1;
        } else {
            proof {
                assert(seen.insert(item).intersect(others) =~= seen.intersect(others));
                assert(seen.insert(item).difference(others) =~= seen.difference(others).insert(
                    item,
                ));
            }
            outside = outside + 1;
        }
        i = i + 1;
    }
    assert(all.take(items.len() as int) =~= all);
    (inside, outside)
}

/// Counts how the words of `a` and `b` overlap.
pub fn token_overlap(a: &str, b: &str) -> (overlap: Overlap)
    ensures
        overlap.shared == tokens(a@).intersect(tokens(b@)).len(),
        overlap.only_first == tokens(a@).difference(tokens(b@)).len(),
        overlap.only_second == tokens(b@).difference(tokens(a@)).len(),
{
    let first = distinct(&lowered_words(a));
    let second = distinct(&lowered_words(b));
    let of_first = count_split(&first, &second);
    let of_second = count_split(&second, &first);
    Overlap { shared: of_first.0, only_first: of_first.1, only_second: of_second.1 }
}

} // verus!
