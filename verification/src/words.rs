//! Choosing the next word of a level at random among the words not used yet.

use rand::rngs::ThreadRng;
use rand::seq::SliceRandom;
use crate::in_game::Level;
use vstd::prelude::*;

verus! {

/// A word of the wordbook: its title, its reading in hiragana and its romaji.
pub type Word = (String, String, String);

/// The word lists of the four levels.
pub struct Wordbook {
    pub easy: Vec<Word>,
    pub medium: Vec<Word>,
    pub hard: Vec<Word>,
    pub extra_hard: Vec<Word>,
}

/// The word list of a level.
pub open spec fn words_of(book: Wordbook, level: Level) -> Seq<Word> {
    match level {
        Level::Easy => book.easy@,
        Level::Medium => book.medium@,
        Level::Hard => book.hard@,
        Level::ExtraHard => book.extra_hard@,
    }
}

/// Some word of the level has an index that is not among the used ones.
pub open spec fn has_unused_word(book: Wordbook, level: Level, used: Seq<usize>) -> bool {
    exists|i: int|
        #![trigger used.contains(i as usize)]
        0 <= i < words_of(book, level).len() && !used.contains(i as usize)
}

#[verifier::external_type_specification]
#[verifier::external_body]
pub struct ExThreadRng(ThreadRng);

/// Calls `rand::thread_rng`, the generator seeded by the system. Nothing is
/// stated of the generator that comes back.
#[verifier::external_body]
fn thread_rng() -> ThreadRng {
    rand::thread_rng()
}

/// Calls `SliceRandom::shuffle` on the indices. Trusted: the shuffle only
/// swaps elements, so the result holds the same indices, each as often as
/// before; which order comes back rests on the generator and is not stated.
#[verifier::external_body]
fn shuffle_indices(v: &mut Vec<usize>, rng: &mut ThreadRng)
    ensures
        final(v)@.len() == old(v)@.len(),
        final(v)@.to_multiset() == old(v)@.to_multiset(),
{
    v.shuffle(rng)
}

/// Whether `i` is among the used indices.
fn contains_index(used: &Vec<usize>, i: usize) -> (res: bool)
    ensures
        res == used@.contains(i),
{
    let n: usize = used.len();
    let mut j: usize = 0;
    while j < n
        invariant
            n == used@.len(),
            j <= n,
            forall|k: int| 0 <= k < j ==> used@[k] != i,
        decreases n - j,
    {
        if used[j] == i {
            return true;
        }
        j = j + 1;
    }
    false
}

/// Whether some word of the level has an index that is not among the used
/// ones.
pub fn unused_word_left(book: &Wordbook, level: Level, used: &Vec<usize>) -> (res: bool)
    ensures
        res == has_unused_word(*book, level, used@),
{
    let n: usize = words_for(book, level).len();
    let mut i: usize = 0;
    while i < n
        invariant
            n == words_of(*book, level).len(),
            i <= n,
            forall|k: int| 0 <= k < i ==> #[trigger] used@.contains(k as usize),
        decreases n - i,
    {
        if !contains_index(used, i) {
            assert(!used@.contains(i as int as usize));
            return true;
        }
        i = i + 1;
    }
    false
}

/// The first index of `order` that is not among the used ones, if any.
pub fn pick_unused(order: &Vec<usize>, used: &Vec<usize>) -> (res: Option<usize>)
    ensures
        match res {
            Some(i) => exists|j: int|
                0 <= j < order@.len() && order@[j] == i && !used@.contains(i) && forall|k: int|
                    0 <= k < j ==> used@.contains(#[trigger] order@[k]),
            None => forall|k: int| 0 <= k < order@.len() ==> used@.contains(#[trigger] order@[k]),
        },
{
    let n: usize = order.len();
    let mut j: usize = 0;
    while j < n
        invariant
            n == order@.len(),
            j <= n,
            forall|k: int| 0 <= k < j ==> used@.contains(#[trigger] order@[k]),
        decreases n - j,
    {
        let i: usize = order[j];
        if !contains_index(used, i) {
            return Some(i);
        }
        j = j + 1;
    }
    None
}

/// The indices `0..n` in order.
fn all_indices(n: usize) -> (res: Vec<usize>)
    ensures
        res@.len() == n,
        forall|i: int| 0 <= i < n ==> res@[i] == i,
{
    let mut res: Vec<usize> = Vec::new();
    let mut i: usize = 0;
    while i < n
        invariant
            i <= n,
            res@.len() == i,
            forall|k: int| 0 <= k < i ==> res@[k] == k,
        decreases n - i,
    {
        res.push(i);
        i = i + 1;
    }
    res
}

/// The word list of a level.
pub fn words_for(book: &Wordbook, level: Level) -> (res: &Vec<Word>)
    ensures
        res@ == words_of(*book, level),
{
    match level {
        Level::Easy => &book.easy,
        Level::Medium => &book.medium,
        Level::Hard => &book.hard,
        Level::ExtraHard => &book.extra_hard,
    }
}

/// Chooses a word of the level at random among those whose index is not
/// used. Some such word must exist.
pub fn choice_word(book: &Wordbook, level: Level, used_word_indexes: &Vec<usize>) -> (res: Word)
    requires
        has_unused_word(*book, level, used_word_indexes@),
    ensures
        exists|i: int|
            0 <= i < words_of(*book, level).len() && !used_word_indexes@.contains(i as usize)
                && res == #[trigger] words_of(*book, level)[i],
{
    broadcast use vstd::seq_lib::group_to_multiset_ensures;

    let words = words_for(book, level);
    let mut rng = thread_rng();
    let mut nums = all_indices(words.len());
    let ghost ordered = nums@;
    shuffle_indices(&mut nums, &mut rng);
    let ghost w = choose|i: int|
        #![trigger used_word_indexes@.contains(i as usize)]
        0 <= i < words@.len() && !used_word_indexes@.contains(i as usize);
    assert(ordered[w] == w as usize);
    assert(ordered.contains(w as usize));
    assert(nums@.to_multiset().count(w as usize) > 0);
    assert(nums@.contains(w as usize));
    let picked = pick_unused(&nums, used_word_indexes);
    proof {
        if picked is None {
            let k = choose|k: int| 0 <= k < nums@.len() && #[trigger] nums@[k] == w as usize;
            assert(used_word_indexes@.contains(nums@[k]));
        }
    }
    let i: usize = picked.unwrap();
    assert(ordered.to_multiset().count(i) > 0);
    assert(ordered.contains(i));
    let (a, b, c) = &words[i];
    (a.clone(), b.clone(), c.clone())
}

} // verus!
