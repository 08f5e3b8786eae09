//! The size ceiling that concurrent compression attempts share.
//!
//! The ceiling is one atomic word. The word `usize::MAX` stands for "no
//! ceiling yet"; every other word is a byte count. The only update is an
//! atomic minimum, so the word never grows, whatever the interleaving.
//!
//! Verus sees nothing inside an atomic that is reached through a shared
//! reference: another thread may change it between any two steps. The
//! methods of [`AtomicMin`] therefore promise only what holds of every
//! interleaving. What one update does to the ceiling, and what any number of
//! them leave behind, is stated and proved over the model below: `limit_of`,
//! `lowered` and `lowered_all`.

use std::sync::atomic::AtomicUsize;
use std::sync::atomic::Ordering;
use vstd::prelude::*;

verus! {

/// The ceiling that an atomic word stands for.
pub open spec fn limit_of(word: usize) -> Option<usize> {
    if word == usize::MAX {
        None
    } else {
        Some(word)
    }
}

/// The atomic word that stands for a ceiling.
pub open spec fn word_of(limit: Option<usize>) -> usize {
    match limit {
        Some(bytes) => bytes,
        None => usize::MAX,
    }
}

/// A ceiling that a word can hold: `usize::MAX` bytes is not one.
pub open spec fn representable(limit: Option<usize>) -> bool {
    limit != Some(usize::MAX)
}

/// The ceiling after `candidate` has been offered to `limit`: the candidate
/// where there was no ceiling or a larger one, the old ceiling otherwise. An
/// offer of `usize::MAX` bytes, which no word can tell from "unset", changes
/// nothing.
pub open spec fn lowered(limit: Option<usize>, candidate: usize) -> Option<usize> {
    if candidate == usize::MAX {
        limit
    } else {
        match limit {
            Some(bytes) if bytes <= candidate => limit,
            _ => Some(candidate),
        }
    }
}

/// The ceiling after the candidates in `offers` have been offered to `limit`,
/// one after the other.
pub open spec fn lowered_all(limit: Option<usize>, offers: Seq<usize>) -> Option<usize>
    decreases offers.len(),
{
    if offers.len() == 0 {
        limit
    } else {
        lowered(lowered_all(limit, offers.drop_last()), offers.last())
    }
}

/// One atomic step does what the model says: storing the smaller of the
/// stored word and the candidate lowers the ceiling by that candidate.
pub proof fn min_word_is_lowered(word: usize, candidate: usize)
    ensures
        limit_of(if candidate < word { candidate } else { word }) == lowered(limit_of(word), candidate),
        representable(lowered(limit_of(word), candidate)),
{
}

/// Offers only ever lower the ceiling, and they leave the least value seen:
/// after any sequence of offers the stored word is no larger than the word
/// before and no larger than any offer, and it is the word before or one of
/// the offers.
pub proof fn lowered_all_is_least(limit: Option<usize>, offers: Seq<usize>)
    requires
        representable(limit),
    ensures
        representable(lowered_all(limit, offers)),
        word_of(lowered_all(limit, offers)) <= word_of(limit),
        forall|i: int| 0 <= i < offers.len() ==> word_of(lowered_all(limit, offers)) <= offers[i],
        word_of(lowered_all(limit, offers)) == word_of(limit) || offers.contains(
            word_of(lowered_all(limit, offers)),
        ),
    decreases offers.len(),
{
    if offers.len() > 0 {
        let before = offers.drop_last();
        lowered_all_is_least(limit, before);
        let mid = word_of(lowered_all(limit, before));
        let after = word_of(lowered_all(limit, offers));
        assert(after == mid || after == offers.last());
        if after != word_of(limit) {
            if after == offers.last() {
                assert(offers[offers.len() - 1] == after);
            } else {
                let j = choose|j: int| 0 <= j < before.len() && before[j] == after;
                assert(offers[j] == after);
            }
        }
        assert forall|i: int| 0 <= i < offers.len() implies after <= offers[i] by {
            if i < before.len() {
                assert(before[i] == offers[i]);
            }
        }
    }
}

/// At every moment the ceiling is the least candidate offered so far: once
/// the first `k` of the offers have reached a ceiling that started unset, it
/// is one of them, and none of them is smaller. An offer of `usize::MAX`
/// bytes cannot be held apart from "unset", so the offers are below that.
pub proof fn ceiling_is_least_offer_so_far(offers: Seq<usize>, k: int)
    requires
        0 < k <= offers.len(),
        forall|i: int| 0 <= i < offers.len() ==> offers[i] < usize::MAX,
    ensures
        lowered_all(None, offers.take(k)) matches Some(least) && (exists|j: int|
            0 <= j < k && offers[j] == least) && (forall|j: int| 0 <= j < k ==> least <= offers[j]),
{
    let seen = offers.take(k);
    lowered_all_is_least(None, seen);
    let word = word_of(lowered_all(None, seen));
    assert(word <= seen[0]);
    assert(seen.contains(word));
    let j = choose|j: int| 0 <= j < seen.len() && seen[j] == word;
    assert(offers[j] == word);
    assert forall|j: int| 0 <= j < k implies word <= offers[j] by {
        assert(seen[j] == offers[j]);
    }
}

/// The ceiling never rises: what is read after more offers is no larger
/// than what was read after fewer.
pub proof fn ceiling_never_rises(limit: Option<usize>, offers: Seq<usize>, k: int)
    requires
        representable(limit),
        0 <= k <= offers.len(),
    ensures
        word_of(lowered_all(limit, offers)) <= word_of(lowered_all(limit, offers.take(k))),
    decreases offers.len() - k,
{
    if k == offers.len() {
        assert(offers.take(k) == offers);
    } else {
        ceiling_never_rises(limit, offers, k + 1);
        assert(offers.take(k + 1).drop_last() == offers.take(k));
        lowered_all_is_least(limit, offers.take(k));
    }
}

/// The order of the offers does not matter: two sequences that hold the
/// same candidates, each as often as the other, leave the same ceiling. So
/// every interleaving of concurrent offers ends at one value.
pub proof fn ceiling_ignores_order(limit: Option<usize>, first: Seq<usize>, second: Seq<usize>)
    requires
        representable(limit),
        first.to_multiset() == second.to_multiset(),
    ensures
        lowered_all(limit, first) == lowered_all(limit, second),
{
    lowered_all_is_least(limit, first);
    lowered_all_is_least(limit, second);
    first.to_multiset_ensures();
    second.to_multiset_ensures();
    let a = word_of(lowered_all(limit, first));
    let b = word_of(lowered_all(limit, second));
    if a != word_of(limit) {
        assert(first.contains(a));
        assert(second.to_multiset().count(a) > 0);
        assert(second.contains(a));
    }
    if b != word_of(limit) {
        assert(second.contains(b));
        assert(first.to_multiset().count(b) > 0);
        assert(first.contains(b));
    }
    assert(a == b);
}

/// A shared ceiling on the size of a compressed stream: unset, or the
/// smallest size that any attempt has reported so far.
#[derive(Debug)]
pub struct AtomicMin {
    val: AtomicUsize,
}

impl AtomicMin {
    /// A ceiling that starts at `init`; `None` is no ceiling.
    pub fn new(init: Option<usize>) -> (made: AtomicMin) {
        AtomicMin { val: AtomicUsize::new(word_for(init)) }
    }

    /// The ceiling as it stands at the moment of the call.
    pub fn get(&self) -> (limit: Option<usize>)
        ensures
            representable(limit),
    {
        let word: usize = self.val.load(Ordering::SeqCst);
        limit_for(word)
    }

    /// Offers `candidate`: the ceiling becomes `candidate` if it was unset
    /// or larger, in one atomic step, and stays as it is otherwise.
    pub fn try_lower(&self, candidate: usize) {
        let _seen: usize = self.val.fetch_min(candidate, Ordering::SeqCst);
    }
}

/// The word that is stored for a ceiling.
pub fn word_for(limit: Option<usize>) -> (word: usize)
    ensures
        word == word_of(limit),
        representable(limit) ==> limit_of(word) == limit,
{
    match limit {
        Some(bytes) => bytes,
        None => usize::MAX,
    }
}

/// The ceiling that a stored word stands for.
pub fn limit_for(word: usize) -> (limit: Option<usize>)
    ensures
        limit == limit_of(word),
        representable(limit),
        word_of(limit) == word,
{
    if word == usize::MAX {
        None
    } else {
        Some(word)
    }
}

} // verus!
