//! The set of episode titles that a podcast's directory already holds.

use vstd::prelude::*;
use crate::text::{stem, strip_extension};

verus! {

/// The titles found in one podcast's directory: each file's name without its
/// trailing extension. No title is held twice.
#[derive(Clone, Debug)]
pub struct DownloadedSet {
    titles: Vec<String>,
}

/// The titles that the first `count` of `names` stand for.
pub open spec fn stems_of(names: Seq<String>, count: int) -> Set<Seq<char>> {
    Set::new(|t: Seq<char>| exists|i: int| 0 <= i < count && t == stem(#[trigger] names[i]@))
}

impl View for DownloadedSet {
    type V = Set<Seq<char>>;

    closed spec fn view(&self) -> Set<Seq<char>> {
        Set::new(|t: Seq<char>| exists|i: int| 0 <= i < self.titles.len() && t == #[trigger] self.titles[i]@)
    }
}

impl DownloadedSet {
    /// No title is held twice.
    pub closed spec fn wf(&self) -> bool {
        forall|i: int, j: int|
            0 <= i < j < self.titles.len() ==> #[trigger] self.titles[i]@ != #[trigger] self.titles[j]@
    }

    /// The set that holds no title.
    pub fn new() -> (set: DownloadedSet)
        ensures
            set.wf(),
            set@ == Set::<Seq<char>>::empty(),
    {
        let set = DownloadedSet { titles: Vec::new() };
        assert(set@ =~= Set::<Seq<char>>::empty());
        set
    }

    /// Whether `title` is in the set.
    pub fn contains(&self, title: &str) -> (found: bool)
        ensures
            found == self@.contains(title@),
    {
        let wanted: String = title.to_owned();
        let mut i: usize = 0;
        while i < self.titles.len()
            invariant
                i <= self.titles.len(),
                wanted@ == title@,
                forall|k: int| 0 <= k < i ==> self.titles[k]@ != title@,
            decreases self.titles.len() - i,
        {
            if self.titles[i] == wanted {
                return true;
            }
            i = i + 1;
        }
        false
    }

    /// Adds `title`; says whether it was new.
    pub fn insert(&mut self, title: String) -> (added: bool)
        requires
            old(self).wf(),
        ensures
            final(self).wf(),
            final(self)@ == old(self)@.insert(title@),
            added == !old(self)@.contains(title@),
    {
        if self.contains(title.as_str()) {
            assert(self@ =~= self@.insert(title@));
            false
        } else {
            let ghost before = self.titles@;
            self.titles.push(title);
            assert(forall|k: int| 0 <= k < before.len() ==> self.titles[k] == before[k]);
            assert(self@ =~= old(self)@.insert(title@)) by {
                assert forall|t: Seq<char>| old(self)@.insert(title@).contains(t) implies self@.contains(t) by {
                    if t == title@ {
                        assert(self.titles[before.len() as int]@ == t);
                    } else {
                        let i = choose|i: int| 0 <= i < before.len() && t == #[trigger] before[i]@;
                        assert(self.titles[i]@ == t);
                    }
                }
            }
            true
        }
    }

    /// How many titles the set holds.
    pub fn len(&self) -> (n: usize)
        requires
            self.wf(),
        ensures
            n == self@.len(),
            self@.finite(),
    {
        proof {
            lemma_distinct_len(self.titles@);
            assert(self@ =~= texts_of(self.titles@));
        }
        self.titles.len()
    }

    /// The titles that a directory listing stands for: the stem of each file
    /// name. A directory that does not exist has the empty listing.
    pub fn scan(file_names: &Vec<String>) -> (set: DownloadedSet)
        ensures
            set.wf(),
            set@ == stems_of(file_names@, file_names.len() as int),
    {
        let mut set = DownloadedSet::new();
        let mut i: usize = 0;
        assert(set@ =~= stems_of(file_names@, 0));
        while i < file_names.len()
            invariant
                i <= file_names.len(),
                set.wf(),
                set@ == stems_of(file_names@, i as int),
            decreases file_names.len() - i,
        {
            let title = strip_extension(file_names[i].as_str());
            let ghost before = set@;
            set.insert(title);
            assert(set@ =~= stems_of(file_names@, i + 1)) by {
                assert(stem(file_names@[i as int]@) == title@);
                assert forall|t: Seq<char>| stems_of(file_names@, i + 1).contains(t) implies set@.contains(t) by {
                    let k = choose|k: int| 0 <= k < i + 1 && t == stem(#[trigger] file_names@[k]@);
                    if k < i {
                        assert(stems_of(file_names@, i as int).contains(t));
                    }
                }
                assert forall|t: Seq<char>| set@.contains(t) implies stems_of(file_names@, i + 1).contains(t) by {
                    if t != title@ {
                        assert(before.contains(t));
                        let k = choose|k: int| 0 <= k < i && t == stem(#[trigger] file_names@[k]@);
                        assert(0 <= k < i + 1);
                    }
                }
            }
            i = i + 1;
        }
        set
    }
}

/// The texts that a sequence of strings holds.
pub open spec fn texts_of(titles: Seq<String>) -> Set<Seq<char>> {
    Set::new(|t: Seq<char>| exists|i: int| 0 <= i < titles.len() && t == #[trigger] titles[i]@)
}

/// A sequence of strings with pairwise different texts holds as many texts as
/// it has entries.
pub proof fn lemma_distinct_len(titles: Seq<String>)
    requires
        forall|i: int, j: int| 0 <= i < j < titles.len() ==> #[trigger] titles[i]@ != #[trigger] titles[j]@,
    ensures
        texts_of(titles).finite(),
        texts_of(titles).len() == titles.len(),
    decreases titles.len(),
{
    if titles.len() == 0 {
        assert(texts_of(titles) =~= Set::<Seq<char>>::empty());
    } else {
        let front = titles.drop_last();
        let last = titles.last()@;
        lemma_distinct_len(front);
        assert forall|k: int| 0 <= k < front.len() implies front[k] == titles[k] by {}
        assert(!texts_of(front).contains(last)) by {
            if texts_of(front).contains(last) {
                let i = choose|i: int| 0 <= i < front.len() && last == #[trigger] front[i]@;
                assert(titles[i]@ != titles[titles.len() - 1]@);
            }
        }
        assert(texts_of(titles) =~= texts_of(front).insert(last)) by {
            assert forall|t: Seq<char>| texts_of(front).insert(last).contains(t) implies texts_of(titles).contains(t) by {
                if t == last {
                    assert(titles[titles.len() - 1]@ == t);
                } else {
                    let i = choose|i: int| 0 <= i < front.len() && t == #[trigger] front[i]@;
                    assert(titles[i]@ == t);
                }
            }
            assert forall|t: Seq<char>| texts_of(titles).contains(t) implies texts_of(front).insert(last).contains(t) by {
                let i = choose|i: int| 0 <= i < titles.len() && t == #[trigger] titles[i]@;
                if i < front.len() {
                    assert(front[i]@ == t);
                }
            }
        }
    }
}

} // verus!
