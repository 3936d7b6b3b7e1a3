//! The set of streamers believed to be live, and the diff of a fresh page
//! against it.

use crate::stream::{names_of, Stream};
use std::collections::VecDeque;
use vstd::hash_set::StringHashSet;
use vstd::prelude::*;

verus! {

/// The streamers of `names` that are to be announced when `known` holds the
/// streamers seen at the last poll: every identifier that is not in `known`,
/// once, at the place where the page first shows it.
pub open spec fn appeared(known: Set<Seq<char>>, names: Seq<Seq<char>>) -> Seq<Seq<char>>
    decreases names.len(),
{
    if names.len() == 0 {
        Seq::empty()
    } else {
        let earlier = names.drop_last();
        let name = names.last();
        if known.contains(name) || earlier.contains(name) {
            appeared(known, earlier)
        } else {
            appeared(known, earlier).push(name)
        }
    }
}

/// The identifiers that a sequence of strings holds, in its order.
pub open spec fn views_of(names: Seq<String>) -> Seq<Seq<char>> {
    names.map_values(|s: String| s@)
}

/// Every announced identifier is on the page and was not known before.
pub proof fn lemma_appeared_members(known: Set<Seq<char>>, names: Seq<Seq<char>>)
    ensures
        forall|n: Seq<char>|
            (#[trigger] appeared(known, names).contains(n)) <==> names.contains(n)
                && !known.contains(n),
    decreases names.len(),
{
    if names.len() > 0 {
        let earlier = names.drop_last();
        let name = names.last();
        lemma_appeared_members(known, earlier);
        let before = appeared(known, earlier);
        assert forall|n: Seq<char>|
            (#[trigger] appeared(known, names).contains(n)) <==> names.contains(n)
                && !known.contains(n) by {
            if names.contains(n) {
                let i = choose|i: int| 0 <= i < names.len() && names[i] == n;
                if i < names.len() - 1 {
                    assert(earlier[i] == n);
                }
            }
            if earlier.contains(n) {
                let i = choose|i: int| 0 <= i < earlier.len() && earlier[i] == n;
                assert(names[i] == n);
            }
            assert(names[names.len() - 1] == name);
            if before.contains(n) {
                let i = choose|i: int| 0 <= i < before.len() && before[i] == n;
                assert(before.push(name)[i] == n);
            }
            if !(known.contains(name) || earlier.contains(name)) {
                let out = before.push(name);
                assert(out[out.len() - 1] == name);
                if out.contains(n) {
                    let i = choose|i: int| 0 <= i < out.len() && out[i] == n;
                    if i < before.len() {
                        assert(before[i] == n);
                    }
                }
            }
        }
    }
}

/// The announced identifiers are, as a set, the page's identifiers without
/// the known ones.
pub proof fn lemma_appeared_is_difference(known: Set<Seq<char>>, names: Seq<Seq<char>>)
    ensures
        appeared(known, names).to_set() == names.to_set().difference(known),
{
    lemma_appeared_members(known, names);
    assert(appeared(known, names).to_set() =~= names.to_set().difference(known));
}

/// No identifier is announced twice for one page, however often the page
/// shows it.
pub proof fn lemma_appeared_once(known: Set<Seq<char>>, names: Seq<Seq<char>>)
    ensures
        appeared(known, names).no_duplicates(),
    decreases names.len(),
{
    if names.len() > 0 {
        let earlier = names.drop_last();
        let name = names.last();
        lemma_appeared_once(known, earlier);
        lemma_appeared_members(known, earlier);
        if !(known.contains(name) || earlier.contains(name)) {
            assert(!appeared(known, earlier).contains(name));
        }
    }
}

/// Nothing is announced exactly when every identifier of the page is known
/// already; in particular when the page shows the known set again.
pub proof fn lemma_appeared_none(known: Set<Seq<char>>, names: Seq<Seq<char>>)
    ensures
        appeared(known, names).len() == 0 <==> names.to_set().subset_of(known),
{
    lemma_appeared_members(known, names);
    let out = appeared(known, names);
    if out.len() > 0 {
        assert(out.contains(out[0]));
        assert(names.to_set().contains(out[0]));
    }
    if !names.to_set().subset_of(known) {
        let n = choose|n: Seq<char>| names.to_set().contains(n) && !known.contains(n);
        assert(out.contains(n));
    }
}

/// The announcements follow the page: what a front part of the page gives
/// rise to comes first, in the same order, whatever the rest of the page
/// shows.
pub proof fn lemma_appeared_follows_page(known: Set<Seq<char>>, names: Seq<Seq<char>>, k: int)
    requires
        0 <= k <= names.len(),
    ensures
        appeared(known, names.take(k)).is_prefix_of(appeared(known, names)),
    decreases names.len(),
{
    if k == names.len() {
        assert(names.take(k) =~= names);
    } else {
        assert(names.drop_last().take(k) =~= names.take(k));
        lemma_appeared_follows_page(known, names.drop_last(), k);
    }
}

/// `KnownSet` holds the identifiers of the streamers that the last completed
/// poll found live. It is always finite.
pub struct KnownSet {
    names: StringHashSet,
}

impl View for KnownSet {
    type V = Set<Seq<char>>;

    closed spec fn view(&self) -> Set<Seq<char>> {
        self.names@
    }
}

impl KnownSet {
    #[verifier::type_invariant]
    spec fn is_finite(self) -> bool {
        self.names@.finite()
    }

    /// The empty set, with which a watcher starts.
    pub fn new() -> (known: KnownSet)
        ensures
            known@ == Set::<Seq<char>>::empty(),
    {
        KnownSet { names: StringHashSet::new() }
    }

    /// Whether `name` was live at the last completed poll.
    pub fn contains(&self, name: &str) -> (found: bool)
        ensures
            found == self@.contains(name@),
    {
        self.names.contains(name)
    }

    /// The number of streamers in the set.
    pub fn len(&self) -> (count: usize)
        ensures
            self@.finite(),
            count == self@.len(),
    {
        proof {
            use_type_invariant(self);
        }
        self.names.len()
    }

    /// Diffs a freshly fetched page against this set. `fresh` is the set of the
    /// page's identifiers, which is to replace this one; `announce` lists the
    /// identifiers that the page shows and this set lacks, each once.
    pub fn diff(&self, page: &Vec<Stream>) -> (out: (KnownSet, VecDeque<String>))
        ensures
            out.0@ == names_of(page@).to_set(),
            views_of(out.1@) == appeared(self@, names_of(page@)),
    {
        let ghost names = names_of(page@);
        let mut fresh = StringHashSet::new();
        let mut announce: VecDeque<String> = VecDeque::new();
        let mut i: usize = 0;
        assert(names.take(0) =~= Seq::<Seq<char>>::empty());
        assert(views_of(announce@) =~= Seq::<Seq<char>>::empty());
        assert(names.take(0).to_set() =~= Set::<Seq<char>>::empty());
        while i < page.len()
            invariant
                0 <= i <= page.len(),
                names == names_of(page@),
                fresh@ == names.take(i as int).to_set(),
                views_of(announce@) == appeared(self@, names.take(i as int)),
            decreases page.len() - i,
        {
            let name = page[i].user_name.clone();
            let ghost earlier = names.take(i as int);
            let ghost upto = names.take(i + 1);
            proof {
                assert(upto.drop_last() =~= earlier);
                assert(upto.last() == name@);
                assert(upto.to_set() =~= earlier.to_set().insert(name@)) by {
                    assert(upto =~= earlier.push(name@));
                    earlier.lemma_push_to_set_commute(name@);
                }
            }
            let is_known = self.names.contains(name.as_str());
            let first_on_page = fresh.insert(name.clone());
            if first_on_page && !is_known {
                proof {
                    assert(views_of(announce@.push(name)) =~= views_of(announce@).push(name@));
                }
                announce.push_back(name);
            }
            i += 1;
        }
        proof {
            assert(names.take(page.len() as int) =~= names);
            vstd::seq_lib::seq_to_set_is_finite(names);
        }
        (KnownSet { names: fresh }, announce)
    }
}

} // verus!
