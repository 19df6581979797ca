use vstd::prelude::*;

verus! {

/// What a list of strings holds, as character sequences.
pub open spec fn views_of(v: Seq<String>) -> Seq<Seq<char>> {
    v.map_values(|s: String| s@)
}

/// A set of status URLs, kept as a list without repeats.
pub struct StatusSet {
    items: Vec<String>,
}

impl View for StatusSet {
    type V = Set<Seq<char>>;

    closed spec fn view(&self) -> Set<Seq<char>> {
        views_of(self.items@).to_set()
    }
}

impl StatusSet {
    /// No URL is held twice.
    pub closed spec fn wf(&self) -> bool {
        views_of(self.items@).no_duplicates()
    }

    /// The URLs in the order they were first added.
    pub closed spec fn urls(&self) -> Seq<Seq<char>> {
        views_of(self.items@)
    }

    pub proof fn lemma_view(&self)
        ensures
            self@ == self.urls().to_set(),
            self@.finite(),
            self.wf() ==> self@.len() == self.urls().len(),
    {
        vstd::seq_lib::seq_to_set_is_finite(self.urls());
        if self.wf() {
            self.urls().unique_seq_to_set();
        }
    }

    pub fn new() -> (r: StatusSet)
        ensures
            r.wf(),
            r@ == Set::<Seq<char>>::empty(),
    {
        let r = StatusSet { items: Vec::new() };
        assert(r@ =~= Set::<Seq<char>>::empty()) by {
            assert(views_of(r.items@) =~= Seq::<Seq<char>>::empty());
        }
        r
    }

    pub fn len(&self) -> (r: usize)
        requires
            self.wf(),
        ensures
            r == self@.len(),
    {
        proof {
            self.lemma_view();
        }
        self.items.len()
    }

    pub fn contains(&self, url: &String) -> (r: bool)
        ensures
            r == self@.contains(url@),
    {
        let mut i: usize = 0;
        while i < self.items.len()
            invariant
                0 <= i <= self.items.len(),
                forall|k: int| 0 <= k < i ==> self.items@[k]@ != url@,
            decreases self.items.len() - i,
        {
            if self.items[i] == *url {
                assert(views_of(self.items@)[i as int] == url@);
                return true;
            }
            i += 1;
        }
        assert(!views_of(self.items@).contains(url@));
        false
    }

    /// Adds `url`; nothing changes if it is already there.
    pub fn insert(&mut self, url: String)
        requires
            old(self).wf(),
        ensures
            final(self).wf(),
            final(self)@ == old(self)@.insert(url@),
    {
        if !self.contains(&url) {
            let ghost before = views_of(self.items@);
            let ghost u = url@;
            self.items.push(url);
            proof {
                assert(views_of(self.items@) =~= before.push(u));
                assert(!before.contains(u));
                assert(before.push(u).to_set() =~= before.to_set().insert(u)) by {
                    before.lemma_push_to_set_commute(u);
                }
            }
        } else {
            assert(old(self)@.insert(url@) =~= old(self)@);
        }
    }

    /// Adds every URL of `urls` (set union).
    pub fn extend(&mut self, urls: Vec<String>)
        requires
            old(self).wf(),
        ensures
            final(self).wf(),
            final(self)@ == old(self)@.union(views_of(urls@).to_set()),
    {
        let mut i: usize = 0;
        while i < urls.len()
            invariant
                0 <= i <= urls.len(),
                self.wf(),
                self@ == old(self)@.union(views_of(urls@.subrange(0, i as int)).to_set()),
            decreases urls.len() - i,
        {
            let u = urls[i].clone();
            self.insert(u);
            proof {
                let a = views_of(urls@.subrange(0, i as int));
                let b = views_of(urls@.subrange(0, i + 1));
                assert(b =~= a.push(urls@[i as int]@));
                a.lemma_push_to_set_commute(urls@[i as int]@);
                assert(self@ =~= old(self)@.union(b.to_set()));
            }
            i += 1;
        }
        assert(urls@.subrange(0, urls.len() as int) =~= urls@);
    }

    /// Builds the set of the URLs in `urls`.
    pub fn from_vec(urls: Vec<String>) -> (r: StatusSet)
        ensures
            r.wf(),
            r@ == views_of(urls@).to_set(),
    {
        let mut r = StatusSet::new();
        r.extend(urls);
        assert(r@ =~= views_of(urls@).to_set());
        r
    }

    /// The URLs of `self` that are in `other` when `inside`, or that are not
    /// when not, each once and in the order of `self`.
    fn select(&self, other: &StatusSet, inside: bool) -> (r: Vec<String>)
        requires
            self.wf(),
        ensures
            views_of(r@).no_duplicates(),
            views_of(r@).to_set() == self@.filter(|u: Seq<char>| other@.contains(u) == inside),
    {
        let mut r: Vec<String> = Vec::new();
        let mut i: usize = 0;
        while i < self.items.len()
            invariant
                0 <= i <= self.items.len(),
                self.wf(),
                views_of(r@).no_duplicates(),
                views_of(r@).to_set() == views_of(self.items@.subrange(0, i as int)).to_set().filter(
                    |u: Seq<char>| other@.contains(u) == inside,
                ),
            decreases self.items.len() - i,
        {
            let ghost a = views_of(self.items@.subrange(0, i as int));
            let ghost u = self.items@[i as int]@;
            assert(views_of(self.items@.subrange(0, i + 1)) =~= a.push(u));
            proof {
                a.lemma_push_to_set_commute(u);
            }
            if other.contains(&self.items[i]) == inside {
                let ghost before = views_of(r@);
                r.push(self.items[i].clone());
                proof {
                    assert(views_of(r@) =~= before.push(u));
                    assert(!before.contains(u)) by {
                        if before.contains(u) {
                            assert(before.to_set().contains(u));
                            assert(a.contains(u));
                            let j = choose|j: int| 0 <= j < a.len() && a[j] == u;
                            assert(views_of(self.items@)[j] == views_of(self.items@)[i as int]);
                        }
                    }
                    before.lemma_push_to_set_commute(u);
                    assert(views_of(r@).to_set() =~= a.push(u).to_set().filter(|x: Seq<char>| other@.contains(x) == inside));
                }
            } else {
                assert(views_of(r@).to_set() =~= a.push(u).to_set().filter(|x: Seq<char>| other@.contains(x) == inside));
            }
            i += 1;
        }
        assert(self.items@.subrange(0, self.items.len() as int) =~= self.items@);
        r
    }

    /// The URLs of `self` that are not in `other`, each once.
    pub fn difference(&self, other: &StatusSet) -> (r: Vec<String>)
        requires
            self.wf(),
        ensures
            views_of(r@).no_duplicates(),
            views_of(r@).to_set() == self@.difference(other@),
    {
        let r = self.select(other, false);
        assert(self@.filter(|u: Seq<char>| other@.contains(u) == false) =~= self@.difference(other@));
        r
    }

    /// Keeps only the URLs that are also in `other`.
    pub fn retain_in(&mut self, other: &StatusSet)
        requires
            old(self).wf(),
        ensures
            final(self).wf(),
            final(self)@ == old(self)@.intersect(other@),
    {
        let kept = self.select(other, true);
        assert(old(self)@.filter(|u: Seq<char>| other@.contains(u) == true) =~= old(self)@.intersect(other@));
        self.items = kept;
    }
}

} // verus!
