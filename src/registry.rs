use vstd::prelude::*;

verus! {

/// The set of child account identifiers that have been provisioned.
///
/// Identifiers are kept once each, in the order in which they were first
/// committed. Nothing is ever removed.
pub struct Registry {
    ids: Vec<String>,
}

impl View for Registry {
    type V = Set<Seq<char>>;

    closed spec fn view(&self) -> Set<Seq<char>> {
        Set::new(|s: Seq<char>| exists|i: int| 0 <= i < self.ids@.len() && #[trigger] self.ids@[i]@ == s)
    }
}

impl Registry {
    /// Each identifier is stored at most once.
    pub closed spec fn wf(&self) -> bool {
        forall|i: int, j: int|
            0 <= i < self.ids@.len() && 0 <= j < self.ids@.len() && i != j ==> #[trigger] self.ids@[i]@
                != #[trigger] self.ids@[j]@
    }

    /// An empty registry.
    pub fn new() -> (r: Registry)
        ensures
            r.wf(),
            r@ == Set::<Seq<char>>::empty(),
    {
        let r = Registry { ids: Vec::new() };
        assert(r@ =~= Set::<Seq<char>>::empty());
        r
    }

    /// Whether `id` has been committed.
    pub fn contains(&self, id: &String) -> (r: bool)
        ensures
            r == self@.contains(id@),
    {
        let mut i: usize = 0;
        while i < self.ids.len()
            invariant
                0 <= i <= self.ids@.len(),
                forall|k: int| 0 <= k < i ==> #[trigger] self.ids@[k]@ != id@,
            decreases self.ids@.len() - i,
        {
            if self.ids[i] == *id {
                assert(self.ids@[i as int]@ == id@);
                return true;
            }
            i += 1;
        }
        false
    }

    /// Commits `id`; committing an identifier that is already present changes nothing.
    pub fn insert(&mut self, id: String)
        requires
            old(self).wf(),
        ensures
            final(self).wf(),
            final(self)@ == old(self)@.insert(id@),
    {
        if !self.contains(&id) {
            let ghost before = self.ids@;
            let ghost v = id@;
            self.ids.push(id);
            assert(self.ids@ == before.push(id));
            assert forall|s: Seq<char>| #[trigger] self@.contains(s) == old(self)@.insert(v).contains(s) by {
                if s == v {
                    assert(self.ids@[before.len() as int]@ == s);
                } else if old(self)@.contains(s) {
                    let i = choose|i: int| 0 <= i < before.len() && #[trigger] before[i]@ == s;
                    assert(self.ids@[i]@ == s);
                }
            }
            assert(self@ =~= old(self)@.insert(v));
        } else {
            assert(self@ =~= old(self)@.insert(id@));
        }
    }

    /// The committed identifiers, each once.
    pub fn to_vec(&self) -> (r: Vec<String>)
        requires
            self.wf(),
        ensures
            forall|i: int, j: int|
                0 <= i < r@.len() && 0 <= j < r@.len() && i != j ==> #[trigger] r@[i]@ != #[trigger] r@[j]@,
            forall|s: Seq<char>| self@.contains(s) <==> exists|i: int| 0 <= i < r@.len() && #[trigger] r@[i]@ == s,
    {
        let mut r: Vec<String> = Vec::new();
        let mut i: usize = 0;
        while i < self.ids.len()
            invariant
                0 <= i <= self.ids@.len(),
                r@.len() == i,
                forall|k: int| 0 <= k < i ==> #[trigger] r@[k]@ == self.ids@[k]@,
            decreases self.ids@.len() - i,
        {
            r.push(self.ids[i].clone());
            i += 1;
        }
        assert forall|i: int, j: int|
            0 <= i < r@.len() && 0 <= j < r@.len() && i != j implies #[trigger] r@[i]@ != #[trigger] r@[j]@ by {
            assert(r@[i]@ == self.ids@[i]@ && r@[j]@ == self.ids@[j]@);
        }
        assert forall|s: Seq<char>| self@.contains(s) <==> exists|i: int| 0 <= i < r@.len() && #[trigger] r@[i]@ == s by {
            if self@.contains(s) {
                let k = choose|k: int| 0 <= k < self.ids@.len() && #[trigger] self.ids@[k]@ == s;
                assert(r@[k]@ == s);
            }
            if exists|i: int| 0 <= i < r@.len() && #[trigger] r@[i]@ == s {
                let k = choose|k: int| 0 <= k < r@.len() && #[trigger] r@[k]@ == s;
                assert(self.ids@[k]@ == s);
            }
        }
        r
    }
}

} // verus!
