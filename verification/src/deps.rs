use vstd::prelude::*;

verus! {

/// A statically discovered module dependency: the slot assigned to its
/// specifier in the module's dependency array.
#[derive(Clone, Copy, PartialEq, Eq, Structural, Debug)]
pub struct Dependency {
    pub index: usize,
}

/// A canonicalized specifier. Two occurrences of the same literal
/// specifier in one file compare equal, so one entry stands for both.
#[derive(Clone, PartialEq, Eq, PartialOrd, Ord, Hash, Debug)]
pub struct DependencyKey {
    pub specifier: String,
}

/// One module-reference site, in the order the conversion pass visits
/// them: either a statically resolvable specifier, or a dynamically
/// computed one that cannot be indexed.
#[derive(Clone, Debug)]
pub enum ModuleReference {
    Static { specifier: String },
    Dynamic,
}

/// The dependency map of one file: one entry per distinct specifier, in
/// first-occurrence order, each holding its assigned index.
#[derive(Clone, Debug)]
pub struct DependencyMap {
    pub entries: Vec<(DependencyKey, Dependency)>,
}

impl DependencyMap {
    /// The specifiers of the map, in index order.
    pub open spec fn specifiers(self) -> Seq<Seq<char>> {
        self.entries@.map_values(|e: (DependencyKey, Dependency)| e.0.specifier@)
    }

    pub open spec fn spec_len(self) -> nat {
        self.entries@.len()
    }

    /// Well-formed: the entry at position `i` holds index `i` (indices are
    /// dense and stable), and no specifier occurs twice.
    pub open spec fn wf(self) -> bool {
        &&& forall|i: int|
            0 <= i < self.entries@.len() ==> (#[trigger] self.entries@[i]).1.index == i
        &&& forall|i: int, j: int|
            0 <= i < j < self.entries@.len() ==> self.specifiers()[i] != self.specifiers()[j]
    }

    pub open spec fn contains_specifier(self, s: Seq<char>) -> bool {
        self.specifiers().contains(s)
    }

    pub fn new() -> (m: DependencyMap)
        ensures
            m.wf(),
            m.spec_len() == 0,
            m.specifiers() == Seq::<Seq<char>>::empty(),
    {
        let m = DependencyMap { entries: Vec::new() };
        proof {
            assert(m.specifiers() =~= Seq::<Seq<char>>::empty());
        }
        m
    }

    pub fn len(&self) -> (n: usize)
        ensures
            n == self.spec_len(),
    {
        self.entries.len()
    }

    /// The slot already assigned to a specifier, if any.
    pub fn lookup(&self, specifier: &String) -> (r: Option<usize>)
        ensures
            match r {
                Some(i) => i < self.spec_len() && self.specifiers()[i as int] == specifier@,
                None => !self.contains_specifier(specifier@),
            },
    {
        let mut i: usize = 0;
        while i < self.entries.len()
            invariant
                i <= self.entries@.len(),
                forall|j: int| 0 <= j < i ==> self.specifiers()[j] != specifier@,
            decreases self.entries@.len() - i,
        {
            if self.entries[i].0.specifier == *specifier {
                return Some(i);
            }
            i = i + 1;
        }
        None
    }

    /// Canonicalizes one specifier into the map: returns its existing slot
    /// if it was seen before, else assigns it the next sequential index.
    pub fn record(&mut self, specifier: String) -> (idx: usize)
        requires
            old(self).wf(),
        ensures
            final(self).wf(),
            idx < final(self).spec_len(),
            final(self).specifiers()[idx as int] == specifier@,
            old(self).contains_specifier(specifier@) ==> *final(self) == *old(self),
            !old(self).contains_specifier(specifier@) ==> idx == old(self).spec_len()
                && final(self).specifiers() == old(self).specifiers().push(specifier@),
    {
        match self.lookup(&specifier) {
            Some(i) => i,
            None => {
                let i = self.entries.len();
                let dep = Dependency { index: i };
                self.entries.push((DependencyKey { specifier }, dep));
                proof {
                    assert(self.specifiers() =~= old(self).specifiers().push(
                        self.entries@[i as int].0.specifier@,
                    ));
                    assert forall|p: int, q: int|
                        0 <= p < q < self.entries@.len() implies self.specifiers()[p]
                        != self.specifiers()[q] by {
                        if q == i as int {
                            assert(old(self).specifiers().contains(old(self).specifiers()[p]));
                        }
                    }
                }
                i
            },
        }
    }
}

} // verus!
