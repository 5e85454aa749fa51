use vstd::prelude::*;

use crate::deps::{DependencyMap, ModuleReference};

verus! {

/// The specifiers of the statically resolvable reference sites, in
/// visitation order; dynamically computed sites contribute nothing.
pub open spec fn static_specifiers(sites: Seq<ModuleReference>) -> Seq<Seq<char>>
    decreases sites.len(),
{
    if sites.len() == 0 {
        Seq::empty()
    } else {
        static_specifiers(sites.drop_last()) + (match sites.last() {
            ModuleReference::Static { specifier } => seq![specifier@],
            ModuleReference::Dynamic => Seq::empty(),
        })
    }
}

/// The first occurrence of each element, in order: later duplicates are
/// dropped.
pub open spec fn dedup_first(s: Seq<Seq<char>>) -> Seq<Seq<char>>
    decreases s.len(),
{
    if s.len() == 0 {
        Seq::empty()
    } else if s.drop_last().contains(s.last()) {
        dedup_first(s.drop_last())
    } else {
        dedup_first(s.drop_last()).push(s.last())
    }
}

/// Deduplication loses no specifier and invents none: the deduplicated
/// sequence holds exactly the elements of the original.
pub proof fn lemma_dedup_first_contains(s: Seq<Seq<char>>, x: Seq<char>)
    ensures
        dedup_first(s).contains(x) <==> s.contains(x),
    decreases s.len(),
{
    if s.len() > 0 {
        let p = s.drop_last();
        let l = s.last();
        lemma_dedup_first_contains(p, x);
        if p.contains(x) {
            let i = choose|i: int| 0 <= i < p.len() && p[i] == x;
            assert(s[i] == x);
            assert(s.contains(x));
        }
        if s.contains(x) {
            let i = choose|i: int| 0 <= i < s.len() && s[i] == x;
            if i < s.len() - 1 {
                assert(p[i] == x);
                assert(p.contains(x));
            } else {
                assert(x == l);
            }
        }
        if !p.contains(l) {
            let d = dedup_first(p);
            assert(dedup_first(s) == d.push(l));
            assert(d.push(l)[d.len() as int] == l);
            assert(d.push(l).contains(l));
            if d.contains(x) {
                let i = choose|i: int| 0 <= i < d.len() && d[i] == x;
                assert(d.push(l)[i] == x);
                assert(d.push(l).contains(x));
            }
            if d.push(l).contains(x) {
                let i = choose|i: int| 0 <= i < d.push(l).len() && d.push(l)[i] == x;
                if i < d.len() {
                    assert(d[i] == x);
                    assert(d.contains(x));
                } else {
                    assert(x == l);
                    assert(s[s.len() - 1] == x);
                    assert(s.contains(x));
                }
            }
        }
    }
}

/// Deduplication leaves each specifier at most once: the result has no
/// repeated element.
pub proof fn lemma_dedup_first_distinct(s: Seq<Seq<char>>)
    ensures
        forall|i: int, j: int|
            0 <= i < j < dedup_first(s).len() ==> dedup_first(s)[i] != dedup_first(s)[j],
    decreases s.len(),
{
    if s.len() > 0 {
        lemma_dedup_first_distinct(s.drop_last());
        if !s.drop_last().contains(s.last()) {
            lemma_dedup_first_contains(s.drop_last(), s.last());
            assert forall|i: int, j: int|
                0 <= i < j < dedup_first(s).len() implies dedup_first(s)[i] != dedup_first(
                s,
            )[j] by {
                if j == dedup_first(s).len() - 1 {
                    assert(dedup_first(s.drop_last()).contains(dedup_first(s)[i]));
                }
            }
        }
    }
}

/// How one visited site relates to the finished map and to the slot its
/// rewrite reads from: a static site's specifier sits in the map at that
/// slot; a dynamic site gets no slot and no entry of its own.
pub open spec fn site_indexed(m: DependencyMap, site: ModuleReference, slot: Option<usize>) -> bool {
    match site {
        ModuleReference::Static { specifier } => match slot {
            Some(k) => k < m.spec_len() && m.specifiers()[k as int] == specifier@,
            None => false,
        },
        ModuleReference::Dynamic => slot is None,
    }
}

/// Walks the reference sites in visitation order, canonicalizing and
/// deduplicating each statically resolvable specifier and assigning
/// first-occurrence indices; returns the finished map and, per site, the
/// slot its rewritten reference reads from (`None` for a site left
/// unrewritten).
pub fn collect_dependencies(sites: &Vec<ModuleReference>) -> (r: (DependencyMap, Vec<Option<usize>>))
    ensures
        r.0.wf(),
        r.0.specifiers() == dedup_first(static_specifiers(sites@)),
        r.1@.len() == sites@.len(),
        forall|i: int| 0 <= i < sites@.len() ==> site_indexed(r.0, sites@[i], r.1@[i]),
{
    let mut map = DependencyMap::new();
    let mut slots: Vec<Option<usize>> = Vec::new();
    let mut i: usize = 0;
    while i < sites.len()
        invariant
            i <= sites@.len(),
            map.wf(),
            map.specifiers() == dedup_first(static_specifiers(sites@.take(i as int))),
            slots@.len() == i,
            forall|j: int| 0 <= j < i ==> site_indexed(map, sites@[j], slots@[j]),
        decreases sites@.len() - i,
    {
        let ghost prefix = sites@.take(i as int);
        let ghost old_map = map;
        proof {
            assert(sites@.take(i + 1 as int).drop_last() =~= prefix);
            assert(sites@.take(i + 1 as int).last() == sites@[i as int]);
        }
        match &sites[i] {
            ModuleReference::Static { specifier } => {
                proof {
                    lemma_dedup_first_contains(static_specifiers(prefix), specifier@);
                }
                let idx = map.record(specifier.clone());
                slots.push(Some(idx));
                proof {
                    assert(static_specifiers(sites@.take(i + 1 as int)) =~= static_specifiers(
                        prefix,
                    ).push(specifier@));
                    assert(static_specifiers(prefix).push(specifier@).drop_last()
                        =~= static_specifiers(prefix));
                }
            },
            ModuleReference::Dynamic => {
                slots.push(None);
                proof {
                    assert(static_specifiers(sites@.take(i + 1 as int)) =~= static_specifiers(
                        prefix,
                    ));
                }
            },
        }
        proof {
            assert forall|j: int| 0 <= j < i + 1 implies site_indexed(
                map,
                sites@[j],
                slots@[j],
            ) by {
                if j < i {
                    assert(site_indexed(old_map, sites@[j], slots@[j]));
                }
            }
        }
        i = i + 1;
    }
    proof {
        assert(sites@.take(sites@.len() as int) =~= sites@);
    }
    (map, slots)
}

/// Whether some entry of the map carries the index `k`.
pub open spec fn index_used(m: DependencyMap, k: int) -> bool {
    exists|i: int| 0 <= i < m.entries@.len() && (#[trigger] m.entries@[i]).1.index == k
}

/// Index density: in a well-formed dependency map with N entries the
/// assigned indices are exactly 0..N-1 — every entry's index is below N,
/// every value below N is some entry's index, and no two entries share
/// one.
pub proof fn lemma_index_density(m: DependencyMap)
    requires
        m.wf(),
    ensures
        forall|i: int|
            0 <= i < m.entries@.len() ==> (#[trigger] m.entries@[i]).1.index < m.spec_len(),
        forall|k: int| 0 <= k < m.spec_len() ==> #[trigger] index_used(m, k),
        forall|k: int| index_used(m, k) ==> 0 <= k < m.spec_len(),
        forall|i: int, j: int|
            0 <= i < j < m.entries@.len() ==> m.entries@[i].1.index != m.entries@[j].1.index,
{
    assert forall|k: int| 0 <= k < m.spec_len() implies #[trigger] index_used(m, k) by {
        assert(m.entries@[k].1.index == k);
    }
}

/// No entry is unreferenced and no reference is dropped: the collected
/// map holds a specifier exactly when some statically resolvable site
/// references it.
pub proof fn lemma_entries_match_references(sites: Seq<ModuleReference>, m: DependencyMap)
    requires
        m.specifiers() == dedup_first(static_specifiers(sites)),
    ensures
        forall|x: Seq<char>|
            #[trigger] m.specifiers().contains(x) <==> static_specifiers(sites).contains(x),
{
    assert forall|x: Seq<char>|
        #[trigger] m.specifiers().contains(x) <==> static_specifiers(sites).contains(x) by {
        lemma_dedup_first_contains(static_specifiers(sites), x);
    }
}

/// Index stability: the collection pass is deterministic. Any two outcomes
/// that satisfy its contract on the same sites agree on the specifier
/// order, on every assigned index, and on every per-site slot.
pub proof fn lemma_collection_stable(
    sites: Seq<ModuleReference>,
    m1: DependencyMap,
    s1: Seq<Option<usize>>,
    m2: DependencyMap,
    s2: Seq<Option<usize>>,
)
    requires
        m1.wf(),
        m1.specifiers() == dedup_first(static_specifiers(sites)),
        s1.len() == sites.len(),
        forall|i: int| 0 <= i < sites.len() ==> site_indexed(m1, sites[i], s1[i]),
        m2.wf(),
        m2.specifiers() == dedup_first(static_specifiers(sites)),
        s2.len() == sites.len(),
        forall|i: int| 0 <= i < sites.len() ==> site_indexed(m2, sites[i], s2[i]),
    ensures
        m1.specifiers() == m2.specifiers(),
        s1 =~= s2,
{
    assert forall|i: int| 0 <= i < sites.len() implies s1[i] == s2[i] by {
        assert(site_indexed(m1, sites[i], s1[i]));
        assert(site_indexed(m2, sites[i], s2[i]));
        match sites[i] {
            ModuleReference::Static { specifier } => {
                let k1 = s1[i]->Some_0;
                let k2 = s2[i]->Some_0;
                assert(m1.specifiers()[k1 as int] == specifier@);
                assert(m1.specifiers()[k2 as int] == specifier@);
                if k1 != k2 {
                    assert(false);
                }
            },
            ModuleReference::Dynamic => {},
        }
    }
}

} // verus!
