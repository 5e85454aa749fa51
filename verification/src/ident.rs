use vstd::prelude::*;

use vstd::string::StringExecFns;

verus! {

/// The candidate name before disambiguation: the caller's global prefix,
/// if present, followed by the fixed internal name.
pub open spec fn ident_base(global_prefix: Option<String>) -> Seq<char> {
    match global_prefix {
        Some(p) => p@ + "_dependencyMap"@,
        None => "_dependencyMap"@,
    }
}

/// The candidate with `k` disambiguating marks appended.
pub open spec fn candidate(base: Seq<char>, k: nat) -> Seq<char> {
    base + Seq::new(k, |i: int| '$')
}

/// Whether a name equals some binding already present in the source.
pub open spec fn collides(s: Seq<char>, bindings: Seq<String>) -> bool {
    exists|i: int| 0 <= i < bindings.len() && bindings[i]@ == s
}

/// The pick of a suffix count: the candidate it yields is free, and every
/// shorter candidate collides.
pub open spec fn ident_pick(base: Seq<char>, bindings: Seq<String>, k: nat) -> bool {
    &&& !collides(candidate(base, k), bindings)
    &&& forall|j: nat| j < k ==> collides(candidate(base, j), bindings)
}

/// The generated name: the first candidate, in suffix order, that
/// collides with no binding.
pub open spec fn is_generated_ident(r: Seq<char>, base: Seq<char>, bindings: Seq<String>) -> bool {
    exists|k: nat| r == candidate(base, k) && #[trigger] ident_pick(base, bindings, k)
}

fn make_ident_base(global_prefix: &Option<String>) -> (b: String)
    ensures
        b@ == ident_base(*global_prefix),
{
    match global_prefix {
        Some(p) => p.clone().concat("_dependencyMap"),
        None => "_dependencyMap".to_owned(),
    }
}

fn collides_with(cand: &String, bindings: &Vec<String>) -> (r: bool)
    ensures
        r == collides(cand@, bindings@),
{
    let mut i: usize = 0;
    while i < bindings.len()
        invariant
            i <= bindings@.len(),
            forall|j: int| 0 <= j < i ==> bindings@[j]@ != cand@,
        decreases bindings@.len() - i,
    {
        if bindings[i] == *cand {
            proof {
                assert(bindings@[i as int]@ == cand@);
            }
            return true;
        }
        i = i + 1;
    }
    false
}

fn max_binding_len(bindings: &Vec<String>) -> (m: usize)
    ensures
        forall|j: int| 0 <= j < bindings@.len() ==> (#[trigger] bindings@[j])@.len() <= m,
{
    let mut m: usize = 0;
    let mut i: usize = 0;
    while i < bindings.len()
        invariant
            i <= bindings@.len(),
            forall|j: int| 0 <= j < i ==> (#[trigger] bindings@[j])@.len() <= m,
        decreases bindings@.len() - i,
    {
        let li = bindings[i].as_str().unicode_len();
        if li > m {
            m = li;
        }
        i = i + 1;
    }
    m
}

/// Generates the dependency-map identifier for one file: the global prefix
/// (if any) joined with the fixed internal name, disambiguated with as
/// many trailing marks as it takes to miss every binding name scanned
/// from the source. The result never equals any of those bindings, and
/// the choice is the deterministic first fit.
pub fn generate_dependency_map_ident(global_prefix: &Option<String>, bindings: &Vec<String>) -> (r:
    String)
    ensures
        is_generated_ident(r@, ident_base(*global_prefix), bindings@),
        forall|i: int| 0 <= i < bindings@.len() ==> r@ != (#[trigger] bindings@[i])@,
{
    let m = max_binding_len(bindings);
    let mut cand = make_ident_base(global_prefix);
    let ghost base = cand@;
    let ghost k: nat = 0nat;
    proof {
        assert(cand@ =~= candidate(base, 0nat));
    }
    while collides_with(&cand, bindings)
        invariant
            cand@ == candidate(base, k),
            forall|j: nat| j < k ==> collides(candidate(base, j), bindings@),
            forall|j: int| 0 <= j < bindings@.len() ==> (#[trigger] bindings@[j])@.len() <= m,
        decreases m + 1 - cand@.len(),
    {
        proof {
            let w = choose|i: int| 0 <= i < bindings@.len() && bindings@[i]@ == cand@;
            assert(bindings@[w]@.len() <= m);
        }
        cand.append("$");
        proof {
            reveal_strlit("$");
            assert(cand@ =~= candidate(base, (k + 1) as nat));
            k = (k + 1) as nat;
        }
    }
    proof {
        assert(ident_pick(base, bindings@, k));
        assert forall|i: int| 0 <= i < bindings@.len() implies cand@ != (
        #[trigger] bindings@[i])@ by {
            if bindings@[i]@ == cand@ {
                assert(collides(cand@, bindings@));
            }
        }
    }
    cand
}

/// The generated identifier is deterministic: any two names that are each
/// the first collision-free candidate for the same prefix and the same
/// bindings are equal.
pub proof fn lemma_generated_ident_unique(
    base: Seq<char>,
    bindings: Seq<String>,
    r1: Seq<char>,
    r2: Seq<char>,
)
    requires
        is_generated_ident(r1, base, bindings),
        is_generated_ident(r2, base, bindings),
    ensures
        r1 == r2,
{
    let k1 = choose|k: nat| r1 == candidate(base, k) && #[trigger] ident_pick(base, bindings, k);
    let k2 = choose|k: nat| r2 == candidate(base, k) && #[trigger] ident_pick(base, bindings, k);
    if k1 < k2 {
        assert(collides(candidate(base, k1), bindings));
    }
    if k2 < k1 {
        assert(collides(candidate(base, k2), bindings));
    }
    assert(k1 == k2);
}

} // verus!
