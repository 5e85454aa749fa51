use vstd::prelude::*;

use crate::deps::{DependencyMap, ModuleReference};
use crate::extract::{collect_dependencies, dedup_first, lemma_collection_stable, site_indexed,
    static_specifiers};
use crate::ident::{generate_dependency_map_ident, ident_base, is_generated_ident,
    lemma_generated_ident_unique};
use crate::options::{get_config_options, spec_config_options, PipelineRecipe};
use crate::parse::{check_parses, parses, ParseError};
use crate::syntax::{select_syntax, spec_selects_typescript};

verus! {

/// One transform call's input: the source text, the file's name if known,
/// and the host's global name prefix. Owned by the caller; immutable for
/// the duration of the call.
pub struct MetroJSTransformerInput {
    pub code: String,
    pub file_name: Option<String>,
    pub global_prefix: Option<String>,
}

/// One transform call's output: the rewritten code, the map from each
/// distinct specifier to its assigned slot, and the injected identifier
/// the rewritten reference sites read from.
pub struct MetroJSTransformerResult {
    pub code: String,
    pub dependencies: DependencyMap,
    pub dependency_map_ident: String,
}

/// Why a transform call failed. No partial output accompanies any of
/// these, and none is retried: the transform is pure, so a retry on the
/// same input cannot go differently.
pub enum TransformFailure {
    /// The source does not conform to the selected dialect's grammar.
    Parse(ParseError),
    /// A rewrite pass could not be applied to a construct it met.
    Transform { message: String },
    /// A recipe invariant was broken: a programming-error signal, not a
    /// user-facing condition.
    Configuration { message: String },
}

/// Selects the dialect for the input, builds its recipe, and checks that
/// the source conforms to the selected grammar. `Ok` holds the recipe the
/// rewrite passes run under; `Err` is the parser's rejection, and nothing
/// else of the call is kept.
pub fn prepare_pipeline(input: &MetroJSTransformerInput, typescript_hint: Option<bool>) -> (r:
    Result<PipelineRecipe, ParseError>)
    requires
        vstd::utf8::encode_utf8(input.code@).len() <= u32::MAX as int,
    ensures
        (r is Ok) <==> parses(
            input.code@,
            spec_selects_typescript(input.file_name, typescript_hint),
            true,
        ),
        r is Ok ==> r->Ok_0 == spec_config_options(
            spec_selects_typescript(input.file_name, typescript_hint),
        ),
{
    let dialect = select_syntax(&input.file_name, typescript_hint);
    match check_parses(input.code.as_str(), &dialect) {
        Ok(()) => Ok(get_config_options(dialect.typescript())),
        Err(e) => Err(e),
    }
}

/// What the module-conversion pass decides for one file: the injected
/// identifier, the finished dependency map, and per reference site the
/// slot its rewrite reads from (`None` for a site left unrewritten).
pub struct TransformPlan {
    pub dependency_map_ident: String,
    pub dependencies: DependencyMap,
    pub site_slots: Vec<Option<usize>>,
}

/// Everything the plan promises: the identifier is the first
/// collision-free candidate and misses every binding; the map holds the
/// statically resolvable specifiers, deduplicated in first-occurrence
/// order under dense indices; and each site's slot points at its own
/// specifier's entry.
pub open spec fn plan_ok(
    p: TransformPlan,
    global_prefix: Option<String>,
    bindings: Seq<String>,
    sites: Seq<ModuleReference>,
) -> bool {
    &&& is_generated_ident(p.dependency_map_ident@, ident_base(global_prefix), bindings)
    &&& forall|i: int|
        0 <= i < bindings.len() ==> p.dependency_map_ident@ != (#[trigger] bindings[i])@
    &&& p.dependencies.wf()
    &&& p.dependencies.specifiers() == dedup_first(static_specifiers(sites))
    &&& p.site_slots@.len() == sites.len()
    &&& forall|i: int|
        0 <= i < sites.len() ==> site_indexed(p.dependencies, sites[i], p.site_slots@[i])
}

/// The decision core of one transform call. The host walks the source for
/// its binding names and drives the rewrite passes; this function decides
/// everything they inject: the dependency-map identifier, the
/// specifier-to-index assignment, and the slot each reference site is
/// rewritten to read from.
pub fn plan_transform(
    global_prefix: &Option<String>,
    bindings: &Vec<String>,
    sites: &Vec<ModuleReference>,
) -> (p: TransformPlan)
    ensures
        plan_ok(p, *global_prefix, bindings@, sites@),
{
    let dependency_map_ident = generate_dependency_map_ident(global_prefix, bindings);
    let (dependencies, site_slots) = collect_dependencies(sites);
    TransformPlan { dependency_map_ident, dependencies, site_slots }
}

/// Assembles the final result from the printed code and the plan's parts.
pub fn assemble_result(
    code: String,
    dependencies: DependencyMap,
    dependency_map_ident: String,
) -> (r: MetroJSTransformerResult)
    ensures
        r.code == code,
        r.dependencies == dependencies,
        r.dependency_map_ident == dependency_map_ident,
{
    MetroJSTransformerResult { code, dependencies, dependency_map_ident }
}

/// Determinism of the decision core: two plans that each satisfy the
/// planning contract for the same prefix, bindings and sites agree on the
/// identifier, on the specifier order (and so on every assigned index),
/// and on every per-site slot.
pub proof fn lemma_plan_deterministic(
    global_prefix: Option<String>,
    bindings: Seq<String>,
    sites: Seq<ModuleReference>,
    p1: TransformPlan,
    p2: TransformPlan,
)
    requires
        plan_ok(p1, global_prefix, bindings, sites),
        plan_ok(p2, global_prefix, bindings, sites),
    ensures
        p1.dependency_map_ident@ == p2.dependency_map_ident@,
        p1.dependencies.specifiers() == p2.dependencies.specifiers(),
        p1.site_slots@ =~= p2.site_slots@,
{
    lemma_generated_ident_unique(
        ident_base(global_prefix),
        bindings,
        p1.dependency_map_ident@,
        p2.dependency_map_ident@,
    );
    lemma_collection_stable(
        sites,
        p1.dependencies,
        p1.site_slots@,
        p2.dependencies,
        p2.site_slots@,
    );
}

} // verus!
