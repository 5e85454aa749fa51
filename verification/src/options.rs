use vstd::prelude::*;

use crate::syntax::SyntaxDialect;

verus! {

/// Minification toggles handed through to the printer unmodified; both
/// default to off, since the bundler's separate minify stage runs later.
#[derive(Clone, Copy, PartialEq, Eq, Structural, Debug)]
pub struct MinifyToggles {
    pub compress: bool,
    pub mangle: bool,
}

/// Options of the CommonJS module conversion.
#[derive(Clone, Copy, PartialEq, Eq, Structural, Debug)]
pub struct CommonJsConfig {
    pub strict: bool,
    pub strict_mode: bool,
    pub no_interop: bool,
}

/// The module-conversion target. Only CommonJS conversion is offered.
#[derive(Clone, Copy, PartialEq, Eq, Structural, Debug)]
pub enum ModuleConversion {
    CommonJs(CommonJsConfig),
}

/// The React transform: automatic JSX runtime, development-mode
/// Fast-Refresh wrapping.
#[derive(Clone, Copy, PartialEq, Eq, Structural, Debug)]
pub struct ReactConfig {
    pub automatic_runtime: bool,
    pub refresh: bool,
    pub development: bool,
}

/// The ECMAScript language version the printed output targets.
#[derive(Clone, Copy, PartialEq, Eq, Structural, Debug)]
pub enum EsTarget {
    Es3,
    Es5,
    Es2015,
}

/// One rewrite pass of the pipeline.
#[derive(Clone, Copy, PartialEq, Eq, Structural, Debug)]
pub enum PassKind {
    ReactJsx,
    ConvertModules,
}

/// The fully resolved, immutable set of parse/transform/print options for
/// one transform call. Built once per call and never mutated afterwards.
#[derive(Clone, Copy, PartialEq, Eq, Structural, Debug)]
pub struct PipelineRecipe {
    pub target: EsTarget,
    pub syntax: SyntaxDialect,
    pub loose: bool,
    pub minify: MinifyToggles,
    pub react: ReactConfig,
    pub module: ModuleConversion,
}

/// The one module-conversion configuration used by every recipe:
/// CommonJS, non-strict, with interop helpers enabled.
pub open spec fn spec_module_config() -> ModuleConversion {
    ModuleConversion::CommonJs(
        CommonJsConfig { strict: false, strict_mode: false, no_interop: false },
    )
}

pub fn get_module_config() -> (m: ModuleConversion)
    ensures
        m == spec_module_config(),
{
    ModuleConversion::CommonJs(
        CommonJsConfig { strict: false, strict_mode: false, no_interop: false },
    )
}

/// The recipe built for a file, as a function of the dialect choice alone:
/// target pinned to ES5, loose shortcuts disabled, minification off,
/// CommonJS conversion, and the React transform on in development mode
/// with the automatic runtime and Fast Refresh.
pub open spec fn spec_config_options(is_typescript: bool) -> PipelineRecipe {
    PipelineRecipe {
        target: EsTarget::Es5,
        syntax: if is_typescript {
            SyntaxDialect::TypeScript { tsx: true }
        } else {
            SyntaxDialect::EcmaScript { jsx: true }
        },
        loose: false,
        minify: MinifyToggles { compress: false, mangle: false },
        react: ReactConfig { automatic_runtime: true, refresh: true, development: true },
        module: spec_module_config(),
    }
}

/// Builds the immutable recipe for one transform call. Pure: the same
/// dialect choice always yields an identical recipe.
pub fn get_config_options(is_typescript: bool) -> (r: PipelineRecipe)
    ensures
        r == spec_config_options(is_typescript),
{
    let syntax = if is_typescript {
        SyntaxDialect::TypeScript { tsx: true }
    } else {
        SyntaxDialect::EcmaScript { jsx: true }
    };
    PipelineRecipe {
        target: EsTarget::Es5,
        syntax,
        loose: false,
        minify: MinifyToggles { compress: false, mangle: false },
        react: ReactConfig { automatic_runtime: true, refresh: true, development: true },
        module: get_module_config(),
    }
}

/// The ordered rewrite passes of a recipe: JSX lowering first where JSX is
/// accepted, module conversion always last.
pub open spec fn spec_rewrite_passes(r: PipelineRecipe) -> Seq<PassKind> {
    if r.syntax.jsx_enabled() {
        seq![PassKind::ReactJsx, PassKind::ConvertModules]
    } else {
        seq![PassKind::ConvertModules]
    }
}

pub fn rewrite_passes(r: &PipelineRecipe) -> (ps: Vec<PassKind>)
    ensures
        ps@ == spec_rewrite_passes(*r),
{
    let mut ps: Vec<PassKind> = Vec::new();
    if r.syntax.jsx() {
        ps.push(PassKind::ReactJsx);
    }
    ps.push(PassKind::ConvertModules);
    proof {
        assert(ps@ =~= spec_rewrite_passes(*r));
    }
    ps
}

/// Recipe construction is deterministic: any two recipes built for the
/// same dialect choice are equal.
pub proof fn lemma_recipe_deterministic(is_typescript: bool, r1: PipelineRecipe, r2: PipelineRecipe)
    requires
        r1 == spec_config_options(is_typescript),
        r2 == spec_config_options(is_typescript),
    ensures
        r1 == r2,
{
}

/// In every recipe's pass order, JSX lowering strictly precedes module
/// conversion: conversion must see fully lowered syntax.
pub proof fn lemma_react_before_module_conversion(r: PipelineRecipe, i: int, j: int)
    requires
        0 <= i < spec_rewrite_passes(r).len(),
        0 <= j < spec_rewrite_passes(r).len(),
        spec_rewrite_passes(r)[i] == PassKind::ReactJsx,
        spec_rewrite_passes(r)[j] == PassKind::ConvertModules,
    ensures
        i < j,
        j == spec_rewrite_passes(r).len() - 1,
{
}

} // verus!
