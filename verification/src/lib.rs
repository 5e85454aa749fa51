//! The transform stage of a JavaScript/TypeScript module bundler: for one
//! source file, choose the parse dialect, build the immutable rewrite
//! recipe, map every statically discoverable dependency specifier to a
//! stable, dense index, and generate the collision-free identifier the
//! rewritten reference sites read from.

pub mod api;
pub mod deps;
pub mod extract;
pub mod ident;
pub mod options;
pub mod parse;
pub mod syntax;

