//! Rewriting of Lua syntax trees: structural equivalence of expressions and
//! chunks, replacement of expressions, and simplification of boolean logic.
pub mod ast;
pub mod model;
pub mod equivalent;
pub mod equivalent_laws;
pub mod replace;
pub mod replace_laws;
pub mod simplify;
pub mod simplify_laws;
