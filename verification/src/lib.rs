//! Middle end of a small systems-language compiler.
//!
//! The pipeline has four stages, run in order on an in-memory program tree:
//! the name flattener (scope-aware renaming and extraction of nested
//! declarations), the symbol collector (an immutable symbol table), IR
//! lowering (a flat low-level IR), and the emission driver (structured
//! control flow turned into block-graph operations against a
//! backend-agnostic target contract).

pub mod ast;
pub mod collector;
pub mod director;
pub mod flattener;
pub mod hir;
pub mod ir;
pub mod lir;
pub mod mangle;
pub mod strmap;
pub mod symbols;
pub mod target;
