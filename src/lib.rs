//! The semantic front end of a small functional language: lowering of the
//! parsed surface tree into a position-typed semantic IR, and the symbolic
//! layer of resolved structural types and lexical scopes.
pub mod ast;
pub mod laws;
pub mod lower;
pub mod map;
pub mod sem;
pub mod sym;
