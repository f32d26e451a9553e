//! Binding of positional parameter values into parsed SQL statements.
//!
//! A statement is first brought into the tree of [`tree`], which models the part of
//! the SQL grammar that binding walks; [`binder::StatementBinder`] then replaces
//! each placeholder, in traversal order, with the literal form of the next value.
pub mod sql_ast;
pub mod tree;
pub mod decimal;
pub mod binder;
pub mod convert;
pub mod laws;
