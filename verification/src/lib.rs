//! Schema-driven generator of relational data-access statements.
//!
//! Given an ordered record schema (named, typed fields), the library derives
//! the table name, the column enumeration, and the full set of parameterized
//! SQL statements for the create / fetch / update / delete lifecycle, each
//! paired with its ordered list of typed bind values. Placeholders are
//! 1-indexed and assigned strictly in the order values are appended, so that
//! placeholder text and bound arguments stay index-synchronized.
//!
//! Statement execution, connection pooling and row mapping stay outside this
//! crate: every operation turns a schema and its current values into a
//! [`stmt::Statement`], and the caller hands the text and the bind steps to
//! its driver.

pub mod cond;
pub mod error;
pub mod laws;
pub mod naming;
pub mod schema;
pub mod stmt;
pub mod text;
pub mod value;
