//! Names of the internal tables of a streaming catalog: how they are made,
//! and how a table name is told apart from them.
//!
//! An internal table backs the state of a fragment of a materialized view.
//! Its name is `__internal_<mview>_<fragment id>_<type tag>_<table id>`, with
//! the tag in lowercase and the ids in base ten. A name that looks like one
//! of these is not free for a user's table.

pub mod case;
pub mod classifier;
pub mod decimal;
pub mod expression;
pub mod name;

pub use classifier::{try_valid_table_name, valid_table_name, InternalTableNamePattern};
pub use name::{generate_internal_table_name_with_type, RW_TABLE_FUNCTION_NAME};
