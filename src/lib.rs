//! Staged builders that assemble SQL statement text from caller-supplied
//! fragments. Every builder keeps a plain record of what was attached and
//! renders it with a fixed clause order; the contracts describe both the
//! record (as a view) and the exact text it renders to.
pub mod query;
pub mod schema;
pub mod text;
