//! Data-manipulation statements: SELECT, INSERT, UPDATE and DELETE.
pub mod delete;
pub mod insert;
pub mod select;
pub mod update;

pub use delete::{delete_from, DeleteFrom, DeleteState, DeleteWhere};
pub use insert::{insert, FinalInsert, Insert, InsertInto, InsertState};
pub use select::{
    select, FinalQuery, GroupQuery, HavingQuery, OrderByQuery, QueryState, SelectQuery, SortOrder,
    WhereQuery,
};
pub use update::{update, Update, UpdateSet, UpdateState, UpdateWhere};
