//! Data-definition statements: tables, views and triggers.
pub mod check;
pub mod column;
pub mod foreign_key;
pub mod table;
pub mod triggers;
pub mod view;

pub use check::Check;
pub use column::{Column, ColumnState, ColumnType, GeneratedColumnType};
pub use foreign_key::{ForeignKey, ForeignKeyAction, ForeignKeyState};
pub use table::{
    alter_table, create_table, drop_table, AlterTable, AlterTableState, DropTable, Table, TableState,
};
pub use view::{
    create_view, drop_view, ViewCreate, ViewCreateDef, ViewCreateStmt, ViewDrop, ViewState, ViewType,
};
pub use triggers::{
    create_trigger, drop_trigger, TriggerDrop, TriggerFull, TriggerNew, TriggerState,
    TriggerWithAction, TriggerWithEvent, TriggerWithTable,
};
