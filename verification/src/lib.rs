pub mod condition;
pub mod convert;
pub mod general;
pub mod insert;
pub mod pg;
pub mod statement;
pub mod strutil;
pub mod update;

pub use condition::{CondView, Condition, ConditionBuilder};
pub use general::{BaseQuery, Date, DateTime, JsonValue, JsonView, NaiveChrono, SqlValue, SqlView};
pub use general::{push_jsonvalue, push_sqlvalue};
pub use insert::{InsertBuilder, Row};
pub use pg::{check_ymd, exportable, qb_into_sql, to_query_builder, PgQueryBuilder};
pub use statement::{Part, PartView, Statement};
pub use update::{Column, UpdColumnType, UpdateBuilder};
