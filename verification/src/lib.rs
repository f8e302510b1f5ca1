//! Verified core of the `ahecha` macros: the `html!` template parser and the
//! decisions behind its expansion, the SQL text and function signatures of
//! the record derives, the page, route and component naming rules, the
//! query and prepared-statement readers, the validator attributes, the
//! migration column builder and the record/table metadata check.

pub mod text;
pub mod tokens;
pub mod metadata;
pub mod record;
pub mod config;
pub mod statement;
pub mod html;
pub mod typed_html;
pub mod migration;
pub mod to_sql;
pub mod model;
pub mod route;
pub mod page;
pub mod component;
pub mod table;
pub mod query;
pub mod backend;
pub mod validator;
