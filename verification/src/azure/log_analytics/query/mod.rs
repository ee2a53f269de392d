//! The query commands: a query against a workspace or a resource, by `Post`
//! or by `Get`, reported row by row.

pub mod execute;
pub mod execute_resource;
pub mod get;
pub mod get_resource;
pub mod types;
