//! Shapes of the Log Analytics query and metadata APIs.

use crate::types::json::JsonValue;
use vstd::prelude::*;

verus! {

#[derive(Debug, Clone)]
pub struct QueryBody {
    pub query: String,
    pub timespan: Option<String>,
    pub workspaces: Option<Vec<String>>,
}

#[derive(Debug, Clone)]
pub struct QueryResponse {
    pub tables: Vec<Table>,
}

#[derive(Debug, Clone)]
pub struct Table {
    pub name: String,
    pub columns: Vec<Column>,
    pub rows: Vec<Vec<JsonValue>>,
}

#[derive(Debug, Clone)]
pub struct Column {
    pub name: String,
    pub column_type: String,
}

#[derive(Debug, Clone)]
pub struct MetadataResponse {
    pub tables: Vec<MetadataTable>,
    pub functions: Vec<MetadataFunction>,
}

#[derive(Debug, Clone)]
pub struct MetadataTable {
    pub id: String,
    pub name: String,
    pub description: Option<String>,
    pub time_span: Option<String>,
    pub columns: Vec<MetadataColumn>,
}

#[derive(Debug, Clone)]
pub struct MetadataColumn {
    pub name: String,
    pub column_type: String,
    pub description: Option<String>,
}

#[derive(Debug, Clone)]
pub struct MetadataFunction {
    pub id: String,
    pub name: String,
    pub display_name: Option<String>,
    pub description: Option<String>,
    pub body: Option<String>,
}
} // verus!
