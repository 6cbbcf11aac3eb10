//! What crosses the ingestion boundary: alerts, query parameters and the
//! decision taken for each alert that arrives.

pub mod alert;
pub mod handlers;
pub mod objects;
