//! Spark Connect client model: expressions, columns, logical plans and the
//! request messages built from them, with the behaviour of each builder stated
//! in its contract.

pub mod text;
pub mod types;
pub mod proto;
pub mod expression;
pub mod debug_text;
pub mod window;
pub mod column;
pub mod options;
pub mod relation;
pub mod readwriter;
pub mod row;
pub mod arrow_rows;
pub mod plan;
pub mod plan_ids;
pub mod plan_debug;
pub mod dataframe;
pub mod profiler;
pub mod datasource;
pub mod ml;
pub mod catalog;
pub mod pipelines;
pub mod merge;
pub mod group;
pub mod resource;
pub mod observation;
pub mod functions;
pub mod request;
