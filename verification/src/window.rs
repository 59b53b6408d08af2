//! Window specifications, as far as `Column::over` reads them.

use vstd::prelude::*;
use crate::expression::{Expression, SortOrder};

verus! {

/// Whether a window frame counts rows or a value range.
#[derive(Debug, Clone, Copy, PartialEq, Eq, Structural)]
pub enum FrameType {
    Row,
    Range,
}

/// One end of a window frame.
#[derive(Debug, Clone, Copy, PartialEq, Eq, Structural)]
pub enum FrameBound {
    UnboundedPreceding,
    Preceding(i64),
    CurrentRow,
    Following(i64),
    UnboundedFollowing,
}

/// A window: partitioning, ordering and an optional frame.
#[derive(Debug)]
pub struct WindowSpec {
    pub partition_spec: Vec<Expression>,
    pub order_spec: Vec<SortOrder>,
    pub frame_spec: Option<(FrameType, FrameBound, FrameBound)>,
}

impl WindowSpec {
    /// A window with no partitioning, ordering or frame.
    pub fn new() -> (w: WindowSpec)
        ensures
            w.partition_spec@.len() == 0,
            w.order_spec@.len() == 0,
            w.frame_spec is None,
    {
        WindowSpec { partition_spec: Vec::new(), order_spec: Vec::new(), frame_spec: None }
    }
}

} // verus!
