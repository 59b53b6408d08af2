//! Named observations: the metrics a query reports under a name, collected
//! once the observed DataFrame has run.

use vstd::prelude::*;
use crate::dataframe::DataFrame;
use crate::options::StringMap;
use crate::text::owned;

verus! {

/// An observation: a name, the DataFrame it watches once one is attached,
/// and the metrics collected for it.
pub struct Observation {
    name: String,
    dataframe: Option<DataFrame>,
    metrics: StringMap,
}

impl Observation {
    /// The observation's name.
    pub closed spec fn name_view(&self) -> Seq<char> {
        self.name@
    }

    /// The metrics collected so far.
    pub closed spec fn metrics_view(&self) -> Map<Seq<char>, Seq<char>> {
        self.metrics@
    }

    /// The attached DataFrame, if any.
    pub closed spec fn attached(&self) -> Option<DataFrame> {
        self.dataframe
    }

    /// A new observation named `name`, with no DataFrame and no metrics.
    pub fn new(name: &str) -> (o: Observation)
        ensures
            o.name_view() == name@,
            o.metrics_view() == Map::<Seq<char>, Seq<char>>::empty(),
            o.attached() is None,
    {
        Observation { name: owned(name), dataframe: None, metrics: StringMap::new() }
    }

    /// The observation's name.
    pub fn name(&self) -> (r: &str)
        ensures
            r@ == self.name_view(),
    {
        self.name.as_str()
    }

    /// A copy of the metrics collected so far.
    pub fn get(&self) -> (r: StringMap)
        ensures
            r@ == self.metrics_view(),
    {
        self.metrics.copy()
    }

    /// Attaches the observed DataFrame.
    pub fn set_dataframe(&mut self, df: DataFrame)
        ensures
            final(self).attached() == Some(df),
            final(self).name_view() == old(self).name_view(),
            final(self).metrics_view() == old(self).metrics_view(),
    {
        self.dataframe = Some(df);
    }

    /// Replaces the metrics with `metrics`.
    pub fn set_metrics(&mut self, metrics: StringMap)
        ensures
            final(self).metrics_view() == metrics@,
            final(self).name_view() == old(self).name_view(),
            final(self).attached() == old(self).attached(),
    {
        self.metrics = metrics;
    }
}

} // verus!
