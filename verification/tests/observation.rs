use std::rc::Rc;

use spark_connect::dataframe::DataFrame;
use spark_connect::observation::Observation;
use spark_connect::options::StringMap;
use spark_connect::plan::LogicalPlan;

#[test]
fn test_observation_creation() {
    let obs = Observation::new("test_obs");
    assert_eq!(obs.name(), "test_obs");
    assert_eq!(obs.get().len(), 0);
}

#[test]
fn set_metrics_and_dataframe() {
    let mut obs = Observation::new("o");
    let mut m = StringMap::new();
    m.insert("k".to_string(), "v".to_string());
    obs.set_metrics(m);
    assert_eq!(obs.get().get("k").map(|s| s.as_str()), Some("v"));

    // Attaching a DataFrame only stores its plan.
    let df = DataFrame {
        plan: Rc::new(LogicalPlan::Range { start: 0, end: 3, step: 1, num_partitions: None }),
    };
    obs.set_dataframe(df);
    assert_eq!(obs.name(), "o");
}
