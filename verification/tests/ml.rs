use spark_connect::dataframe::DataFrame;
use spark_connect::ml::{
    build_ml_relation, metric_from_results, BinaryClassificationEvaluator, CrossValidator,
    LogisticRegression, MaxAbsScaler, MaxAbsScalerModel, MlCommandResult, MlOperator,
    MulticlassClassificationEvaluator, OperatorType, Params, Pipeline, RegressionEvaluator,
    StandardScaler, StringIndexer, StringIndexerModel, VectorAssembler,
};
use spark_connect::plan::{range, LogicalPlan};
use spark_connect::plan_ids::PlanIdCounter;
use spark_connect::proto::{Literal, LiteralType};
use spark_connect::relation::RelType;
use spark_connect::types::Float64;

fn range_df(n: i64) -> DataFrame {
    DataFrame::new(range(0, n, 1))
}

fn float(v: f64) -> Float64 {
    Float64 { bits: v.to_bits(), text: v.to_string() }
}

#[test]
fn test_params_creation() {
    let params = Params::new()
        .set_param_string("inputCol", "features")
        .set_param_string("outputCol", "scaled")
        .set_param_double("mean", float(0.5))
        .set_param_bool("withMean", true);

    assert!(params.get_param("inputCol").is_some());
    assert!(params.get_param("outputCol").is_some());
}

#[test]
fn test_ml_operator_creation() {
    let op = MlOperator::new("org.apache.spark.ml.feature.StandardScaler", OperatorType::Estimator);
    assert_eq!(op.name, "org.apache.spark.ml.feature.StandardScaler");
    assert_eq!(op.op_type, OperatorType::Estimator);
    assert!(!op.uid.is_empty());
}

#[test]
fn test_standard_scaler_creation() {
    let scaler = StandardScaler::new().set_input_col("my_features").set_output_col("my_scaled");

    assert_eq!(scaler.input_col(), "my_features");
    assert_eq!(scaler.output_col(), "my_scaled");
}

#[test]
fn test_operator_to_proto() {
    let op = MlOperator::new("test.Operator", OperatorType::Transformer);
    let proto = op.to_proto();
    assert_eq!(proto.name, "test.Operator");
    assert_eq!(proto.operator_type, OperatorType::Transformer.to_proto());
}

#[test]
fn test_vector_assembler_creation() {
    let assembler = VectorAssembler::new()
        .set_input_cols(vec!["col1", "col2", "col3"])
        .set_output_col("vector_col");

    assert_eq!(assembler.input_cols().len(), 3);
    assert_eq!(assembler.output_col(), "vector_col");
}

#[test]
fn test_vector_assembler_operator_name() {
    let assembler = VectorAssembler::new();
    let op = assembler.operator();
    assert_eq!(op.name, "org.apache.spark.ml.feature.VectorAssembler");
    assert_eq!(op.op_type, OperatorType::Transformer);
}

#[test]
fn test_string_indexer_creation() {
    let indexer = StringIndexer::new().set_input_col("category").set_output_col("category_index");

    assert_eq!(indexer.input_col(), "category");
    assert_eq!(indexer.output_col(), "category_index");
}

#[test]
fn test_string_indexer_operator_name() {
    let indexer = StringIndexer::new();
    let op = indexer.operator();
    assert_eq!(op.name, "org.apache.spark.ml.feature.StringIndexer");
    assert_eq!(op.op_type, OperatorType::Estimator);
}

#[test]
fn test_max_abs_scaler_creation() {
    let scaler = MaxAbsScaler::new().set_input_col("features").set_output_col("scaled");

    assert_eq!(scaler.input_col(), "features");
    assert_eq!(scaler.output_col(), "scaled");
}

#[test]
fn test_max_abs_scaler_operator_name() {
    let scaler = MaxAbsScaler::new();
    let op = scaler.operator();
    assert_eq!(op.name, "org.apache.spark.ml.feature.MaxAbsScaler");
    assert_eq!(op.op_type, OperatorType::Estimator);
}

#[test]
fn test_logistic_regression_creation() {
    let lr = LogisticRegression::new()
        .set_feature_col("features")
        .set_label_col("label")
        .set_prediction_col("pred")
        .set_max_iter(50);

    assert_eq!(lr.feature_col(), "features");
    assert_eq!(lr.label_col(), "label");
    assert_eq!(lr.prediction_col(), "pred");
    assert_eq!(lr.max_iter(), 50);
}

#[test]
fn test_logistic_regression_operator_name() {
    let lr = LogisticRegression::new();
    let op = lr.operator();
    assert_eq!(op.name, "org.apache.spark.ml.classification.LogisticRegression");
    assert_eq!(op.op_type, OperatorType::Estimator);
}

#[test]
fn test_regression_evaluator_creation() {
    let eval = RegressionEvaluator::new()
        .set_label_col("true_label")
        .set_prediction_col("predicted")
        .set_metric_name("r2");

    assert_eq!(eval.label_col(), "true_label");
    assert_eq!(eval.prediction_col(), "predicted");
    assert_eq!(eval.metric_name(), "r2");
}

#[test]
fn test_regression_evaluator_operator_name() {
    let eval = RegressionEvaluator::new();
    let op = eval.operator();
    assert_eq!(op.name, "org.apache.spark.ml.evaluation.RegressionEvaluator");
    assert_eq!(op.op_type, OperatorType::Evaluator);
}

#[test]
fn test_binary_classification_evaluator_creation() {
    let eval = BinaryClassificationEvaluator::new()
        .set_label_col("label")
        .set_score_col("score")
        .set_metric_name("areaUnderPR");

    assert_eq!(eval.label_col(), "label");
    assert_eq!(eval.score_col(), "score");
    assert_eq!(eval.metric_name(), "areaUnderPR");
}

#[test]
fn test_binary_classification_evaluator_operator_name() {
    let eval = BinaryClassificationEvaluator::new();
    let op = eval.operator();
    assert_eq!(op.name, "org.apache.spark.ml.evaluation.BinaryClassificationEvaluator");
    assert_eq!(op.op_type, OperatorType::Evaluator);
}

#[test]
fn test_pipeline_creation() {
    let pipeline = Pipeline::new().set_stages(vec!["stage1", "stage2", "stage3"]);

    assert_eq!(pipeline.stages().len(), 3);
    assert_eq!(pipeline.stages()[0], "stage1");
    assert_eq!(pipeline.stages()[1], "stage2");
    assert_eq!(pipeline.stages()[2], "stage3");
}

#[test]
fn test_pipeline_operator_name() {
    let pipeline = Pipeline::new();
    let op = pipeline.operator();
    assert_eq!(op.name, "org.apache.spark.ml.Pipeline");
    assert_eq!(op.op_type, OperatorType::Estimator);
}

#[test]
fn test_all_estimator_types() {
    let estimators: Vec<(&str, OperatorType)> = vec![
        ("StringIndexer", StringIndexer::new().operator().op_type),
        ("MaxAbsScaler", MaxAbsScaler::new().operator().op_type),
        ("LogisticRegression", LogisticRegression::new().operator().op_type),
        ("Pipeline", Pipeline::new().operator().op_type),
    ];

    for (name, op_type) in estimators {
        assert_eq!(op_type, OperatorType::Estimator, "Failed for {}", name);
    }
}

#[test]
fn test_all_evaluator_types() {
    let evaluators: Vec<(&str, OperatorType)> = vec![
        ("RegressionEvaluator", RegressionEvaluator::new().operator().op_type),
        ("BinaryClassificationEvaluator", BinaryClassificationEvaluator::new().operator().op_type),
    ];

    for (name, op_type) in evaluators {
        assert_eq!(op_type, OperatorType::Evaluator, "Failed for {}", name);
    }
}

#[test]
fn params_int_and_proto_roundtrip() {
    let p = Params::new().set_param_int("maxIter", 7).set_param_string("inputCol", "x");
    assert!(p.get_param("maxIter").is_some());
    assert!(p.get_param("missing").is_none());

    let proto_p = p.to_proto();
    assert!(proto_p.params.iter().any(|(k, _)| k == "maxIter"));
    let back = Params::from_proto(&proto_p);
    assert!(back.get_param("inputCol").is_some());
    assert!(back.get_param("maxIter").is_some());
}

#[test]
fn ml_operator_with_uid_and_proto_roundtrip() {
    let op = MlOperator::with_uid("test.Op", "uid-123", OperatorType::Model);
    assert_eq!(op.uid, "uid-123");
    let proto_op = op.to_proto();
    assert_eq!(proto_op.uid, "uid-123");
    let back = MlOperator::from_proto(&proto_op);
    assert_eq!(back.name, "test.Op");
    assert_eq!(back.op_type, OperatorType::Model);
}

#[test]
fn operator_type_proto_roundtrip_all_variants() {
    for t in [
        OperatorType::Estimator,
        OperatorType::Transformer,
        OperatorType::Evaluator,
        OperatorType::Model,
    ] {
        assert_eq!(OperatorType::from_proto(t.to_proto()), t);
    }
}

#[test]
fn multiclass_evaluator_creation_and_getters() {
    let e = MulticlassClassificationEvaluator::new()
        .set_label_col("y")
        .set_prediction_col("p")
        .set_metric_name("accuracy");
    assert_eq!(e.label_col(), "y");
    assert_eq!(e.prediction_col(), "p");
    assert_eq!(e.metric_name(), "accuracy");
    assert_eq!(e.operator().op_type, OperatorType::Evaluator);
    assert_eq!(e.operator().name, "org.apache.spark.ml.evaluation.MulticlassClassificationEvaluator");
    assert_eq!(MulticlassClassificationEvaluator::default().metric_name(), "f1");
}

#[test]
fn cross_validator_creation_getters_and_fit() {
    let cv = CrossValidator::new().set_num_folds(5).set_parallelism(2).set_seed(42);
    assert_eq!(cv.num_folds(), 5);
    assert_eq!(cv.parallelism(), 2);
    assert_eq!(cv.operator().op_type, OperatorType::Estimator);
    assert_eq!(cv.operator().name, "org.apache.spark.ml.tuning.CrossValidator");
    assert!(cv.params().get_param("numFolds").is_some());
    assert!(cv.params().get_param("seed").is_some());
    assert_eq!(CrossValidator::default().num_folds(), 3);

    // fit builds a CrossValidatorModel; its transform yields an MlTransform plan.
    let df = range_df(3);
    let mut cv2 = CrossValidator::new().set_num_folds(2);
    let mut model = cv2.fit(&df).unwrap();
    let out = model.transform(&df).unwrap();
    assert!(matches!(*out.plan, LogicalPlan::MlTransform { .. }));
    let _ = model.clone_box();
}

#[test]
fn operator_uids_are_lowercase_uuids() {
    let op = MlOperator::new("x", OperatorType::Model);
    assert_eq!(op.uid.len(), 36);
    assert!(op.uid.chars().all(|c| c == '-' || c.is_ascii_digit() || ('a'..='f').contains(&c)));
    let other = MlOperator::new("x", OperatorType::Model);
    assert_ne!(op.uid, other.uid);
}

#[test]
fn unknown_operator_code_is_a_transformer() {
    assert_eq!(OperatorType::from_proto(0), OperatorType::Transformer);
    assert_eq!(OperatorType::from_proto(99), OperatorType::Transformer);
}

#[test]
fn setting_a_param_twice_keeps_one_entry() {
    let p = Params::new().set_param_int("k", 1).set_param_int("k", 2);
    assert_eq!(p.to_proto().params.len(), 1);
}

#[test]
fn test_all_transformer_types() {
    let va = VectorAssembler::new();
    let si = StringIndexerModel {
        operator: MlOperator::new("test", OperatorType::Model),
        params: Params::new(),
        input_col: "in".to_string(),
        output_col: "out".to_string(),
    };
    let mas = MaxAbsScalerModel {
        operator: MlOperator::new("test", OperatorType::Model),
        params: Params::new(),
        input_col: "in".to_string(),
        output_col: "out".to_string(),
    };
    assert!(va.params().get_param("inputCols").is_none() || true);
    assert!(si.params().get_param("inputCol").is_none() || true);
    assert!(mas.params().get_param("inputCol").is_none() || true);
}

#[test]
fn transform_and_fit_build_ml_transform_plans() {
    let df = range_df(3);

    // A Transformer builds an MlTransform relation plan (no RPC).
    let mut va = VectorAssembler::new().set_input_cols(vec!["id"]).set_output_col("v");
    let out = va.transform(&df).unwrap();
    assert!(matches!(*out.plan, LogicalPlan::MlTransform { .. }));

    // StandardScaler fits locally into a model; the model transform also builds
    // an MlTransform plan, and clone_box works.
    let mut ss = StandardScaler::new().set_input_col("features").set_output_col("scaled");
    let mut model = ss.fit(&df).unwrap();
    let scaled = model.transform(&df).unwrap();
    assert!(matches!(*scaled.plan, LogicalPlan::MlTransform { .. }));
    let _cloned = model.clone_box();
}

#[test]
fn all_estimators_fit_and_models_transform() {
    let df = range_df(3);
    let mut mas = MaxAbsScaler::new().set_input_col("f").set_output_col("o");
    assert_eq!(mas.input_col(), "f");
    let mut m = mas.fit(&df).unwrap();
    assert!(matches!(*m.transform(&df).unwrap().plan, LogicalPlan::MlTransform { .. }));
    let _ = m.clone_box();

    let mut si = StringIndexer::new().set_input_col("s").set_output_col("si");
    assert_eq!(si.output_col(), "si");
    let mut m = si.fit(&df).unwrap();
    let _ = m.transform(&df).unwrap();
    let _ = m.clone_box();

    let mut lr = LogisticRegression::new()
        .set_feature_col("features")
        .set_label_col("label")
        .set_prediction_col("pred")
        .set_max_iter(7);
    assert_eq!(lr.feature_col(), "features");
    assert_eq!(lr.label_col(), "label");
    assert_eq!(lr.prediction_col(), "pred");
    assert_eq!(lr.max_iter(), 7);
    let mut m = lr.fit(&df).unwrap();
    let _ = m.transform(&df).unwrap();
    let _ = m.clone_box();

    let mut pipe = Pipeline::new().set_stages(vec!["a", "b"]);
    assert_eq!(pipe.stages().len(), 2);
    let mut m = pipe.fit(&df).unwrap();
    let _ = m.transform(&df).unwrap();
    let _ = m.clone_box();

    let mut va = VectorAssembler::new().set_input_cols(vec!["a", "b"]).set_output_col("v");
    assert_eq!(va.input_cols().len(), 2);
    let _ = va.transform(&df).unwrap();
}

#[test]
fn fitted_model_keeps_estimator_identity_and_settings() {
    let df = range_df(2);
    let mut ss = StandardScaler::new().set_input_col("a").set_output_col("b");
    let uid = ss.operator().uid.clone();
    let model = ss.fit(&df).unwrap();
    assert_eq!(model.operator().uid, uid);
    assert_eq!(model.operator().name, "org.apache.spark.ml.feature.StandardScaler");
    assert_eq!(model.operator().op_type, OperatorType::Model);
    assert_eq!(model.input_col, "a");
    assert_eq!(model.output_col, "b");
    assert!(model.params().get_param("inputCol").is_some());
    // The estimator keeps its id: it had one.
    assert_eq!(ss.operator().uid, uid);
}

#[test]
fn transform_gives_an_operator_without_id_a_fresh_one() {
    let df = range_df(2);
    let mut m = StringIndexerModel {
        operator: MlOperator::with_uid("idx", "", OperatorType::Model),
        params: Params::new(),
        input_col: "in".to_string(),
        output_col: "out".to_string(),
    };
    let out = m.transform(&df).unwrap();
    assert_eq!(m.operator().uid.len(), 36);
    assert_eq!(m.operator().op_type, OperatorType::Transformer);
    assert_eq!(m.operator().name, "idx");
    match &*out.plan {
        LogicalPlan::MlTransform { transformer, input, .. } => {
            assert_eq!(transformer.uid, m.operator().uid);
            assert!(matches!(**input, LogicalPlan::Range { end: 2, .. }));
        }
        _ => panic!("expected an ML transform"),
    }
    // With an id, the operator is kept.
    let mut kept = StringIndexerModel {
        operator: MlOperator::with_uid("idx", "u-1", OperatorType::Model),
        params: Params::new(),
        input_col: "in".to_string(),
        output_col: "out".to_string(),
    };
    let _ = kept.transform(&df).unwrap();
    assert_eq!(kept.operator().uid, "u-1");
    assert_eq!(kept.operator().op_type, OperatorType::Model);
}

#[test]
fn ml_transform_plan_becomes_an_ml_relation() {
    let df = range_df(4);
    let mut va = VectorAssembler::new().set_input_cols(vec!["id"]).set_output_col("v");
    let out = va.transform(&df).unwrap();
    let rel = out.plan.to_proto();
    match rel.rel_type {
        Some(RelType::MlRelation { transformer, input, params }) => {
            assert_eq!(transformer.name, "org.apache.spark.ml.feature.VectorAssembler");
            assert_eq!(transformer.uid, va.operator().uid);
            assert!(matches!(input.unwrap().rel_type, Some(RelType::Range { end: 4, .. })));
            assert!(params.params.iter().any(|(n, _)| n == "outputCol"));
        }
        _ => panic!("expected an ML relation"),
    }
    let direct = build_ml_relation(va.operator(), va.params(), &range(0, 4, 1));
    assert!(matches!(direct, RelType::MlRelation { .. }));
}

#[test]
fn evaluate_command_carries_evaluator_and_numbered_dataset() {
    let df = range_df(5);
    let ev = RegressionEvaluator::new().set_metric_name("rmse");
    let mut counter = PlanIdCounter::new(10);
    let c = ev.evaluate_command(&df, &mut counter);
    assert_eq!(c.evaluator.name, "org.apache.spark.ml.evaluation.RegressionEvaluator");
    assert_eq!(c.dataset.common.unwrap().plan_id, Some(10));
    assert_eq!(counter.next, 11);
    assert!(c.params.params.iter().any(|(n, _)| n == "metricName"));
    let b = BinaryClassificationEvaluator::new().evaluate_command(&df, &mut counter);
    assert_eq!(b.dataset.common.unwrap().plan_id, Some(11));
    let m = MulticlassClassificationEvaluator::new().evaluate_command(&df, &mut counter);
    assert_eq!(m.dataset.common.unwrap().plan_id, Some(12));
}

#[test]
fn metric_is_the_first_double_parameter() {
    let lit = |t: LiteralType| Literal { literal_type: Some(t) };
    let results = vec![
        MlCommandResult::Other,
        MlCommandResult::Param(lit(LiteralType::Long(3))),
        MlCommandResult::Param(lit(LiteralType::Double(float(0.25)))),
        MlCommandResult::Param(lit(LiteralType::Double(float(0.5)))),
    ];
    let m = metric_from_results(&results).unwrap();
    assert_eq!(f64::from_bits(m.bits), 0.25);
    let none = vec![MlCommandResult::Other, MlCommandResult::Param(lit(LiteralType::Long(1)))];
    assert_eq!(metric_from_results(&none).unwrap_err().message, "evaluate: server returned no metric");
    assert!(metric_from_results(&Vec::new()).is_err());
}
