use spark_connect::expression::{
    Alias, CallFunctionWrapper, CaseWhen, Cast, CastEvalMode, CastTarget, ColumnReference,
    Expression, ExtractValue, FrameBoundary, LambdaFunction, LambdaVarCounter,
    LiteralExpression, SortOrder, UnresolvedFunction, UnresolvedNamedLambdaVariable,
    UpdateFieldsExpr, WindowExpressionWrapper, next_lambda_var_index,
};
use spark_connect::proto;
use spark_connect::types::{DataType, Float32, Float64};

fn col(name: &str) -> Expression {
    Expression::ColumnReference(ColumnReference::new(name))
}

fn int_lit(v: i32) -> Expression {
    Expression::Literal(LiteralExpression::integer(v))
}

fn float32(v: f32) -> Float32 {
    Float32 { bits: v.to_bits(), text: v.to_string() }
}

fn float64(v: f64) -> Float64 {
    Float64 { bits: v.to_bits(), text: v.to_string() }
}

/// The literal message of a literal expression.
fn literal_type(lit: LiteralExpression) -> proto::LiteralType {
    match lit.to_proto() {
        proto::Expression::Literal(l) => l.literal_type.expect("literal type"),
        _ => panic!("Expected literal expression type"),
    }
}

#[test]
fn test_render_matches_pyspark_connect_format() {
    // Column reference and literal.
    assert_eq!(col("x").render(), "x");
    assert_eq!(Expression::Literal(LiteralExpression::Integer(0)).render(), "0");
    assert_eq!(
        Expression::Literal(LiteralExpression::null(DataType::Integer)).render(),
        "NULL"
    );

    // Binary operators render infix.
    let add = Expression::UnresolvedFunction(UnresolvedFunction::new(
        "+",
        vec![col("x"), Expression::Literal(LiteralExpression::Integer(1))],
    ));
    assert_eq!(add.render(), "(x + 1)");

    let eq = Expression::UnresolvedFunction(UnresolvedFunction::new("==", vec![col("a"), col("b")]));
    assert_eq!(eq.render(), "(a == b)");

    // Unary not.
    let eq_again =
        Expression::UnresolvedFunction(UnresolvedFunction::new("==", vec![col("a"), col("b")]));
    let neq = Expression::UnresolvedFunction(UnresolvedFunction::new("not", vec![eq_again]));
    assert_eq!(neq.render(), "(NOT (a == b))");

    // Non-operator function renders as name(args).
    let f = Expression::UnresolvedFunction(UnresolvedFunction::new("coalesce", vec![col("a"), col("b")]));
    assert_eq!(f.render(), "coalesce(a, b)");

    // Alias, cast, star.
    assert_eq!(Expression::Alias(Box::new(Alias::new(col("x"), "y"))).render(), "x AS y");
    assert_eq!(
        Expression::Cast(Box::new(Cast {
            child: col("x"),
            target: CastTarget::TypeStr("int".to_string()),
            eval_mode: None,
        }))
        .render(),
        "CAST(x AS int)"
    );
    assert_eq!(Expression::UnresolvedStar(None).render(), "*");

    // Equal expressions render identically; different ones differ.
    assert_eq!(add.render(), add.render());
    assert_ne!(add.render(), eq.render());
}

#[test]
fn test_literal_integer() {
    let lit = LiteralExpression::integer(42);
    let proto = lit.to_proto();
    assert!(matches!(proto, proto::Expression::Literal(_)));
}

#[test]
fn test_column_reference() {
    let c = ColumnReference::new("x");
    let proto = c.to_proto();
    assert!(matches!(proto, proto::Expression::UnresolvedAttribute { .. }));
}

#[test]
fn test_literal_decimal() {
    let lit = LiteralExpression::Decimal { value: "123.45".to_string(), precision: 5, scale: 2 };
    match literal_type(lit) {
        proto::LiteralType::Decimal { value, precision, scale } => {
            assert_eq!(value, "123.45");
            assert_eq!(precision, Some(5));
            assert_eq!(scale, Some(2));
        }
        _ => panic!("Expected decimal literal type"),
    }
}

#[test]
fn test_literal_date() {
    match literal_type(LiteralExpression::Date(18993)) {
        proto::LiteralType::Date(days) => assert_eq!(days, 18993),
        _ => panic!("Expected date literal type"),
    }
}

#[test]
fn test_literal_timestamp() {
    match literal_type(LiteralExpression::Timestamp(1693526400000000)) {
        proto::LiteralType::Timestamp(micros) => assert_eq!(micros, 1693526400000000),
        _ => panic!("Expected timestamp literal type"),
    }
}

#[test]
fn test_literal_render_byte() {
    assert_eq!(LiteralExpression::Byte(42).render(), "42");
}

#[test]
fn test_literal_render_short() {
    assert_eq!(LiteralExpression::Short(1000).render(), "1000");
}

#[test]
fn test_literal_render_long() {
    assert_eq!(LiteralExpression::Long(9999999999i64).render(), "9999999999");
}

#[test]
fn test_literal_render_float() {
    assert_eq!(LiteralExpression::Float(float32(3.14)).render(), "3.14");
}

#[test]
fn test_literal_render_double() {
    assert_eq!(LiteralExpression::Double(float64(2.71828)).render(), "2.71828");
}

#[test]
fn test_literal_render_string() {
    assert_eq!(LiteralExpression::String("hello".to_string()).render(), "hello");
}

#[test]
fn test_literal_render_binary() {
    let rendered = LiteralExpression::Binary(vec![1, 2, 3]).render();
    assert!(rendered.contains("[1, 2, 3]"));
}

#[test]
fn test_literal_render_date() {
    assert_eq!(LiteralExpression::Date(18993).render(), "18993");
}

#[test]
fn test_literal_render_timestamp_ntz() {
    assert_eq!(LiteralExpression::TimestampNtz(1693526400000000).render(), "1693526400000000");
}

#[test]
fn test_literal_render_time() {
    let lit = LiteralExpression::Time { nano: 3600000000000i64, precision: 9 };
    assert_eq!(lit.render(), "3600000000000");
}

#[test]
fn test_literal_render_array() {
    let lit = LiteralExpression::Array {
        element_type: Box::new(DataType::Integer),
        elements: vec![
            LiteralExpression::integer(1),
            LiteralExpression::integer(2),
            LiteralExpression::integer(3),
        ],
    };
    assert_eq!(lit.render(), "[1, 2, 3]");
}

#[test]
fn test_literal_render_array_empty() {
    let lit = LiteralExpression::Array { element_type: Box::new(DataType::Integer), elements: vec![] };
    assert_eq!(lit.render(), "[]");
}

#[test]
fn test_literal_render_decimal() {
    let lit = LiteralExpression::Decimal { value: "123.45".to_string(), precision: 5, scale: 2 };
    assert_eq!(lit.render(), "123.45");
}

#[test]
fn test_expression_render_unresolved_star_with_target() {
    let expr = Expression::UnresolvedStar(Some("table.*".to_string()));
    assert_eq!(expr.render(), "table.*");
}

#[test]
fn test_expression_render_unresolved_regex() {
    let expr = Expression::UnresolvedRegex("`col_.*`".to_string());
    assert_eq!(expr.render(), "`col_.*`");
}

#[test]
fn test_expression_render_direct_shuffle_partition_id() {
    let expr = Expression::DirectShufflePartitionId(Box::new(col("x")));
    assert_eq!(expr.render(), "DIRECT_SHUFFLE_PARTITION_ID(x)");
}

#[test]
fn test_expression_render_unresolved_extract_value() {
    let extraction = Expression::Literal(LiteralExpression::string("field"));
    let ev = ExtractValue::new(col("struct_col"), extraction);
    let expr = Expression::UnresolvedExtractValue(Box::new(ev));
    assert_eq!(expr.render(), "struct_col[field]");
}

#[test]
fn test_expression_render_update_fields_with_value() {
    let uf = UpdateFieldsExpr::new(col("s"), "f1", Some(int_lit(42)));
    let expr = Expression::UpdateFields(Box::new(uf));
    assert_eq!(expr.render(), "update_field(s, f1, 42)");
}

#[test]
fn test_expression_render_update_fields_drop() {
    let uf = UpdateFieldsExpr::new(col("s"), "f1", None);
    let expr = Expression::UpdateFields(Box::new(uf));
    assert_eq!(expr.render(), "drop_field(s, f1)");
}

#[test]
fn test_sort_order_render_asc_nulls_first() {
    assert_eq!(SortOrder::asc_nulls_first(col("x")).render(), "x ASC NULLS FIRST");
}

#[test]
fn test_sort_order_render_asc_nulls_last() {
    assert_eq!(SortOrder::asc_nulls_last(col("x")).render(), "x ASC NULLS LAST");
}

#[test]
fn test_sort_order_render_desc_nulls_first() {
    assert_eq!(SortOrder::desc_nulls_first(col("x")).render(), "x DESC NULLS FIRST");
}

#[test]
fn test_sort_order_render_desc_nulls_last() {
    assert_eq!(SortOrder::desc_nulls_last(col("x")).render(), "x DESC NULLS LAST");
}

#[test]
fn test_expression_render_sort_order() {
    let expr = Expression::SortOrder(Box::new(SortOrder::asc_nulls_first(col("a"))));
    assert_eq!(expr.render(), "a ASC NULLS FIRST");
}

#[test]
fn test_case_when_render_single_branch() {
    let cw = CaseWhen::new(vec![(Expression::Literal(LiteralExpression::boolean(true)), int_lit(1))]);
    assert_eq!(cw.render(), "CASE WHEN true THEN 1 END");
}

#[test]
fn test_case_when_render_multiple_branches() {
    let cw = CaseWhen::new(vec![
        (Expression::Literal(LiteralExpression::boolean(true)), int_lit(1)),
        (Expression::Literal(LiteralExpression::boolean(false)), int_lit(2)),
    ]);
    assert_eq!(cw.render(), "CASE WHEN true THEN 1 WHEN false THEN 2 END");
}

#[test]
fn test_case_when_render_with_else() {
    let cw = CaseWhen::new(vec![(Expression::Literal(LiteralExpression::boolean(true)), int_lit(1))])
        .with_else(int_lit(99));
    assert_eq!(cw.render(), "CASE WHEN true THEN 1 ELSE 99 END");
}

#[test]
fn test_expression_render_case_when() {
    let cw = CaseWhen::new(vec![(col("cond"), int_lit(1))]);
    let expr = Expression::CaseWhen(Box::new(cw));
    assert_eq!(expr.render(), "CASE WHEN cond THEN 1 END");
}

#[test]
fn test_unresolved_function_render_negate() {
    assert_eq!(UnresolvedFunction::new("negate", vec![col("x")]).render(), "(- x)");
}

#[test]
fn test_unresolved_function_render_negative() {
    assert_eq!(UnresolvedFunction::new("negative", vec![col("x")]).render(), "(- x)");
}

#[test]
fn test_unresolved_function_render_multiple_args() {
    let func = UnresolvedFunction::new(
        "concat",
        vec![
            Expression::Literal(LiteralExpression::string("a")),
            Expression::Literal(LiteralExpression::string("b")),
            Expression::Literal(LiteralExpression::string("c")),
        ],
    );
    assert_eq!(func.render(), "concat(a, b, c)");
}

#[test]
fn test_alias_render_multiple_names() {
    let alias = Alias { child: col("x"), names: vec!["a".to_string(), "b".to_string()], metadata: None };
    let expr = Expression::Alias(Box::new(alias));
    assert_eq!(expr.render(), "x AS (a, b)");
}

#[test]
fn test_cast_render_with_datatype() {
    let cast = Cast::new(col("x"), DataType::String { collation: "".to_string() });
    let expr = Expression::Cast(Box::new(cast));
    assert_eq!(expr.render(), "CAST(x AS string)");
}

#[test]
fn test_sql_expression_render() {
    let expr = Expression::SQLExpression("SELECT * FROM table".to_string());
    assert_eq!(expr.render(), "SELECT * FROM table");
}

#[test]
fn test_literal_boolean_true_render() {
    assert_eq!(LiteralExpression::boolean(true).render(), "true");
}

#[test]
fn test_literal_boolean_false_render() {
    assert_eq!(LiteralExpression::boolean(false).render(), "false");
}

#[test]
fn test_unresolved_function_render_not() {
    let func = UnresolvedFunction::new("not", vec![Expression::Literal(LiteralExpression::boolean(true))]);
    assert_eq!(func.render(), "(NOT true)");
}

#[test]
fn test_infix_operators_render() {
    let ops = vec![
        ("+", "(1 + 2)"),
        ("-", "(1 - 2)"),
        ("*", "(1 * 2)"),
        ("/", "(1 / 2)"),
        ("%", "(1 % 2)"),
        ("==", "(1 == 2)"),
        ("!=", "(1 != 2)"),
        ("<", "(1 < 2)"),
        ("<=", "(1 <= 2)"),
        (">", "(1 > 2)"),
        (">=", "(1 >= 2)"),
        ("&", "(1 & 2)"),
        ("|", "(1 | 2)"),
        ("^", "(1 ^ 2)"),
        ("<=>", "(1 <=> 2)"),
    ];

    for (op_name, expected_result) in ops.iter().take(15) {
        let func = UnresolvedFunction::new(*op_name, vec![int_lit(1), int_lit(2)]);
        assert_eq!(func.render(), *expected_result, "Failed for operator: {}", op_name);
    }

    let and_func = UnresolvedFunction::new(
        "and",
        vec![
            Expression::Literal(LiteralExpression::boolean(true)),
            Expression::Literal(LiteralExpression::boolean(false)),
        ],
    );
    assert_eq!(and_func.render(), "(true and false)");

    let or_func = UnresolvedFunction::new(
        "or",
        vec![
            Expression::Literal(LiteralExpression::boolean(true)),
            Expression::Literal(LiteralExpression::boolean(false)),
        ],
    );
    assert_eq!(or_func.render(), "(true or false)");
}

#[test]
fn test_column_reference_with_plan_id() {
    let mut col_ref = ColumnReference::new("x");
    col_ref = col_ref.with_plan_id(123);
    assert_eq!(col_ref.plan_id, Some(123));
}

#[test]
fn test_column_reference_metadata() {
    let mut col_ref = ColumnReference::new("x");
    col_ref = col_ref.metadata();
    assert!(col_ref.is_metadata_column);
}

#[test]
fn test_call_function_wrapper_render() {
    let cf = CallFunctionWrapper::new("my_func", vec![col("a"), col("b")]);
    let expr = Expression::CallFunction(Box::new(cf));
    assert!(expr.render().contains("CallFunctionWrapper"));
}

#[test]
fn test_window_expression_render() {
    let we = WindowExpressionWrapper::new(
        Expression::UnresolvedFunction(UnresolvedFunction::new("sum", vec![col("x")])),
        vec![col("group_col")],
        vec![],
        None,
    );
    let expr = Expression::WindowExpression(Box::new(we));
    assert!(expr.render().contains("WindowExpressionWrapper"));
}

#[test]
fn test_lambda_function_render() {
    let lf = LambdaFunction::new(col("x"), vec![UnresolvedNamedLambdaVariable::new("x")]);
    let expr = Expression::LambdaFunction(Box::new(lf));
    assert!(expr.render().contains("LambdaFunction"));
}

#[test]
fn test_unresolved_named_lambda_variable_render() {
    let expr = Expression::UnresolvedNamedLambdaVariable(UnresolvedNamedLambdaVariable::new("x"));
    assert!(expr.render().contains("UnresolvedNamedLambdaVariable"));
}

#[test]
fn test_to_proto_literal_null() {
    assert!(matches!(literal_type(LiteralExpression::null(DataType::Integer)), proto::LiteralType::Null(_)));
}

#[test]
fn test_to_proto_literal_boolean() {
    match literal_type(LiteralExpression::boolean(true)) {
        proto::LiteralType::Boolean(b) => assert!(b),
        _ => panic!("Expected boolean literal type"),
    }
}

#[test]
fn test_to_proto_literal_binary() {
    match literal_type(LiteralExpression::binary(vec![1, 2, 3])) {
        proto::LiteralType::Binary(b) => assert_eq!(b.as_ref(), [1, 2, 3]),
        _ => panic!("Expected binary literal type"),
    }
}

#[test]
fn test_to_proto_literal_string() {
    match literal_type(LiteralExpression::string("hello")) {
        proto::LiteralType::String(s) => assert_eq!(s, "hello"),
        _ => panic!("Expected string literal type"),
    }
}

#[test]
fn test_to_proto_literal_array() {
    let lit = LiteralExpression::Array {
        element_type: Box::new(DataType::Integer),
        elements: vec![LiteralExpression::integer(1), LiteralExpression::integer(2)],
    };
    match literal_type(lit) {
        proto::LiteralType::Array { elements } => assert_eq!(elements.len(), 2),
        _ => panic!("Expected array literal type"),
    }
}

#[test]
fn test_to_proto_unresolved_star_none() {
    match Expression::UnresolvedStar(None).to_proto() {
        proto::Expression::UnresolvedStar { unparsed_target, .. } => assert!(unparsed_target.is_none()),
        _ => panic!("Expected unresolved star expression type"),
    }
}

#[test]
fn test_to_proto_unresolved_star_with_target() {
    match Expression::UnresolvedStar(Some("table.*".to_string())).to_proto() {
        proto::Expression::UnresolvedStar { unparsed_target, .. } => {
            assert_eq!(unparsed_target, Some("table.*".to_string()))
        }
        _ => panic!("Expected unresolved star expression type"),
    }
}

#[test]
fn test_to_proto_unresolved_regex() {
    match Expression::UnresolvedRegex("`col_.*`".to_string()).to_proto() {
        proto::Expression::UnresolvedRegex { col_name, .. } => assert_eq!(col_name, "`col_.*`"),
        _ => panic!("Expected unresolved regex expression type"),
    }
}

#[test]
fn test_to_proto_direct_shuffle_partition_id() {
    let expr = Expression::DirectShufflePartitionId(Box::new(col("x")));
    match expr.to_proto() {
        proto::Expression::DirectShufflePartitionId { child } => {
            assert!(matches!(*child, proto::Expression::UnresolvedAttribute { .. }))
        }
        _ => panic!("Expected direct shuffle partition id expression type"),
    }
}

#[test]
fn test_to_proto_unresolved_extract_value() {
    let extraction = Expression::Literal(LiteralExpression::string("field"));
    let ev = ExtractValue::new(col("struct_col"), extraction);
    let expr = Expression::UnresolvedExtractValue(Box::new(ev));
    match expr.to_proto() {
        proto::Expression::UnresolvedExtractValue { child, extraction } => {
            assert!(matches!(*child, proto::Expression::UnresolvedAttribute { .. }));
            assert!(matches!(*extraction, proto::Expression::Literal(_)));
        }
        _ => panic!("Expected unresolved extract value expression type"),
    }
}

#[test]
fn test_to_proto_update_fields() {
    let uf = UpdateFieldsExpr::new(col("s"), "f1", Some(int_lit(42)));
    let expr = Expression::UpdateFields(Box::new(uf));
    match expr.to_proto() {
        proto::Expression::UpdateFields { field_name, value_expression, .. } => {
            assert_eq!(field_name, "f1");
            assert!(value_expression.is_some());
        }
        _ => panic!("Expected update fields expression type"),
    }
}

#[test]
fn test_to_proto_alias_with_metadata() {
    let alias = Alias::new(col("x"), "y").with_metadata("metadata_str".to_string());
    let expr = Expression::Alias(Box::new(alias));
    match expr.to_proto() {
        proto::Expression::Alias { name, metadata, .. } => {
            assert_eq!(name, vec!["y".to_string()]);
            assert_eq!(metadata, Some("metadata_str".to_string()));
        }
        _ => panic!("Expected alias expression type"),
    }
}

#[test]
fn test_to_proto_cast_with_datatype() {
    let expr = Expression::Cast(Box::new(Cast::new(col("x"), DataType::Integer)));
    match expr.to_proto() {
        proto::Expression::Cast { expr, cast_to_type, .. } => {
            assert!(matches!(*expr, proto::Expression::UnresolvedAttribute { .. }));
            assert!(matches!(cast_to_type, proto::CastToType::Type(DataType::Integer)));
        }
        _ => panic!("Expected cast expression type"),
    }
}

fn cast_eval_mode(mode: CastEvalMode) -> i32 {
    let expr = Expression::Cast(Box::new(Cast::new(col("x"), DataType::Integer).with_eval_mode(mode)));
    match expr.to_proto() {
        proto::Expression::Cast { eval_mode, .. } => eval_mode,
        _ => panic!("Expected cast expression type"),
    }
}

#[test]
fn test_to_proto_cast_with_eval_mode_legacy() {
    assert_eq!(cast_eval_mode(CastEvalMode::Legacy), 1i32);
}

#[test]
fn test_to_proto_cast_with_eval_mode_ansi() {
    assert_eq!(cast_eval_mode(CastEvalMode::Ansi), 2i32);
}

#[test]
fn test_to_proto_cast_with_eval_mode_try() {
    assert_eq!(cast_eval_mode(CastEvalMode::Try), 3i32);
}

#[test]
fn test_to_proto_cast_str() {
    let expr = Expression::Cast(Box::new(Cast::new_str(col("x"), "integer")));
    match expr.to_proto() {
        proto::Expression::Cast { cast_to_type, .. } => match cast_to_type {
            proto::CastToType::TypeStr(s) => assert_eq!(s, "integer"),
            _ => panic!("Expected a type string"),
        },
        _ => panic!("Expected cast expression type"),
    }
}

#[test]
fn test_to_proto_sort_order() {
    let expr = Expression::SortOrder(Box::new(SortOrder::asc_nulls_first(col("x"))));
    match expr.to_proto() {
        proto::Expression::SortOrder(sort_proto) => {
            assert_eq!(sort_proto.direction, 1i32);
            assert_eq!(sort_proto.null_ordering, 1i32);
        }
        _ => panic!("Expected sort order expression type"),
    }
}

#[test]
fn test_to_proto_case_when() {
    let cw = CaseWhen::new(vec![(Expression::Literal(LiteralExpression::boolean(true)), int_lit(1))])
        .with_else(int_lit(99));
    let expr = Expression::CaseWhen(Box::new(cw));
    match expr.to_proto() {
        proto::Expression::UnresolvedFunction { function_name, arguments, .. } => {
            assert_eq!(function_name, "when");
            assert_eq!(arguments.len(), 3);
        }
        _ => panic!("Expected unresolved function expression type for case when"),
    }
}

#[test]
fn test_to_proto_sql_expression() {
    let expr = Expression::SQLExpression("SELECT * FROM table".to_string());
    match expr.to_proto() {
        proto::Expression::ExpressionString { expression } => assert_eq!(expression, "SELECT * FROM table"),
        _ => panic!("Expected expression string type"),
    }
}

#[test]
fn test_to_proto_call_function() {
    let cf = CallFunctionWrapper::new("my_func", vec![col("a"), col("b")]);
    let expr = Expression::CallFunction(Box::new(cf));
    match expr.to_proto() {
        proto::Expression::CallFunction { function_name, arguments } => {
            assert_eq!(function_name, "my_func");
            assert_eq!(arguments.len(), 2);
        }
        _ => panic!("Expected call function expression type"),
    }
}

#[test]
fn test_to_proto_lambda_function() {
    let lf = LambdaFunction::new(col("x"), vec![UnresolvedNamedLambdaVariable::new("x")]);
    let expr = Expression::LambdaFunction(Box::new(lf));
    match expr.to_proto() {
        proto::Expression::LambdaFunction { function, arguments } => {
            assert!(matches!(*function, proto::Expression::UnresolvedAttribute { .. }));
            assert_eq!(arguments.len(), 1);
        }
        _ => panic!("Expected lambda function expression type"),
    }
}

#[test]
fn test_to_proto_unresolved_named_lambda_variable() {
    let expr = Expression::UnresolvedNamedLambdaVariable(UnresolvedNamedLambdaVariable::new("x"));
    match expr.to_proto() {
        proto::Expression::UnresolvedNamedLambdaVariable { name_parts } => assert_eq!(name_parts.len(), 1),
        _ => panic!("Expected unresolved named lambda variable expression type"),
    }
}

#[test]
fn test_window_expression_to_proto() {
    let we = WindowExpressionWrapper::new(
        Expression::UnresolvedFunction(UnresolvedFunction::new("sum", vec![col("x")])),
        vec![col("group_col")],
        vec![SortOrder::asc_nulls_last(col("sort_col"))],
        Some((1u32, FrameBoundary::UnboundedPreceding, FrameBoundary::CurrentRow)),
    );
    let expr = Expression::WindowExpression(Box::new(we));
    match expr.to_proto() {
        proto::Expression::Window { window_function, partition_spec, order_spec, frame_spec } => {
            assert!(matches!(*window_function, proto::Expression::UnresolvedFunction { .. }));
            assert_eq!(partition_spec.len(), 1);
            assert_eq!(order_spec.len(), 1);
            assert!(frame_spec.is_some());
        }
        _ => panic!("Expected window expression type"),
    }
}

#[test]
fn test_literal_byte_to_proto() {
    match literal_type(LiteralExpression::Byte(42)) {
        proto::LiteralType::Byte(b) => assert_eq!(b, 42),
        _ => panic!("Expected byte literal type"),
    }
}

#[test]
fn test_literal_short_to_proto() {
    match literal_type(LiteralExpression::Short(1000)) {
        proto::LiteralType::Short(s) => assert_eq!(s, 1000),
        _ => panic!("Expected short literal type"),
    }
}

#[test]
fn test_literal_float_to_proto() {
    match literal_type(LiteralExpression::Float(float32(3.14))) {
        proto::LiteralType::Float(f) => assert!((f32::from_bits(f.bits) - 3.14).abs() < 0.01),
        _ => panic!("Expected float literal type"),
    }
}

#[test]
fn test_literal_double_to_proto() {
    match literal_type(LiteralExpression::Double(float64(2.71828))) {
        proto::LiteralType::Double(d) => assert!((f64::from_bits(d.bits) - 2.71828).abs() < 0.00001),
        _ => panic!("Expected double literal type"),
    }
}

#[test]
fn test_literal_time_to_proto() {
    match literal_type(LiteralExpression::Time { nano: 3600000000000i64, precision: 9 }) {
        proto::LiteralType::Time { nano, precision } => {
            assert_eq!(nano, 3600000000000i64);
            assert_eq!(precision, Some(9));
        }
        _ => panic!("Expected time literal type"),
    }
}

#[test]
fn test_literal_timestamp_ntz_to_proto() {
    match literal_type(LiteralExpression::TimestampNtz(1693526400000000)) {
        proto::LiteralType::TimestampNtz(ts) => assert_eq!(ts, 1693526400000000),
        _ => panic!("Expected timestamp ntz literal type"),
    }
}

#[test]
fn lambda_counter_hands_out_successive_indices() {
    let mut counter = LambdaVarCounter::new();
    assert_eq!(next_lambda_var_index(&mut counter), 0);
    assert_eq!(next_lambda_var_index(&mut counter), 1);
    assert_eq!(counter.next, 2);
    let mut last = LambdaVarCounter { next: u32::MAX };
    assert_eq!(next_lambda_var_index(&mut last), u32::MAX);
    assert_eq!(last.next, 0);
}
