use spark_connect::ml::{MlParams, Params, VectorAssembler};
use spark_connect::plan::local_relation;
use spark_connect::proto::{Literal, LiteralType};
use spark_connect::relation::RelType;
use spark_connect::row::Value;
use spark_connect::types::DataType;

#[test]
fn binary_params_survive_a_message_round_trip() {
    let msg = MlParams {
        params: vec![(
            "blob".to_string(),
            Literal { literal_type: Some(LiteralType::Binary(bytes::Bytes::from(vec![9u8, 8, 7]))) },
        )],
    };
    let p = Params::from_proto(&msg);
    match p.get_param("blob").and_then(|l| l.literal_type) {
        Some(LiteralType::Binary(b)) => assert_eq!(b.as_ref(), [9u8, 8, 7]),
        _ => panic!("expected the binary literal back"),
    }
}

#[test]
fn local_relation_carries_its_bytes() {
    let rel = local_relation(DataType::Struct { fields: vec![] }, Some(vec![1u8, 2, 3, 4])).to_proto();
    match rel.rel_type {
        Some(RelType::LocalRelation { data: Some(d), .. }) => assert_eq!(d.as_ref(), [1u8, 2, 3, 4]),
        _ => panic!("expected local data"),
    }
}

#[test]
fn list_values_are_sent_as_their_debug_text() {
    let lit = Value::List(vec![Value::Integer(1)]).to_literal();
    match lit.literal_type {
        Some(LiteralType::String(s)) => assert_eq!(s, "List([Integer(1)])"),
        _ => panic!("expected a string literal"),
    }
}

#[test]
fn assembler_input_columns_are_sent_as_a_quoted_list() {
    let va = VectorAssembler::new().set_input_cols(vec!["a", "b\"c"]);
    match va.params().get_param("inputCols").and_then(|l| l.literal_type) {
        Some(LiteralType::String(s)) => assert_eq!(s, "[\"a\", \"b\\\"c\"]"),
        _ => panic!("expected a string parameter"),
    }
}
