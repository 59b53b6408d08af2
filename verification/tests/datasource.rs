use spark_connect::datasource::{
    CommonInlineUserDefinedDataSourceExpression, DataSourceKind, PythonDataSourcePayload,
};

#[test]
fn test_python_data_source_payload_to_proto() {
    let payload = PythonDataSourcePayload::new(vec![1, 2, 3, 4, 5], "3.9".to_string());

    let proto = payload.to_proto();

    assert_eq!(proto.python_ver, "3.9");
    assert_eq!(proto.command.len(), 5);
}

#[test]
fn test_common_inline_data_source_to_proto() {
    let payload =
        PythonDataSourcePayload::new(b"pickled_datasource_bytes".to_vec(), "3.11".to_string());

    let ds_expr =
        CommonInlineUserDefinedDataSourceExpression::new("my_source".to_string(), payload);

    let proto = ds_expr.to_proto();

    assert_eq!(proto.name, "my_source");
    assert!(proto.data_source.is_some());

    if let Some(DataSourceKind::PythonDataSource(py_ds)) = proto.data_source {
        assert_eq!(py_ds.python_ver, "3.11");
        assert_eq!(
            py_ds.command,
            bytes::Bytes::copy_from_slice(b"pickled_datasource_bytes")
        );
    } else {
        panic!("Expected Python data source in CommonInlineUserDefinedDataSource");
    }
}
