//! Python data sources: a pickled data source with its Python version, and
//! the named registration message that carries it.

use vstd::prelude::*;
use crate::proto::{bytes_content, bytes_copy_from_slice};

verus! {

/// A pickled Python data source and the Python version it was pickled with.
#[derive(Debug)]
pub struct PythonDataSourcePayload {
    pub command: Vec<u8>,
    pub python_ver: String,
}

/// `spark.connect.PythonDataSource`.
#[derive(Debug)]
pub struct PythonDataSource {
    pub command: bytes::Bytes,
    pub python_ver: String,
}

/// What a user-defined data source message carries.
#[derive(Debug)]
pub enum DataSourceKind {
    PythonDataSource(PythonDataSource),
}

/// `spark.connect.CommonInlineUserDefinedDataSource`.
#[derive(Debug)]
pub struct CommonInlineUserDefinedDataSource {
    pub name: String,
    pub data_source: Option<DataSourceKind>,
}

impl PythonDataSourcePayload {
    /// A payload of `command` pickled with Python `python_ver`.
    pub fn new(command: Vec<u8>, python_ver: String) -> (p: PythonDataSourcePayload)
        ensures
            p.command == command,
            p.python_ver == python_ver,
    {
        PythonDataSourcePayload { command, python_ver }
    }

    /// The message of this payload: the same bytes and version.
    pub fn to_proto(&self) -> (m: PythonDataSource)
        ensures
            bytes_content(m.command) == self.command@,
            m.python_ver@ == self.python_ver@,
    {
        PythonDataSource { command: bytes_copy_from_slice(self.command.as_slice()), python_ver: self.python_ver.clone() }
    }
}

/// A Python data source registered under a name.
#[derive(Debug)]
pub struct CommonInlineUserDefinedDataSourceExpression {
    pub name: String,
    pub python_data_source: PythonDataSourcePayload,
}

impl CommonInlineUserDefinedDataSourceExpression {
    /// The data source `python_data_source` under `name`.
    pub fn new(name: String, python_data_source: PythonDataSourcePayload) -> (e: CommonInlineUserDefinedDataSourceExpression)
        ensures
            e.name == name,
            e.python_data_source == python_data_source,
    {
        CommonInlineUserDefinedDataSourceExpression { name, python_data_source }
    }

    /// The registration message: the name and the Python data source.
    pub fn to_proto(&self) -> (m: CommonInlineUserDefinedDataSource)
        ensures
            m.name@ == self.name@,
            m.data_source matches Some(DataSourceKind::PythonDataSource(p))
                && bytes_content(p.command) == self.python_data_source.command@
                && p.python_ver@ == self.python_data_source.python_ver@,
    {
        CommonInlineUserDefinedDataSource {
            name: self.name.clone(),
            data_source: Some(DataSourceKind::PythonDataSource(self.python_data_source.to_proto())),
        }
    }
}

} // verus!
