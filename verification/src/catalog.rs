//! The catalog: the requests `spark.catalog` sends, and how the rows that
//! come back are read into answers and metadata records.

use vstd::prelude::*;
use crate::expression::copy_opt_string;
use crate::options::StringMap;
use crate::proto::opt_string_view;
use crate::row::{Row, Value};
use crate::text::{owned, strings_view};
use crate::dataframe::DataFrame;
use crate::plan::LogicalPlan;
use crate::relation::{Relation, RelationCommon, RelType, RelationView, RelationCommonView, RelTypeView};
use vstd::string::StringExecFns;

verus! {

/// How a cached table is stored.
#[derive(Debug, Clone, Copy, PartialEq, Eq, Structural)]
pub struct StorageLevel {
    pub use_disk: bool,
    pub use_memory: bool,
    pub use_off_heap: bool,
    pub deserialized: bool,
    pub replication: i32,
}

/// `spark.connect.Catalog`: one catalog request.
#[derive(Debug)]
pub enum CatalogOp {
    CurrentCatalog,
    SetCurrentCatalog { catalog_name: String },
    ListCatalogs { pattern: Option<String> },
    CurrentDatabase,
    SetCurrentDatabase { db_name: String },
    ListDatabases { pattern: Option<String> },
    GetDatabase { db_name: String },
    DatabaseExists { db_name: String },
    ListTables { db_name: Option<String>, pattern: Option<String> },
    GetTable { table_name: String, db_name: Option<String> },
    TableExists { table_name: String, db_name: Option<String> },
    ListColumns { table_name: String, db_name: Option<String> },
    ListFunctions { db_name: Option<String>, pattern: Option<String> },
    GetFunction { function_name: String, db_name: Option<String> },
    FunctionExists { function_name: String, db_name: Option<String> },
    CreateExternalTable { table_name: String, path: Option<String>, source: Option<String> },
    CreateTable { table_name: String, path: Option<String>, source: Option<String>, description: Option<String> },
    DropTempView { view_name: String },
    DropGlobalTempView { view_name: String },
    CacheTable { table_name: String, storage_level: Option<StorageLevel> },
    UncacheTable { table_name: String },
    IsCached { table_name: String },
    ClearCache,
    RefreshTable { table_name: String },
    RefreshByPath { path: String },
    RecoverPartitions { table_name: String },
    CreateDatabase { db_name: String, if_not_exists: bool, properties: StringMap },
    DropDatabase { db_name: String, if_exists: bool, cascade: bool },
    DropTable { table_name: String, if_exists: bool, purge: bool },
    DropView { view_name: String, if_exists: bool },
    TruncateTable { table_name: String },
    AnalyzeTable { table_name: String, no_scan: bool },
    GetCreateTableString { table_name: String, as_serde: bool },
    GetTableProperties { table_name: String },
    ListPartitions { table_name: String },
    ListViews { db_name: Option<String>, pattern: Option<String> },
}

/// The mathematical value of a catalog request.
pub enum CatalogOpView {
    CurrentCatalog,
    SetCurrentCatalog { catalog_name: Seq<char> },
    ListCatalogs { pattern: Option<Seq<char>> },
    CurrentDatabase,
    SetCurrentDatabase { db_name: Seq<char> },
    ListDatabases { pattern: Option<Seq<char>> },
    GetDatabase { db_name: Seq<char> },
    DatabaseExists { db_name: Seq<char> },
    ListTables { db_name: Option<Seq<char>>, pattern: Option<Seq<char>> },
    GetTable { table_name: Seq<char>, db_name: Option<Seq<char>> },
    TableExists { table_name: Seq<char>, db_name: Option<Seq<char>> },
    ListColumns { table_name: Seq<char>, db_name: Option<Seq<char>> },
    ListFunctions { db_name: Option<Seq<char>>, pattern: Option<Seq<char>> },
    GetFunction { function_name: Seq<char>, db_name: Option<Seq<char>> },
    FunctionExists { function_name: Seq<char>, db_name: Option<Seq<char>> },
    CreateExternalTable { table_name: Seq<char>, path: Option<Seq<char>>, source: Option<Seq<char>> },
    CreateTable { table_name: Seq<char>, path: Option<Seq<char>>, source: Option<Seq<char>>, description: Option<Seq<char>> },
    DropTempView { view_name: Seq<char> },
    DropGlobalTempView { view_name: Seq<char> },
    CacheTable { table_name: Seq<char>, storage_level: Option<StorageLevel> },
    UncacheTable { table_name: Seq<char> },
    IsCached { table_name: Seq<char> },
    ClearCache,
    RefreshTable { table_name: Seq<char> },
    RefreshByPath { path: Seq<char> },
    RecoverPartitions { table_name: Seq<char> },
    CreateDatabase { db_name: Seq<char>, if_not_exists: bool, properties: Seq<(Seq<char>, Seq<char>)> },
    DropDatabase { db_name: Seq<char>, if_exists: bool, cascade: bool },
    DropTable { table_name: Seq<char>, if_exists: bool, purge: bool },
    DropView { view_name: Seq<char>, if_exists: bool },
    TruncateTable { table_name: Seq<char> },
    AnalyzeTable { table_name: Seq<char>, no_scan: bool },
    GetCreateTableString { table_name: Seq<char>, as_serde: bool },
    GetTableProperties { table_name: Seq<char> },
    ListPartitions { table_name: Seq<char> },
    ListViews { db_name: Option<Seq<char>>, pattern: Option<Seq<char>> },
}

pub open spec fn catalog_op_view(op: CatalogOp) -> CatalogOpView {
    match op {
        CatalogOp::CurrentCatalog => CatalogOpView::CurrentCatalog,
        CatalogOp::SetCurrentCatalog { catalog_name } => CatalogOpView::SetCurrentCatalog { catalog_name: catalog_name@ },
        CatalogOp::ListCatalogs { pattern } => CatalogOpView::ListCatalogs { pattern: opt_string_view(pattern) },
        CatalogOp::CurrentDatabase => CatalogOpView::CurrentDatabase,
        CatalogOp::SetCurrentDatabase { db_name } => CatalogOpView::SetCurrentDatabase { db_name: db_name@ },
        CatalogOp::ListDatabases { pattern } => CatalogOpView::ListDatabases { pattern: opt_string_view(pattern) },
        CatalogOp::GetDatabase { db_name } => CatalogOpView::GetDatabase { db_name: db_name@ },
        CatalogOp::DatabaseExists { db_name } => CatalogOpView::DatabaseExists { db_name: db_name@ },
        CatalogOp::ListTables { db_name, pattern } =>
            CatalogOpView::ListTables { db_name: opt_string_view(db_name), pattern: opt_string_view(pattern) },
        CatalogOp::GetTable { table_name, db_name } =>
            CatalogOpView::GetTable { table_name: table_name@, db_name: opt_string_view(db_name) },
        CatalogOp::TableExists { table_name, db_name } =>
            CatalogOpView::TableExists { table_name: table_name@, db_name: opt_string_view(db_name) },
        CatalogOp::ListColumns { table_name, db_name } =>
            CatalogOpView::ListColumns { table_name: table_name@, db_name: opt_string_view(db_name) },
        CatalogOp::ListFunctions { db_name, pattern } =>
            CatalogOpView::ListFunctions { db_name: opt_string_view(db_name), pattern: opt_string_view(pattern) },
        CatalogOp::GetFunction { function_name, db_name } =>
            CatalogOpView::GetFunction { function_name: function_name@, db_name: opt_string_view(db_name) },
        CatalogOp::FunctionExists { function_name, db_name } =>
            CatalogOpView::FunctionExists { function_name: function_name@, db_name: opt_string_view(db_name) },
        CatalogOp::CreateExternalTable { table_name, path, source } => CatalogOpView::CreateExternalTable {
            table_name: table_name@,
            path: opt_string_view(path),
            source: opt_string_view(source),
        },
        CatalogOp::CreateTable { table_name, path, source, description } => CatalogOpView::CreateTable {
            table_name: table_name@,
            path: opt_string_view(path),
            source: opt_string_view(source),
            description: opt_string_view(description),
        },
        CatalogOp::DropTempView { view_name } => CatalogOpView::DropTempView { view_name: view_name@ },
        CatalogOp::DropGlobalTempView { view_name } => CatalogOpView::DropGlobalTempView { view_name: view_name@ },
        CatalogOp::CacheTable { table_name, storage_level } => CatalogOpView::CacheTable { table_name: table_name@, storage_level },
        CatalogOp::UncacheTable { table_name } => CatalogOpView::UncacheTable { table_name: table_name@ },
        CatalogOp::IsCached { table_name } => CatalogOpView::IsCached { table_name: table_name@ },
        CatalogOp::ClearCache => CatalogOpView::ClearCache,
        CatalogOp::RefreshTable { table_name } => CatalogOpView::RefreshTable { table_name: table_name@ },
        CatalogOp::RefreshByPath { path } => CatalogOpView::RefreshByPath { path: path@ },
        CatalogOp::RecoverPartitions { table_name } => CatalogOpView::RecoverPartitions { table_name: table_name@ },
        CatalogOp::CreateDatabase { db_name, if_not_exists, properties } => CatalogOpView::CreateDatabase {
            db_name: db_name@,
            if_not_exists,
            properties: properties.entries_view(),
        },
        CatalogOp::DropDatabase { db_name, if_exists, cascade } => CatalogOpView::DropDatabase { db_name: db_name@, if_exists, cascade },
        CatalogOp::DropTable { table_name, if_exists, purge } => CatalogOpView::DropTable { table_name: table_name@, if_exists, purge },
        CatalogOp::DropView { view_name, if_exists } => CatalogOpView::DropView { view_name: view_name@, if_exists },
        CatalogOp::TruncateTable { table_name } => CatalogOpView::TruncateTable { table_name: table_name@ },
        CatalogOp::AnalyzeTable { table_name, no_scan } => CatalogOpView::AnalyzeTable { table_name: table_name@, no_scan },
        CatalogOp::GetCreateTableString { table_name, as_serde } => CatalogOpView::GetCreateTableString { table_name: table_name@, as_serde },
        CatalogOp::GetTableProperties { table_name } => CatalogOpView::GetTableProperties { table_name: table_name@ },
        CatalogOp::ListPartitions { table_name } => CatalogOpView::ListPartitions { table_name: table_name@ },
        CatalogOp::ListViews { db_name, pattern } =>
            CatalogOpView::ListViews { db_name: opt_string_view(db_name), pattern: opt_string_view(pattern) },
    }
}

impl View for CatalogOp {
    type V = CatalogOpView;

    open spec fn view(&self) -> CatalogOpView {
        catalog_op_view(*self)
    }
}

impl CatalogOp {
    /// A copy of this request.
    pub fn copy(&self) -> (r: CatalogOp)
        ensures
            r@ == self@,
    {
        match self {
            CatalogOp::CurrentCatalog => CatalogOp::CurrentCatalog,
            CatalogOp::SetCurrentCatalog { catalog_name } => CatalogOp::SetCurrentCatalog { catalog_name: catalog_name.clone() },
            CatalogOp::ListCatalogs { pattern } => CatalogOp::ListCatalogs { pattern: copy_opt_string(pattern) },
            CatalogOp::CurrentDatabase => CatalogOp::CurrentDatabase,
            CatalogOp::SetCurrentDatabase { db_name } => CatalogOp::SetCurrentDatabase { db_name: db_name.clone() },
            CatalogOp::ListDatabases { pattern } => CatalogOp::ListDatabases { pattern: copy_opt_string(pattern) },
            CatalogOp::GetDatabase { db_name } => CatalogOp::GetDatabase { db_name: db_name.clone() },
            CatalogOp::DatabaseExists { db_name } => CatalogOp::DatabaseExists { db_name: db_name.clone() },
            CatalogOp::ListTables { db_name, pattern } =>
                CatalogOp::ListTables { db_name: copy_opt_string(db_name), pattern: copy_opt_string(pattern) },
            CatalogOp::GetTable { table_name, db_name } =>
                CatalogOp::GetTable { table_name: table_name.clone(), db_name: copy_opt_string(db_name) },
            CatalogOp::TableExists { table_name, db_name } =>
                CatalogOp::TableExists { table_name: table_name.clone(), db_name: copy_opt_string(db_name) },
            CatalogOp::ListColumns { table_name, db_name } =>
                CatalogOp::ListColumns { table_name: table_name.clone(), db_name: copy_opt_string(db_name) },
            CatalogOp::ListFunctions { db_name, pattern } =>
                CatalogOp::ListFunctions { db_name: copy_opt_string(db_name), pattern: copy_opt_string(pattern) },
            CatalogOp::GetFunction { function_name, db_name } =>
                CatalogOp::GetFunction { function_name: function_name.clone(), db_name: copy_opt_string(db_name) },
            CatalogOp::FunctionExists { function_name, db_name } =>
                CatalogOp::FunctionExists { function_name: function_name.clone(), db_name: copy_opt_string(db_name) },
            CatalogOp::CreateExternalTable { table_name, path, source } => CatalogOp::CreateExternalTable {
                table_name: table_name.clone(),
                path: copy_opt_string(path),
                source: copy_opt_string(source),
            },
            CatalogOp::CreateTable { table_name, path, source, description } => CatalogOp::CreateTable {
                table_name: table_name.clone(),
                path: copy_opt_string(path),
                source: copy_opt_string(source),
                description: copy_opt_string(description),
            },
            CatalogOp::DropTempView { view_name } => CatalogOp::DropTempView { view_name: view_name.clone() },
            CatalogOp::DropGlobalTempView { view_name } => CatalogOp::DropGlobalTempView { view_name: view_name.clone() },
            CatalogOp::CacheTable { table_name, storage_level } => CatalogOp::CacheTable {
                table_name: table_name.clone(),
                storage_level: *storage_level,
            },
            CatalogOp::UncacheTable { table_name } => CatalogOp::UncacheTable { table_name: table_name.clone() },
            CatalogOp::IsCached { table_name } => CatalogOp::IsCached { table_name: table_name.clone() },
            CatalogOp::ClearCache => CatalogOp::ClearCache,
            CatalogOp::RefreshTable { table_name } => CatalogOp::RefreshTable { table_name: table_name.clone() },
            CatalogOp::RefreshByPath { path } => CatalogOp::RefreshByPath { path: path.clone() },
            CatalogOp::RecoverPartitions { table_name } => CatalogOp::RecoverPartitions { table_name: table_name.clone() },
            CatalogOp::CreateDatabase { db_name, if_not_exists, properties } => CatalogOp::CreateDatabase {
                db_name: db_name.clone(),
                if_not_exists: *if_not_exists,
                properties: properties.copy(),
            },
            CatalogOp::DropDatabase { db_name, if_exists, cascade } => CatalogOp::DropDatabase {
                db_name: db_name.clone(),
                if_exists: *if_exists,
                cascade: *cascade,
            },
            CatalogOp::DropTable { table_name, if_exists, purge } => CatalogOp::DropTable {
                table_name: table_name.clone(),
                if_exists: *if_exists,
                purge: *purge,
            },
            CatalogOp::DropView { view_name, if_exists } => CatalogOp::DropView { view_name: view_name.clone(), if_exists: *if_exists },
            CatalogOp::TruncateTable { table_name } => CatalogOp::TruncateTable { table_name: table_name.clone() },
            CatalogOp::AnalyzeTable { table_name, no_scan } => CatalogOp::AnalyzeTable { table_name: table_name.clone(), no_scan: *no_scan },
            CatalogOp::GetCreateTableString { table_name, as_serde } => CatalogOp::GetCreateTableString {
                table_name: table_name.clone(),
                as_serde: *as_serde,
            },
            CatalogOp::GetTableProperties { table_name } => CatalogOp::GetTableProperties { table_name: table_name.clone() },
            CatalogOp::ListPartitions { table_name } => CatalogOp::ListPartitions { table_name: table_name.clone() },
            CatalogOp::ListViews { db_name, pattern } =>
                CatalogOp::ListViews { db_name: copy_opt_string(db_name), pattern: copy_opt_string(pattern) },
        }
    }
}

// ---------------------------------------------------------------------------
// Reading answers
// ---------------------------------------------------------------------------

/// An error reported while reading a catalog answer.
#[derive(Debug)]
pub struct ConnectError {
    pub message: String,
}

/// The value at `i`, if the row has one.
pub open spec fn value_at(vals: Seq<Value>, i: int) -> Option<Value> {
    if 0 <= i < vals.len() { Some(vals[i]) } else { None }
}

/// The string at `i`, or empty when there is none or it is not a string.
pub open spec fn str_at(vals: Seq<Value>, i: int) -> Seq<char> {
    match value_at(vals, i) {
        Some(Value::String(s)) => s@,
        _ => Seq::empty(),
    }
}

/// The string at `i`, if there is one.
pub open spec fn opt_str_at(vals: Seq<Value>, i: int) -> Option<Seq<char>> {
    match value_at(vals, i) {
        Some(Value::String(s)) => Some(s@),
        _ => None,
    }
}

/// The boolean at `i`, or false when there is none.
pub open spec fn bool_at(vals: Seq<Value>, i: int) -> bool {
    match value_at(vals, i) {
        Some(Value::Bool(b)) => b,
        _ => false,
    }
}

/// The strings among a list of values, in order.
pub open spec fn string_items(items: Seq<Value>) -> Seq<Seq<char>>
    decreases items.len(),
{
    if items.len() == 0 {
        Seq::empty()
    } else {
        string_items(items.drop_last()) + match items.last() {
            Value::String(s) => seq![s@],
            _ => Seq::empty(),
        }
    }
}

/// The namespace at `i`: the strings of a list there, or none.
pub open spec fn namespace_at(vals: Seq<Value>, i: int) -> Option<Seq<Seq<char>>> {
    match value_at(vals, i) {
        Some(Value::List(items)) => Some(string_items(items@)),
        _ => None,
    }
}

/// The string at `i` of `row`, or an empty string.
pub fn row_str(row: &Row, i: usize) -> (s: String)
    ensures
        s@ == str_at(row.value_seq(), i as int),
{
    match row.get(i) {
        Some(v) => match v.as_str() {
            Some(x) => owned(x),
            None => String::new(),
        },
        None => String::new(),
    }
}

/// The string at `i` of `row`, if there is one (null and other kinds give none).
pub fn row_opt_str(row: &Row, i: usize) -> (s: Option<String>)
    ensures
        opt_string_view(s) == opt_str_at(row.value_seq(), i as int),
{
    match row.get(i) {
        Some(v) => {
            if v.is_null() {
                None
            } else {
                match v.as_str() {
                    Some(x) => Some(owned(x)),
                    None => None,
                }
            }
        },
        None => None,
    }
}

/// The boolean at `i` of `row`, or false.
pub fn row_bool(row: &Row, i: usize) -> (b: bool)
    ensures
        b == bool_at(row.value_seq(), i as int),
{
    match row.get(i) {
        Some(v) => match v.as_bool() {
            Some(b) => b,
            None => false,
        },
        None => false,
    }
}

/// The strings of the list at `i` of `row`, if a list is there.
pub fn row_opt_namespace(row: &Row, i: usize) -> (r: Option<Vec<String>>)
    ensures
        match r {
            Some(v) => namespace_at(row.value_seq(), i as int) == Some(strings_view(v@)),
            None => namespace_at(row.value_seq(), i as int) is None,
        },
{
    match row.get(i) {
        Some(Value::List(items)) => {
            let mut out: Vec<String> = Vec::new();
            let mut k: usize = 0;
            while k < items.len()
                invariant
                    k <= items@.len(),
                    strings_view(out@) == string_items(items@.take(k as int)),
                decreases items@.len() - k,
            {
                assert(items@.take(k as int + 1).drop_last() =~= items@.take(k as int));
                match items[k].as_str() {
                    Some(x) => {
                        let ghost before = out@;
                        out.push(owned(x));
                        assert(strings_view(out@) =~= strings_view(before) + seq![x@]);
                    },
                    None => {},
                }
                k = k + 1;
            }
            assert(items@.take(items@.len() as int) =~= items@);
            Some(out)
        },
        _ => None,
    }
}

/// A catalog's metadata.
#[derive(Debug)]
pub struct CatalogMetadata {
    pub name: String,
    pub description: Option<String>,
}

/// A database's metadata.
#[derive(Debug)]
pub struct Database {
    pub name: String,
    pub catalog: Option<String>,
    pub description: Option<String>,
    pub location_uri: String,
}

/// A table's (or view's) metadata.
#[derive(Debug)]
pub struct Table {
    pub name: String,
    pub catalog: Option<String>,
    pub namespace: Option<Vec<String>>,
    pub description: Option<String>,
    pub table_type: String,
    pub is_temporary: bool,
}

/// A table column's metadata.
#[derive(Debug)]
pub struct Column {
    pub name: String,
    pub description: Option<String>,
    pub data_type: String,
    pub nullable: bool,
    pub is_partition: bool,
    pub is_bucket: bool,
    pub is_cluster: bool,
}

/// A function's metadata.
#[derive(Debug)]
pub struct Function {
    pub name: String,
    pub catalog: Option<String>,
    pub namespace: Option<Vec<String>>,
    pub description: Option<String>,
    pub class_name: String,
    pub is_temporary: bool,
}

/// A table partition.
#[derive(Debug)]
pub struct TablePartition {
    pub partition: String,
}

pub open spec fn opt_strings_view(v: Option<Vec<String>>) -> Option<Seq<Seq<char>>> {
    match v {
        Some(x) => Some(strings_view(x@)),
        None => None,
    }
}

/// `x` holds what the row `r` says, field by field.
pub open spec fn catalog_row(x: CatalogMetadata, r: Row) -> bool {
    &&& x.name@ == str_at(r.value_seq(), 0)
    &&& opt_string_view(x.description) == opt_str_at(r.value_seq(), 1)
}

/// `x` holds what the row `r` says, field by field.
pub open spec fn database_row(x: Database, r: Row) -> bool {
    &&& x.name@ == str_at(r.value_seq(), 0)
    &&& opt_string_view(x.catalog) == opt_str_at(r.value_seq(), 1)
    &&& opt_string_view(x.description) == opt_str_at(r.value_seq(), 2)
    &&& x.location_uri@ == str_at(r.value_seq(), 3)
}

/// `x` holds what the row `r` says, field by field.
pub open spec fn table_row(x: Table, r: Row) -> bool {
    &&& x.name@ == str_at(r.value_seq(), 0)
    &&& opt_string_view(x.catalog) == opt_str_at(r.value_seq(), 1)
    &&& opt_strings_view(x.namespace) == namespace_at(r.value_seq(), 2)
    &&& opt_string_view(x.description) == opt_str_at(r.value_seq(), 3)
    &&& x.table_type@ == str_at(r.value_seq(), 4)
    &&& x.is_temporary == bool_at(r.value_seq(), 5)
}

/// `x` holds what the row `r` says, field by field.
pub open spec fn function_row(x: Function, r: Row) -> bool {
    &&& x.name@ == str_at(r.value_seq(), 0)
    &&& opt_string_view(x.catalog) == opt_str_at(r.value_seq(), 1)
    &&& opt_strings_view(x.namespace) == namespace_at(r.value_seq(), 2)
    &&& opt_string_view(x.description) == opt_str_at(r.value_seq(), 3)
    &&& x.class_name@ == str_at(r.value_seq(), 4)
    &&& x.is_temporary == bool_at(r.value_seq(), 5)
}

/// `x` holds what the row `r` says, field by field.
pub open spec fn column_row(x: Column, r: Row) -> bool {
    &&& x.name@ == str_at(r.value_seq(), 0)
    &&& opt_string_view(x.description) == opt_str_at(r.value_seq(), 1)
    &&& x.data_type@ == str_at(r.value_seq(), 2)
    &&& x.nullable == bool_at(r.value_seq(), 3)
    &&& x.is_partition == bool_at(r.value_seq(), 4)
    &&& x.is_bucket == bool_at(r.value_seq(), 5)
    &&& x.is_cluster == bool_at(r.value_seq(), 6)
}

/// `x` holds what the row `r` says, field by field.
pub open spec fn partition_row(x: TablePartition, r: Row) -> bool {
    &&& x.partition@ == str_at(r.value_seq(), 0)
}

/// A catalog's metadata from its row: name, description.
pub fn parse_catalog(r: &Row) -> (c: CatalogMetadata)
    ensures
        catalog_row(c, *r),
{
    CatalogMetadata { name: row_str(r, 0), description: row_opt_str(r, 1) }
}

/// A database's metadata from its row: name, catalog, description, location.
pub fn parse_database(r: &Row) -> (d: Database)
    ensures
        database_row(d, *r),
{
    Database {
        name: row_str(r, 0),
        catalog: row_opt_str(r, 1),
        description: row_opt_str(r, 2),
        location_uri: row_str(r, 3),
    }
}

/// A table's metadata from its row: name, catalog, namespace, description,
/// type, temporariness.
pub fn parse_table(r: &Row) -> (t: Table)
    ensures
        table_row(t, *r),
{
    Table {
        name: row_str(r, 0),
        catalog: row_opt_str(r, 1),
        namespace: row_opt_namespace(r, 2),
        description: row_opt_str(r, 3),
        table_type: row_str(r, 4),
        is_temporary: row_bool(r, 5),
    }
}

/// A function's metadata from its row: name, catalog, namespace,
/// description, class name, temporariness.
pub fn parse_function(r: &Row) -> (f: Function)
    ensures
        function_row(f, *r),
{
    Function {
        name: row_str(r, 0),
        catalog: row_opt_str(r, 1),
        namespace: row_opt_namespace(r, 2),
        description: row_opt_str(r, 3),
        class_name: row_str(r, 4),
        is_temporary: row_bool(r, 5),
    }
}

/// A column's metadata from its row: name, description, type, nullability,
/// partition, bucket and cluster membership.
pub fn parse_column(r: &Row) -> (c: Column)
    ensures
        column_row(c, *r),
{
    Column {
        name: row_str(r, 0),
        description: row_opt_str(r, 1),
        data_type: row_str(r, 2),
        nullable: row_bool(r, 3),
        is_partition: row_bool(r, 4),
        is_bucket: row_bool(r, 5),
        is_cluster: row_bool(r, 6),
    }
}

/// A partition from its row.
pub fn parse_partition(r: &Row) -> (p: TablePartition)
    ensures
        partition_row(p, *r),
{
    TablePartition { partition: row_str(r, 0) }
}

/// The first value of the first row, if there is one.
pub open spec fn first_value(rows: Seq<Row>) -> Option<Value> {
    if rows.len() > 0 { value_at(rows[0].value_seq(), 0) } else { None }
}

fn first_value_of(rows: &Vec<Row>) -> (r: Option<&Value>)
    ensures
        match r {
            Some(v) => first_value(rows@) == Some(*v),
            None => first_value(rows@) is None,
        },
{
    if rows.len() == 0 {
        None
    } else {
        rows[0].get(0)
    }
}

fn error_with(what: &str, suffix: &str) -> (e: ConnectError)
    ensures
        e.message@ == what@ + suffix@,
{
    let mut m = owned(what);
    m.append(suffix);
    ConnectError { message: m }
}

/// The answer of a request that returns one string (`currentCatalog`,
/// `currentDatabase`): the first value of the first row, which must be a
/// string. `what` names the request in the error.
pub fn string_answer(rows: &Vec<Row>, what: &str) -> (r: Result<String, ConnectError>)
    ensures
        match first_value(rows@) {
            Some(Value::String(s)) => r matches Ok(x) && x@ == s@,
            Some(_) => r matches Err(e) && e.message@ == what@ + " returned non-string"@,
            None => r matches Err(e) && e.message@ == what@ + " returned no result"@,
        },
{
    match first_value_of(rows) {
        Some(v) => match v.as_str() {
            Some(s) => Ok(owned(s)),
            None => Err(error_with(what, " returned non-string")),
        },
        None => Err(error_with(what, " returned no result")),
    }
}

/// The answer of a request that returns a boolean (`databaseExists`,
/// `tableExists`, `functionExists`, `dropTempView`, `isCached`, ...): the
/// first value of the first row, which must be a boolean; no value means
/// false. `what` names the request in the error.
pub fn bool_answer(rows: &Vec<Row>, what: &str) -> (r: Result<bool, ConnectError>)
    ensures
        match first_value(rows@) {
            Some(Value::Bool(b)) => r == Ok::<bool, ConnectError>(b),
            Some(_) => r matches Err(e) && e.message@ == what@ + " returned non-boolean"@,
            None => r == Ok::<bool, ConnectError>(false),
        },
{
    match first_value_of(rows) {
        Some(v) => match v.as_bool() {
            Some(b) => Ok(b),
            None => Err(error_with(what, " returned non-boolean")),
        },
        None => Ok(false),
    }
}

/// The answer of `getCreateTableString`: the first value of the first row,
/// which must be a string; no value gives an empty string.
pub fn create_table_string_answer(rows: &Vec<Row>) -> (r: Result<String, ConnectError>)
    ensures
        match first_value(rows@) {
            Some(Value::String(s)) => r matches Ok(x) && x@ == s@,
            Some(_) => r matches Err(e) && e.message@ == "getCreateTableString returned non-string"@,
            None => r matches Ok(x) && x@.len() == 0,
        },
{
    match first_value_of(rows) {
        Some(v) => match v.as_str() {
            Some(s) => Ok(owned(s)),
            None => Err(ConnectError { message: owned("getCreateTableString returned non-string") }),
        },
        None => Ok(String::new()),
    }
}

/// Every row has a string key in its first column and a string value in
/// its second.
pub open spec fn all_properties(rows: Seq<Row>) -> bool {
    forall|k: int| 0 <= k < rows.len() ==> opt_str_at(#[trigger] rows[k].value_seq(), 0) is Some
        && opt_str_at(rows[k].value_seq(), 1) is Some
}

/// The error of the first row whose key or value is not a string: `m` is
/// its message, for the key before the value.
pub open spec fn properties_error(rows: Seq<Row>, m: Seq<char>) -> bool {
    exists|k: int| 0 <= k < rows.len() && {
        &&& forall|j: int| 0 <= j < k ==> opt_str_at(rows[j].value_seq(), 0) is Some && opt_str_at(rows[j].value_seq(), 1) is Some
        &&& if opt_str_at(#[trigger] rows[k].value_seq(), 0) is None {
            m == "getTableProperties key not a string"@
        } else {
            opt_str_at(rows[k].value_seq(), 1) is None && m == "getTableProperties value not a string"@
        }
    }
}

/// The answer of `getTableProperties`: one (key, value) pair per row. The
/// first row whose key or value is not a string fails the answer.
pub fn table_properties_answer(rows: &Vec<Row>) -> (r: Result<Vec<(String, String)>, ConnectError>)
    ensures
        match r {
            Ok(props) => all_properties(rows@) && props@.len() == rows@.len()
                && forall|k: int| 0 <= k < rows@.len() ==> Some((#[trigger] props@[k]).0@) == opt_str_at(rows@[k].value_seq(), 0)
                    && Some(props@[k].1@) == opt_str_at(rows@[k].value_seq(), 1),
            Err(e) => !all_properties(rows@) && properties_error(rows@, e.message@),
        },
{
    let mut props: Vec<(String, String)> = Vec::new();
    let mut k: usize = 0;
    while k < rows.len()
        invariant
            k <= rows@.len(),
            props@.len() == k,
            forall|j: int| 0 <= j < k ==> opt_str_at(rows@[j].value_seq(), 0) is Some && opt_str_at(rows@[j].value_seq(), 1) is Some,
            forall|j: int| 0 <= j < k ==> Some((#[trigger] props@[j]).0@) == opt_str_at(rows@[j].value_seq(), 0)
                && Some(props@[j].1@) == opt_str_at(rows@[j].value_seq(), 1),
        decreases rows@.len() - k,
    {
        let key = match rows[k].get(0) {
            Some(v) => v.as_str(),
            None => None,
        };
        let key = match key {
            Some(x) => x,
            None => {
                return Err(ConnectError { message: owned("getTableProperties key not a string") });
            },
        };
        let value = match rows[k].get(1) {
            Some(v) => v.as_str(),
            None => None,
        };
        let value = match value {
            Some(x) => x,
            None => {
                return Err(ConnectError { message: owned("getTableProperties value not a string") });
            },
        };
        props.push((owned(key), owned(value)));
        k = k + 1;
    }
    Ok(props)
}

/// The name a request that is answered by one value is known by in the
/// errors of its answer.
pub open spec fn request_name(op: CatalogOp) -> Seq<char> {
    match op {
        CatalogOp::CurrentCatalog => "currentCatalog"@,
        CatalogOp::CurrentDatabase => "currentDatabase"@,
        CatalogOp::DatabaseExists { .. } => "databaseExists"@,
        CatalogOp::TableExists { .. } => "tableExists"@,
        CatalogOp::FunctionExists { .. } => "functionExists"@,
        CatalogOp::DropTempView { .. } => "dropTempView"@,
        CatalogOp::DropGlobalTempView { .. } => "dropGlobalTempView"@,
        CatalogOp::IsCached { .. } => "isCached"@,
        _ => Seq::empty(),
    }
}

/// The requests answered by one string.
pub open spec fn answers_string(op: CatalogOp) -> bool {
    op is CurrentCatalog || op is CurrentDatabase
}

/// The requests answered by one boolean.
pub open spec fn answers_bool(op: CatalogOp) -> bool {
    ||| op is DatabaseExists
    ||| op is TableExists
    ||| op is FunctionExists
    ||| op is DropTempView
    ||| op is DropGlobalTempView
    ||| op is IsCached
}

impl CatalogOp {
    fn request_name(&self) -> (s: &'static str)
        ensures
            s@ == request_name(*self),
    {
        proof {
            reveal_strlit("currentCatalog");
            reveal_strlit("currentDatabase");
            reveal_strlit("databaseExists");
            reveal_strlit("tableExists");
            reveal_strlit("functionExists");
            reveal_strlit("dropTempView");
            reveal_strlit("dropGlobalTempView");
            reveal_strlit("isCached");
            reveal_strlit("");
        }
        match self {
            CatalogOp::CurrentCatalog => "currentCatalog",
            CatalogOp::CurrentDatabase => "currentDatabase",
            CatalogOp::DatabaseExists { .. } => "databaseExists",
            CatalogOp::TableExists { .. } => "tableExists",
            CatalogOp::FunctionExists { .. } => "functionExists",
            CatalogOp::DropTempView { .. } => "dropTempView",
            CatalogOp::DropGlobalTempView { .. } => "dropGlobalTempView",
            CatalogOp::IsCached { .. } => "isCached",
            _ => "",
        }
    }

    /// What the server's rows answer this request with, for
    /// `currentCatalog` and `currentDatabase` (see `string_answer`).
    pub fn answer_string(&self, rows: &Vec<Row>) -> (r: Result<String, ConnectError>)
        requires
            answers_string(*self),
        ensures
            match first_value(rows@) {
                Some(Value::String(s)) => r matches Ok(x) && x@ == s@,
                Some(_) => r matches Err(e) && e.message@ == request_name(*self) + " returned non-string"@,
                None => r matches Err(e) && e.message@ == request_name(*self) + " returned no result"@,
            },
    {
        string_answer(rows, self.request_name())
    }

    /// What the server's rows answer this request with, for `databaseExists`,
    /// `tableExists`, `functionExists`, `dropTempView`, `dropGlobalTempView`
    /// and `isCached` (see `bool_answer`).
    pub fn answer_bool(&self, rows: &Vec<Row>) -> (r: Result<bool, ConnectError>)
        requires
            answers_bool(*self),
        ensures
            match first_value(rows@) {
                Some(Value::Bool(b)) => r == Ok::<bool, ConnectError>(b),
                Some(_) => r matches Err(e) && e.message@ == request_name(*self) + " returned non-boolean"@,
                None => r == Ok::<bool, ConnectError>(false),
            },
    {
        bool_answer(rows, self.request_name())
    }

    /// What the server's rows answer `getCreateTableString` with (see
    /// `create_table_string_answer`).
    pub fn answer_create_table_string(&self, rows: &Vec<Row>) -> (r: Result<String, ConnectError>)
        requires
            *self is GetCreateTableString,
        ensures
            match first_value(rows@) {
                Some(Value::String(s)) => r matches Ok(x) && x@ == s@,
                Some(_) => r matches Err(e) && e.message@ == "getCreateTableString returned non-string"@,
                None => r matches Ok(x) && x@.len() == 0,
            },
    {
        create_table_string_answer(rows)
    }

    /// What the server's rows answer `getTableProperties` with (see
    /// `table_properties_answer`).
    pub fn answer_table_properties(&self, rows: &Vec<Row>) -> (r: Result<Vec<(String, String)>, ConnectError>)
        requires
            *self is GetTableProperties,
        ensures
            match r {
                Ok(props) => all_properties(rows@) && props@.len() == rows@.len()
                    && forall|k: int| 0 <= k < rows@.len() ==> Some((#[trigger] props@[k]).0@) == opt_str_at(rows@[k].value_seq(), 0)
                        && Some(props@[k].1@) == opt_str_at(rows@[k].value_seq(), 1),
                Err(e) => !all_properties(rows@) && properties_error(rows@, e.message@),
            },
    {
        table_properties_answer(rows)
    }
}

// ---------------------------------------------------------------------------
// Requests
// ---------------------------------------------------------------------------

/// The catalog of a session: it builds the catalog requests.
#[derive(Debug)]
pub struct Catalog {}

fn opt_owned(s: Option<&str>) -> (r: Option<String>)
    ensures
        opt_string_view(r) == match s {
            Some(x) => Some(x@),
            None => None::<Seq<char>>,
        },
{
    match s {
        Some(x) => Some(owned(x)),
        None => None,
    }
}

/// `Some(s@)` for `Some(s)`.
pub open spec fn opt_str_view(s: Option<&str>) -> Option<Seq<char>> {
    match s {
        Some(x) => Some(x@),
        None => None,
    }
}

impl Catalog {
    /// A catalog.
    pub fn new() -> (c: Catalog) {
        Catalog {}
    }

    /// `listCatalogs`, optionally by pattern.
    pub fn list_catalogs_with_pattern(&self, pattern: Option<&str>) -> (op: CatalogOp)
        ensures
            op@ == (CatalogOpView::ListCatalogs { pattern: opt_str_view(pattern) }),
    {
        CatalogOp::ListCatalogs { pattern: opt_owned(pattern) }
    }

    /// `setCurrentCatalog`.
    pub fn set_current_catalog(&self, catalog_name: &str) -> (op: CatalogOp)
        ensures
            op@ == (CatalogOpView::SetCurrentCatalog { catalog_name: catalog_name@ }),
    {
        CatalogOp::SetCurrentCatalog { catalog_name: owned(catalog_name) }
    }

    /// `setCurrentDatabase`.
    pub fn set_current_database(&self, db_name: &str) -> (op: CatalogOp)
        ensures
            op@ == (CatalogOpView::SetCurrentDatabase { db_name: db_name@ }),
    {
        CatalogOp::SetCurrentDatabase { db_name: owned(db_name) }
    }

    /// `listDatabases`, optionally by pattern.
    pub fn list_databases_with_pattern(&self, pattern: Option<&str>) -> (op: CatalogOp)
        ensures
            op@ == (CatalogOpView::ListDatabases { pattern: opt_str_view(pattern) }),
    {
        CatalogOp::ListDatabases { pattern: opt_owned(pattern) }
    }

    /// `getDatabase`.
    pub fn get_database(&self, db_name: &str) -> (op: CatalogOp)
        ensures
            op@ == (CatalogOpView::GetDatabase { db_name: db_name@ }),
    {
        CatalogOp::GetDatabase { db_name: owned(db_name) }
    }

    /// `databaseExists`.
    pub fn database_exists(&self, db_name: &str) -> (op: CatalogOp)
        ensures
            op@ == (CatalogOpView::DatabaseExists { db_name: db_name@ }),
    {
        CatalogOp::DatabaseExists { db_name: owned(db_name) }
    }

    /// `listTables`, optionally in a database and by pattern.
    pub fn list_tables_with_pattern(&self, db_name: Option<&str>, pattern: Option<&str>) -> (op: CatalogOp)
        ensures
            op@ == (CatalogOpView::ListTables { db_name: opt_str_view(db_name), pattern: opt_str_view(pattern) }),
    {
        CatalogOp::ListTables { db_name: opt_owned(db_name), pattern: opt_owned(pattern) }
    }

    /// `getTable`, optionally in a database.
    pub fn get_table_with_database(&self, table_name: &str, db_name: Option<&str>) -> (op: CatalogOp)
        ensures
            op@ == (CatalogOpView::GetTable { table_name: table_name@, db_name: opt_str_view(db_name) }),
    {
        CatalogOp::GetTable { table_name: owned(table_name), db_name: opt_owned(db_name) }
    }

    /// `tableExists`, optionally in a database.
    pub fn table_exists_with_database(&self, table_name: &str, db_name: Option<&str>) -> (op: CatalogOp)
        ensures
            op@ == (CatalogOpView::TableExists { table_name: table_name@, db_name: opt_str_view(db_name) }),
    {
        CatalogOp::TableExists { table_name: owned(table_name), db_name: opt_owned(db_name) }
    }

    /// `listColumns`, optionally in a database.
    pub fn list_columns_with_database(&self, table_name: &str, db_name: Option<&str>) -> (op: CatalogOp)
        ensures
            op@ == (CatalogOpView::ListColumns { table_name: table_name@, db_name: opt_str_view(db_name) }),
    {
        CatalogOp::ListColumns { table_name: owned(table_name), db_name: opt_owned(db_name) }
    }

    /// `listFunctions`, optionally in a database and by pattern.
    pub fn list_functions_with_pattern(&self, db_name: Option<&str>, pattern: Option<&str>) -> (op: CatalogOp)
        ensures
            op@ == (CatalogOpView::ListFunctions { db_name: opt_str_view(db_name), pattern: opt_str_view(pattern) }),
    {
        CatalogOp::ListFunctions { db_name: opt_owned(db_name), pattern: opt_owned(pattern) }
    }

    /// `getFunction`, optionally in a database.
    pub fn get_function_with_database(&self, function_name: &str, db_name: Option<&str>) -> (op: CatalogOp)
        ensures
            op@ == (CatalogOpView::GetFunction { function_name: function_name@, db_name: opt_str_view(db_name) }),
    {
        CatalogOp::GetFunction { function_name: owned(function_name), db_name: opt_owned(db_name) }
    }

    /// `functionExists`, optionally in a database.
    pub fn function_exists_with_database(&self, function_name: &str, db_name: Option<&str>) -> (op: CatalogOp)
        ensures
            op@ == (CatalogOpView::FunctionExists { function_name: function_name@, db_name: opt_str_view(db_name) }),
    {
        CatalogOp::FunctionExists { function_name: owned(function_name), db_name: opt_owned(db_name) }
    }

    /// `createExternalTable`.
    pub fn create_external_table(&self, table_name: &str, path: Option<&str>, source: Option<&str>) -> (op: CatalogOp)
        ensures
            op@ == (CatalogOpView::CreateExternalTable { table_name: table_name@, path: opt_str_view(path), source: opt_str_view(source) }),
    {
        CatalogOp::CreateExternalTable { table_name: owned(table_name), path: opt_owned(path), source: opt_owned(source) }
    }

    /// `createTable`.
    pub fn create_table(&self, table_name: &str, path: Option<&str>, source: Option<&str>, description: Option<&str>) -> (op: CatalogOp)
        ensures
            op@ == (CatalogOpView::CreateTable {
                table_name: table_name@,
                path: opt_str_view(path),
                source: opt_str_view(source),
                description: opt_str_view(description),
            }),
    {
        CatalogOp::CreateTable {
            table_name: owned(table_name),
            path: opt_owned(path),
            source: opt_owned(source),
            description: opt_owned(description),
        }
    }

    /// `dropTempView`.
    pub fn drop_temp_view(&self, view_name: &str) -> (op: CatalogOp)
        ensures
            op@ == (CatalogOpView::DropTempView { view_name: view_name@ }),
    {
        CatalogOp::DropTempView { view_name: owned(view_name) }
    }

    /// `dropGlobalTempView`.
    pub fn drop_global_temp_view(&self, view_name: &str) -> (op: CatalogOp)
        ensures
            op@ == (CatalogOpView::DropGlobalTempView { view_name: view_name@ }),
    {
        CatalogOp::DropGlobalTempView { view_name: owned(view_name) }
    }

    /// `cacheTable`, optionally at a storage level.
    pub fn cache_table_with_storage_level(&self, table_name: &str, storage_level: Option<StorageLevel>) -> (op: CatalogOp)
        ensures
            op@ == (CatalogOpView::CacheTable { table_name: table_name@, storage_level }),
    {
        CatalogOp::CacheTable { table_name: owned(table_name), storage_level }
    }

    /// `uncacheTable`.
    pub fn uncache_table(&self, table_name: &str) -> (op: CatalogOp)
        ensures
            op@ == (CatalogOpView::UncacheTable { table_name: table_name@ }),
    {
        CatalogOp::UncacheTable { table_name: owned(table_name) }
    }

    /// `isCached`.
    pub fn is_cached(&self, table_name: &str) -> (op: CatalogOp)
        ensures
            op@ == (CatalogOpView::IsCached { table_name: table_name@ }),
    {
        CatalogOp::IsCached { table_name: owned(table_name) }
    }

    /// `refreshTable`.
    pub fn refresh_table(&self, table_name: &str) -> (op: CatalogOp)
        ensures
            op@ == (CatalogOpView::RefreshTable { table_name: table_name@ }),
    {
        CatalogOp::RefreshTable { table_name: owned(table_name) }
    }

    /// `refreshByPath`.
    pub fn refresh_by_path(&self, path: &str) -> (op: CatalogOp)
        ensures
            op@ == (CatalogOpView::RefreshByPath { path: path@ }),
    {
        CatalogOp::RefreshByPath { path: owned(path) }
    }

    /// `recoverPartitions`.
    pub fn recover_partitions(&self, table_name: &str) -> (op: CatalogOp)
        ensures
            op@ == (CatalogOpView::RecoverPartitions { table_name: table_name@ }),
    {
        CatalogOp::RecoverPartitions { table_name: owned(table_name) }
    }

    /// `createDatabase`.
    pub fn create_database(&self, db_name: &str, if_not_exists: bool, properties: StringMap) -> (op: CatalogOp)
        ensures
            op@ == (CatalogOpView::CreateDatabase { db_name: db_name@, if_not_exists, properties: properties.entries_view() }),
    {
        CatalogOp::CreateDatabase { db_name: owned(db_name), if_not_exists, properties }
    }

    /// `dropDatabase`.
    pub fn drop_database(&self, db_name: &str, if_exists: bool, cascade: bool) -> (op: CatalogOp)
        ensures
            op@ == (CatalogOpView::DropDatabase { db_name: db_name@, if_exists, cascade }),
    {
        CatalogOp::DropDatabase { db_name: owned(db_name), if_exists, cascade }
    }

    /// `dropTable`.
    pub fn drop_table(&self, table_name: &str, if_exists: bool, purge: bool) -> (op: CatalogOp)
        ensures
            op@ == (CatalogOpView::DropTable { table_name: table_name@, if_exists, purge }),
    {
        CatalogOp::DropTable { table_name: owned(table_name), if_exists, purge }
    }

    /// `dropView`.
    pub fn drop_view(&self, view_name: &str, if_exists: bool) -> (op: CatalogOp)
        ensures
            op@ == (CatalogOpView::DropView { view_name: view_name@, if_exists }),
    {
        CatalogOp::DropView { view_name: owned(view_name), if_exists }
    }

    /// `truncateTable`.
    pub fn truncate_table(&self, table_name: &str) -> (op: CatalogOp)
        ensures
            op@ == (CatalogOpView::TruncateTable { table_name: table_name@ }),
    {
        CatalogOp::TruncateTable { table_name: owned(table_name) }
    }

    /// `analyzeTable`.
    pub fn analyze_table(&self, table_name: &str, no_scan: bool) -> (op: CatalogOp)
        ensures
            op@ == (CatalogOpView::AnalyzeTable { table_name: table_name@, no_scan }),
    {
        CatalogOp::AnalyzeTable { table_name: owned(table_name), no_scan }
    }

    /// `getCreateTableString`.
    pub fn get_create_table_string(&self, table_name: &str, as_serde: bool) -> (op: CatalogOp)
        ensures
            op@ == (CatalogOpView::GetCreateTableString { table_name: table_name@, as_serde }),
    {
        CatalogOp::GetCreateTableString { table_name: owned(table_name), as_serde }
    }

    /// `getTableProperties`.
    pub fn get_table_properties(&self, table_name: &str) -> (op: CatalogOp)
        ensures
            op@ == (CatalogOpView::GetTableProperties { table_name: table_name@ }),
    {
        CatalogOp::GetTableProperties { table_name: owned(table_name) }
    }

    /// `listPartitions`.
    pub fn list_partitions(&self, table_name: &str) -> (op: CatalogOp)
        ensures
            op@ == (CatalogOpView::ListPartitions { table_name: table_name@ }),
    {
        CatalogOp::ListPartitions { table_name: owned(table_name) }
    }

    /// `listViews` in the database `db_name`, optionally by pattern. A
    /// pattern without a database lists the views of the current database:
    /// `current_database` is that database's name, which the caller asks
    /// for first (with `CurrentDatabase`) in that case only.
    pub fn list_views(&self, db_name: Option<&str>, pattern: Option<&str>, current_database: Option<String>) -> (op: CatalogOp)
        requires
            (pattern is Some && db_name is None) ==> current_database is Some,
        ensures
            op@ == (CatalogOpView::ListViews {
                db_name: if pattern is Some && db_name is None { opt_string_view(current_database) } else { opt_str_view(db_name) },
                pattern: opt_str_view(pattern),
            }),
    {
        let resolved = if pattern.is_some() && db_name.is_none() { current_database } else { opt_owned(db_name) };
        CatalogOp::ListViews { db_name: resolved, pattern: opt_owned(pattern) }
    }
    /// `currentCatalog`.
    pub fn current_catalog(&self) -> (op: CatalogOp)
        ensures
            op@ == CatalogOpView::CurrentCatalog,
    {
        CatalogOp::CurrentCatalog
    }

    /// `currentDatabase`.
    pub fn current_database(&self) -> (op: CatalogOp)
        ensures
            op@ == CatalogOpView::CurrentDatabase,
    {
        CatalogOp::CurrentDatabase
    }

    /// `clearCache`.
    pub fn clear_cache(&self) -> (op: CatalogOp)
        ensures
            op@ == CatalogOpView::ClearCache,
    {
        CatalogOp::ClearCache
    }

    /// `listCatalogs`.
    pub fn list_catalogs(&self) -> (op: CatalogOp)
        ensures
            op@ == (CatalogOpView::ListCatalogs { pattern: None }),
    {
        self.list_catalogs_with_pattern(None)
    }

    /// `listDatabases`.
    pub fn list_databases(&self) -> (op: CatalogOp)
        ensures
            op@ == (CatalogOpView::ListDatabases { pattern: None }),
    {
        self.list_databases_with_pattern(None)
    }

    /// `listTables` in the current database.
    pub fn list_tables(&self) -> (op: CatalogOp)
        ensures
            op@ == (CatalogOpView::ListTables { db_name: None, pattern: None }),
    {
        self.list_tables_with_pattern(None, None)
    }

    /// `listTables` in `db_name`.
    pub fn list_tables_in_database(&self, db_name: &str) -> (op: CatalogOp)
        ensures
            op@ == (CatalogOpView::ListTables { db_name: Some(db_name@), pattern: None }),
    {
        self.list_tables_with_pattern(Some(db_name), None)
    }

    /// `getTable`.
    pub fn get_table(&self, table_name: &str) -> (op: CatalogOp)
        ensures
            op@ == (CatalogOpView::GetTable { table_name: table_name@, db_name: None }),
    {
        self.get_table_with_database(table_name, None)
    }

    /// `tableExists`.
    pub fn table_exists(&self, table_name: &str) -> (op: CatalogOp)
        ensures
            op@ == (CatalogOpView::TableExists { table_name: table_name@, db_name: None }),
    {
        self.table_exists_with_database(table_name, None)
    }

    /// `listColumns`.
    pub fn list_columns(&self, table_name: &str) -> (op: CatalogOp)
        ensures
            op@ == (CatalogOpView::ListColumns { table_name: table_name@, db_name: None }),
    {
        self.list_columns_with_database(table_name, None)
    }

    /// `listFunctions` in the current database.
    pub fn list_functions(&self) -> (op: CatalogOp)
        ensures
            op@ == (CatalogOpView::ListFunctions { db_name: None, pattern: None }),
    {
        self.list_functions_with_pattern(None, None)
    }

    /// `listFunctions` in `db_name`.
    pub fn list_functions_in_database(&self, db_name: &str) -> (op: CatalogOp)
        ensures
            op@ == (CatalogOpView::ListFunctions { db_name: Some(db_name@), pattern: None }),
    {
        self.list_functions_with_pattern(Some(db_name), None)
    }

    /// `getFunction`.
    pub fn get_function(&self, function_name: &str) -> (op: CatalogOp)
        ensures
            op@ == (CatalogOpView::GetFunction { function_name: function_name@, db_name: None }),
    {
        self.get_function_with_database(function_name, None)
    }

    /// `functionExists`.
    pub fn function_exists(&self, function_name: &str) -> (op: CatalogOp)
        ensures
            op@ == (CatalogOpView::FunctionExists { function_name: function_name@, db_name: None }),
    {
        self.function_exists_with_database(function_name, None)
    }

    /// `cacheTable` at the default storage level.
    pub fn cache_table(&self, table_name: &str) -> (op: CatalogOp)
        ensures
            op@ == (CatalogOpView::CacheTable { table_name: table_name@, storage_level: None }),
    {
        self.cache_table_with_storage_level(table_name, None)
    }

    /// The catalogs a `listCatalogs` answer lists, one per row, in order.
    pub fn list_catalogs_typed(&self, rows: &Vec<Row>) -> (r: Vec<CatalogMetadata>)
        ensures
            r@.len() == rows@.len(),
            forall|i: int| 0 <= i < rows@.len() ==> catalog_row(#[trigger] r@[i], rows@[i]),
    {
        let mut out: Vec<CatalogMetadata> = Vec::new();
        let mut i: usize = 0;
        while i < rows.len()
            invariant
                i <= rows@.len(),
                out@.len() == i,
                forall|j: int| 0 <= j < i ==> catalog_row(#[trigger] out@[j], rows@[j]),
            decreases rows@.len() - i,
        {
            out.push(parse_catalog(&rows[i]));
            i = i + 1;
        }
        out
    }

    /// The databases a `listDatabases` answer lists, one per row, in order.
    pub fn list_databases_typed(&self, rows: &Vec<Row>) -> (r: Vec<Database>)
        ensures
            r@.len() == rows@.len(),
            forall|i: int| 0 <= i < rows@.len() ==> database_row(#[trigger] r@[i], rows@[i]),
    {
        let mut out: Vec<Database> = Vec::new();
        let mut i: usize = 0;
        while i < rows.len()
            invariant
                i <= rows@.len(),
                out@.len() == i,
                forall|j: int| 0 <= j < i ==> database_row(#[trigger] out@[j], rows@[j]),
            decreases rows@.len() - i,
        {
            out.push(parse_database(&rows[i]));
            i = i + 1;
        }
        out
    }

    /// The tables a `listTables` answer lists, one per row, in order.
    pub fn list_tables_typed(&self, rows: &Vec<Row>) -> (r: Vec<Table>)
        ensures
            r@.len() == rows@.len(),
            forall|i: int| 0 <= i < rows@.len() ==> table_row(#[trigger] r@[i], rows@[i]),
    {
        let mut out: Vec<Table> = Vec::new();
        let mut i: usize = 0;
        while i < rows.len()
            invariant
                i <= rows@.len(),
                out@.len() == i,
                forall|j: int| 0 <= j < i ==> table_row(#[trigger] out@[j], rows@[j]),
            decreases rows@.len() - i,
        {
            out.push(parse_table(&rows[i]));
            i = i + 1;
        }
        out
    }

    /// The functions a `listFunctions` answer lists, one per row, in order.
    pub fn list_functions_typed(&self, rows: &Vec<Row>) -> (r: Vec<Function>)
        ensures
            r@.len() == rows@.len(),
            forall|i: int| 0 <= i < rows@.len() ==> function_row(#[trigger] r@[i], rows@[i]),
    {
        let mut out: Vec<Function> = Vec::new();
        let mut i: usize = 0;
        while i < rows.len()
            invariant
                i <= rows@.len(),
                out@.len() == i,
                forall|j: int| 0 <= j < i ==> function_row(#[trigger] out@[j], rows@[j]),
            decreases rows@.len() - i,
        {
            out.push(parse_function(&rows[i]));
            i = i + 1;
        }
        out
    }

    /// The columns a `listColumns` answer lists, one per row, in order.
    pub fn list_columns_typed(&self, rows: &Vec<Row>) -> (r: Vec<Column>)
        ensures
            r@.len() == rows@.len(),
            forall|i: int| 0 <= i < rows@.len() ==> column_row(#[trigger] r@[i], rows@[i]),
    {
        let mut out: Vec<Column> = Vec::new();
        let mut i: usize = 0;
        while i < rows.len()
            invariant
                i <= rows@.len(),
                out@.len() == i,
                forall|j: int| 0 <= j < i ==> column_row(#[trigger] out@[j], rows@[j]),
            decreases rows@.len() - i,
        {
            out.push(parse_column(&rows[i]));
            i = i + 1;
        }
        out
    }

    /// The partitions a `listPartitions` answer lists, one per row, in order.
    pub fn list_partitions_typed(&self, rows: &Vec<Row>) -> (r: Vec<TablePartition>)
        ensures
            r@.len() == rows@.len(),
            forall|i: int| 0 <= i < rows@.len() ==> partition_row(#[trigger] r@[i], rows@[i]),
    {
        let mut out: Vec<TablePartition> = Vec::new();
        let mut i: usize = 0;
        while i < rows.len()
            invariant
                i <= rows@.len(),
                out@.len() == i,
                forall|j: int| 0 <= j < i ==> partition_row(#[trigger] out@[j], rows@[j]),
            decreases rows@.len() - i,
        {
            out.push(parse_partition(&rows[i]));
            i = i + 1;
        }
        out
    }

    /// The views a `listViews` answer lists, one per row, in order.
    pub fn list_views_typed(&self, rows: &Vec<Row>) -> (r: Vec<Table>)
        ensures
            r@.len() == rows@.len(),
            forall|i: int| 0 <= i < rows@.len() ==> table_row(#[trigger] r@[i], rows@[i]),
    {
        let mut out: Vec<Table> = Vec::new();
        let mut i: usize = 0;
        while i < rows.len()
            invariant
                i <= rows@.len(),
                out@.len() == i,
                forall|j: int| 0 <= j < i ==> table_row(#[trigger] out@[j], rows@[j]),
            decreases rows@.len() - i,
        {
            out.push(parse_table(&rows[i]));
            i = i + 1;
        }
        out
    }

    /// What a `getDatabase` answer describes: its first row, which must exist.
    pub fn get_database_typed(&self, rows: &Vec<Row>) -> (r: Result<Database, ConnectError>)
        ensures
            rows@.len() > 0 ==> (r matches Ok(x) && database_row(x, rows@[0])),
            rows@.len() == 0 ==> (r matches Err(e) && e.message@ == "getDatabase returned no result"@),
    {
        if rows.len() == 0 {
            Err(ConnectError { message: owned("getDatabase returned no result") })
        } else {
            Ok(parse_database(&rows[0]))
        }
    }

    /// What a `getTable` answer describes: its first row, which must exist.
    pub fn get_table_typed(&self, rows: &Vec<Row>) -> (r: Result<Table, ConnectError>)
        ensures
            rows@.len() > 0 ==> (r matches Ok(x) && table_row(x, rows@[0])),
            rows@.len() == 0 ==> (r matches Err(e) && e.message@ == "getTable returned no result"@),
    {
        if rows.len() == 0 {
            Err(ConnectError { message: owned("getTable returned no result") })
        } else {
            Ok(parse_table(&rows[0]))
        }
    }

    /// What a `getFunction` answer describes: its first row, which must exist.
    pub fn get_function_typed(&self, rows: &Vec<Row>) -> (r: Result<Function, ConnectError>)
        ensures
            rows@.len() > 0 ==> (r matches Ok(x) && function_row(x, rows@[0])),
            rows@.len() == 0 ==> (r matches Err(e) && e.message@ == "getFunction returned no result"@),
    {
        if rows.len() == 0 {
            Err(ConnectError { message: owned("getFunction returned no result") })
        } else {
            Ok(parse_function(&rows[0]))
        }
    }

    /// The DataFrame of a catalog request: a plan that reads the catalog.
    pub fn as_dataframe(&self, op: CatalogOp) -> (df: DataFrame)
        ensures
            *df.plan == (LogicalPlan::Catalog { catalog: op }),
    {
        DataFrame::new(LogicalPlan::Catalog { catalog: op })
    }

    /// The root relation of a catalog request, without a plan id.
    pub fn request_relation(&self, op: CatalogOp) -> (r: Relation)
        ensures
            r@ == (RelationView { common: Some(RelationCommonView { plan_id: None }), rel_type: Some(RelTypeView::Catalog(op@)) }),
    {
        Relation { common: Some(RelationCommon { plan_id: None }), rel_type: Some(RelType::Catalog(op)) }
    }
}

} // verus!
