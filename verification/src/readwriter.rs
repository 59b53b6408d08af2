//! Readers and writers: the builders behind `spark.read`, `df.write` and
//! `df.writeTo`, the read plans they make and the write commands they send.

use vstd::prelude::*;
use std::rc::Rc;
use crate::column::Column;
use crate::dataframe::DataFrame;
use crate::expression::{copy_opt_string, copy_strings, expr_to_msg};
use crate::options::StringMap;
use crate::plan::{LogicalPlan, columns_to_msgs, plan_rel};
use crate::plan_ids::{PlanIdCounter, assign_plan_ids, assign_rel, count_rel};
use crate::proto;
use crate::proto::opt_string_view;
use crate::relation::Relation;
use crate::text::{owned, str_eq, strings_view};
use vstd::string::StrSliceExecFns;

verus! {

/// What a read reads: a data source (format, schema, options, paths,
/// predicates) or a named table.
#[derive(Debug)]
pub enum ReadType {
    DataSource {
        format: Option<String>,
        schema: Option<String>,
        options: StringMap,
        paths: Vec<String>,
        predicates: Vec<String>,
        source_name: Option<String>,
    },
    NamedTable { table_name: String, options: StringMap },
}

/// Save mode of a write operation.
#[derive(Debug, Clone, Copy, PartialEq, Eq, Structural)]
pub enum SaveMode {
    Append,
    Overwrite,
    ErrorIfExists,
    Ignore,
}

/// The wire code of each save mode.
pub open spec fn save_mode_code(m: SaveMode) -> i32 {
    match m {
        SaveMode::Append => 1,
        SaveMode::Overwrite => 2,
        SaveMode::ErrorIfExists => 3,
        SaveMode::Ignore => 4,
    }
}

/// The save mode a lower-case name denotes.
pub open spec fn save_mode_named(s: Seq<char>) -> Option<SaveMode> {
    if s == "append"@ {
        Some(SaveMode::Append)
    } else if s == "overwrite"@ {
        Some(SaveMode::Overwrite)
    } else if s == "error"@ || s == "errorifexists"@ {
        Some(SaveMode::ErrorIfExists)
    } else if s == "ignore"@ {
        Some(SaveMode::Ignore)
    } else {
        None
    }
}

/// What `str::to_lowercase` gives for a string.
pub uninterp spec fn lowercase(s: Seq<char>) -> Seq<char>;

/// Every character of `s` is ASCII.
pub open spec fn all_ascii(s: Seq<char>) -> bool {
    forall|i: int| 0 <= i < s.len() ==> (#[trigger] s[i] as int) < 128
}

/// The lower-case form of one ASCII character: `A`-`Z` become `a`-`z`.
pub open spec fn ascii_lower_char(c: char) -> char {
    if 'A' <= c && c <= 'Z' { ((c as int) + 32) as char } else { c }
}

/// The upper-case form of one ASCII character: `a`-`z` become `A`-`Z`.
pub open spec fn ascii_upper_char(c: char) -> char {
    if 'a' <= c && c <= 'z' { ((c as int) - 32) as char } else { c }
}

/// `s` with `A`-`Z` lowered and every other character kept.
pub open spec fn ascii_lower(s: Seq<char>) -> Seq<char> {
    s.map_values(|c: char| ascii_lower_char(c))
}

/// `s` with `a`-`z` raised and every other character kept.
pub open spec fn ascii_upper(s: Seq<char>) -> Seq<char> {
    s.map_values(|c: char| ascii_upper_char(c))
}

/// `str::to_lowercase`: the Unicode lower-case form of `s`; on ASCII text
/// that maps `A`-`Z` to `a`-`z` and keeps every other character.
#[verifier::external_body]
fn to_lowercase(s: &str) -> (r: String)
    ensures
        r@ == lowercase(s@),
        all_ascii(s@) ==> r@ == ascii_lower(s@),
{
    s.to_lowercase()
}

impl SaveMode {
    /// The wire code of this save mode.
    pub fn to_proto(&self) -> (code: i32)
        ensures
            code == save_mode_code(*self),
    {
        match self {
            SaveMode::Append => 1,
            SaveMode::Overwrite => 2,
            SaveMode::ErrorIfExists => 3,
            SaveMode::Ignore => 4,
        }
    }

    /// The save mode named by the lower-case text `s`: `append`,
    /// `overwrite`, `error` or `errorifexists`, `ignore`.
    pub fn from_lowercase(s: &str) -> (m: Option<SaveMode>)
        ensures
            m == save_mode_named(s@),
    {
        if str_eq(s, "append") {
            Some(SaveMode::Append)
        } else if str_eq(s, "overwrite") {
            Some(SaveMode::Overwrite)
        } else if str_eq(s, "error") || str_eq(s, "errorifexists") {
            Some(SaveMode::ErrorIfExists)
        } else if str_eq(s, "ignore") {
            Some(SaveMode::Ignore)
        } else {
            None
        }
    }

    /// The save mode named by `s`, in any letter case.
    pub fn from_str(s: &str) -> (m: Option<SaveMode>)
        ensures
            m == save_mode_named(lowercase(s@)),
            all_ascii(s@) ==> m == save_mode_named(ascii_lower(s@)),
    {
        let lower = to_lowercase(s);
        SaveMode::from_lowercase(lower.as_str())
    }
}

/// Save-mode names ignore letter case: raising the letters of an ASCII
/// text does not change the save mode it names (`from_str` names the mode of
/// `ascii_lower` of an ASCII text).
pub proof fn law_save_mode_ignores_case(s: Seq<char>)
    requires
        all_ascii(s),
    ensures
        all_ascii(ascii_upper(s)),
        save_mode_named(ascii_lower(ascii_upper(s))) == save_mode_named(ascii_lower(s)),
{
    assert forall|i: int| 0 <= i < s.len() implies (#[trigger] ascii_upper(s)[i] as int) < 128 by {
        assert((s[i] as int) < 128);
    }
    assert(ascii_lower(ascii_upper(s)) =~= ascii_lower(s));
}

/// Save modes go on the wire with the protocol's codes: append 1, overwrite
/// 2, error-if-exists 3, ignore 4; so the lower-case names `append`,
/// `overwrite`, `error`, `errorifexists` and `ignore` send exactly those
/// codes, and the four codes are distinct.
pub proof fn law_save_mode_wire_codes(s: Seq<char>)
    ensures
        save_mode_code(SaveMode::Append) == 1,
        save_mode_code(SaveMode::Overwrite) == 2,
        save_mode_code(SaveMode::ErrorIfExists) == 3,
        save_mode_code(SaveMode::Ignore) == 4,
        s == "append"@ ==> save_mode_named(s) == Some(SaveMode::Append),
        s == "overwrite"@ ==> save_mode_named(s) == Some(SaveMode::Overwrite),
        s == "error"@ || s == "errorifexists"@ ==> save_mode_named(s) == Some(SaveMode::ErrorIfExists),
        s == "ignore"@ ==> save_mode_named(s) == Some(SaveMode::Ignore),
{
    reveal_strlit("append");
    reveal_strlit("overwrite");
    reveal_strlit("error");
    reveal_strlit("errorifexists");
    reveal_strlit("ignore");
    assert("overwrite"@ != "append"@ && "error"@ != "append"@ && "error"@ != "overwrite"@) by {
        assert("overwrite"@.len() != "append"@.len() && "error"@.len() != "append"@.len());
        assert("error"@.len() != "overwrite"@.len());
    }
    assert("errorifexists"@ != "append"@ && "errorifexists"@ != "overwrite"@) by {
        assert("errorifexists"@.len() != "append"@.len() && "errorifexists"@.len() != "overwrite"@.len());
    }
    assert("ignore"@ != "append"@ && "ignore"@ != "overwrite"@ && "ignore"@ != "error"@ && "ignore"@ != "errorifexists"@) by {
        assert("ignore"@[0] != "append"@[0]);
        assert("ignore"@.len() != "overwrite"@.len() && "ignore"@.len() != "error"@.len());
        assert("ignore"@.len() != "errorifexists"@.len());
    }
}

/// How a write to a table saves.
#[derive(Debug, Clone, Copy, PartialEq, Eq, Structural)]
pub enum TableSaveMethod {
    SaveAsTable,
    InsertInto,
}

/// The wire code of each table save method.
pub open spec fn table_save_code(m: TableSaveMethod) -> i32 {
    match m {
        TableSaveMethod::SaveAsTable => 1,
        TableSaveMethod::InsertInto => 2,
    }
}

/// Table writes go on the wire with the protocol's codes: save-as-table 1,
/// insert-into 2.
pub proof fn law_table_save_wire_codes()
    ensures
        table_save_code(TableSaveMethod::SaveAsTable) == 1,
        table_save_code(TableSaveMethod::InsertInto) == 2,
{
}

impl TableSaveMethod {
    /// The wire code of this save method.
    pub fn to_proto(&self) -> (code: i32)
        ensures
            code == table_save_code(*self),
    {
        match self {
            TableSaveMethod::SaveAsTable => 1,
            TableSaveMethod::InsertInto => 2,
        }
    }
}

// ---------------------------------------------------------------------------
// Reading
// ---------------------------------------------------------------------------

/// A reader: the format, schema and options of a read being set up.
#[derive(Debug)]
pub struct DataFrameReader {
    pub format: Option<String>,
    pub schema: String,
    pub options: StringMap,
}

/// A single path as a list, or no paths.
fn path_list(path: Option<&str>) -> (r: Vec<String>)
    ensures
        strings_view(r@) == match path {
            Some(p) => seq![p@],
            None => Seq::empty(),
        },
{
    let mut r: Vec<String> = Vec::new();
    match path {
        Some(p) => {
            r.push(owned(p));
        },
        None => {},
    }
    assert(strings_view(r@) =~= match path {
        Some(p) => seq![p@],
        None => Seq::<Seq<char>>::empty(),
    });
    r
}

/// `p` is a batch read of a data source with exactly these settings and no
/// source name.
pub open spec fn is_source_read(
    p: LogicalPlan,
    format: Option<Seq<char>>,
    schema: Option<Seq<char>>,
    options: Map<Seq<char>, Seq<char>>,
    paths: Seq<Seq<char>>,
    predicates: Seq<Seq<char>>,
) -> bool {
    match p {
        LogicalPlan::Read { read_type: ReadType::DataSource { format: f, schema: s, options: o, paths: ps, predicates: pr, source_name }, is_streaming } =>
            !is_streaming && opt_string_view(f) == format && opt_string_view(s) == schema && o@ == options
                && strings_view(ps@) == paths && strings_view(pr@) == predicates && source_name is None,
        _ => false,
    }
}

/// `p` is a batch read of the table `name` with these options.
pub open spec fn is_table_read(p: LogicalPlan, name: Seq<char>, options: Map<Seq<char>, Seq<char>>) -> bool {
    match p {
        LogicalPlan::Read { read_type: ReadType::NamedTable { table_name, options: o }, is_streaming } =>
            !is_streaming && table_name@ == name && o@ == options,
        _ => false,
    }
}

/// The schema a reader sends: none when its schema text is empty.
pub open spec fn reader_schema(r: DataFrameReader) -> Option<Seq<char>> {
    if r.schema@.len() == 0 { None } else { Some(r.schema@) }
}

impl DataFrameReader {
    /// A reader with no format, an empty schema and no options.
    pub fn new() -> (r: DataFrameReader)
        ensures
            r.format is None,
            r.schema@.len() == 0,
            r.options@ == Map::<Seq<char>, Seq<char>>::empty(),
    {
        DataFrameReader { format: None, schema: String::new(), options: StringMap::new() }
    }

    /// Sets the source format (`json`, `parquet`, `csv`, ...).
    pub fn format(self, source: &str) -> (r: DataFrameReader)
        ensures
            r.format matches Some(f) && f@ == source@,
            r.schema == self.schema,
            r.options == self.options,
    {
        DataFrameReader { format: Some(owned(source)), ..self }
    }

    /// Sets the schema, as a DDL or JSON string.
    pub fn schema(self, schema: String) -> (r: DataFrameReader)
        ensures
            r.format == self.format,
            r.schema == schema,
            r.options == self.options,
    {
        DataFrameReader { schema, ..self }
    }

    /// Sets the option `key` to `value`.
    pub fn option(self, key: &str, value: &str) -> (r: DataFrameReader)
        ensures
            r.format == self.format,
            r.schema == self.schema,
            r.options@ == self.options@.insert(key@, value@),
    {
        let mut options = self.options;
        options.insert(owned(key), owned(value));
        DataFrameReader { format: self.format, schema: self.schema, options }
    }

    /// Sets several options; the new values win.
    pub fn options(self, options: StringMap) -> (r: DataFrameReader)
        ensures
            r.format == self.format,
            r.schema == self.schema,
            r.options@ == self.options@.union_prefer_right(options@),
    {
        let mut opts = self.options;
        opts.extend(options);
        DataFrameReader { format: self.format, schema: self.schema, options: opts }
    }

    /// The plan of a data-source read of `paths` (with `predicates`), with this
    /// reader's format, options, and schema when it is not empty.
    fn source_plan(&self, paths: Vec<String>, predicates: Vec<String>) -> (p: LogicalPlan)
        ensures
            is_source_read(p, opt_string_view(self.format), reader_schema(*self), self.options@,
                strings_view(paths@), strings_view(predicates@)),
    {
        let schema = if self.schema.as_str().unicode_len() == 0 { None } else { Some(self.schema.clone()) };
        LogicalPlan::Read {
            read_type: ReadType::DataSource {
                format: copy_opt_string(&self.format),
                schema,
                options: self.options.copy(),
                paths,
                predicates,
                source_name: None,
            },
            is_streaming: false,
        }
    }

    /// Loads `path` (or the source without a path) as configured.
    pub fn load(self, path: Option<&str>) -> (df: DataFrame)
        ensures
            is_source_read(*df.plan, opt_string_view(self.format), reader_schema(self), self.options@,
                match path {
                    Some(p) => seq![p@],
                    None => Seq::empty(),
                },
                Seq::empty()),
    {
        let paths = path_list(path);
        let preds: Vec<String> = Vec::new();
        assert(strings_view(preds@) =~= Seq::<Seq<char>>::empty());
        DataFrame::new(self.source_plan(paths, preds))
    }

    /// Reads the table `table_name`, with this reader's options.
    pub fn table(self, table_name: &str) -> (df: DataFrame)
        ensures
            is_table_read(*df.plan, table_name@, self.options@),
    {
        DataFrame::new(LogicalPlan::Read {
            read_type: ReadType::NamedTable { table_name: owned(table_name), options: self.options },
            is_streaming: false,
        })
    }

    /// Loads `path` with the format set to `format`.
    fn load_as(self, format: &str, path: &str) -> (df: DataFrame)
        ensures
            is_source_read(*df.plan, Some(format@), reader_schema(self), self.options@, seq![path@], Seq::empty()),
    {
        let reader = self.format(format);
        reader.load(Some(path))
    }

    /// Reads JSON at `path`.
    pub fn json(self, path: &str) -> (df: DataFrame)
        ensures
            is_source_read(*df.plan, Some("json"@), reader_schema(self), self.options@, seq![path@], Seq::empty()),
    {
        self.load_as("json", path)
    }

    /// Reads Parquet at `path`.
    pub fn parquet(self, path: &str) -> (df: DataFrame)
        ensures
            is_source_read(*df.plan, Some("parquet"@), reader_schema(self), self.options@, seq![path@], Seq::empty()),
    {
        self.load_as("parquet", path)
    }

    /// Reads CSV at `path`.
    pub fn csv(self, path: &str) -> (df: DataFrame)
        ensures
            is_source_read(*df.plan, Some("csv"@), reader_schema(self), self.options@, seq![path@], Seq::empty()),
    {
        self.load_as("csv", path)
    }

    /// Reads ORC at `path`.
    pub fn orc(self, path: &str) -> (df: DataFrame)
        ensures
            is_source_read(*df.plan, Some("orc"@), reader_schema(self), self.options@, seq![path@], Seq::empty()),
    {
        self.load_as("orc", path)
    }

    /// Reads text at `path`.
    pub fn text(self, path: &str) -> (df: DataFrame)
        ensures
            is_source_read(*df.plan, Some("text"@), reader_schema(self), self.options@, seq![path@], Seq::empty()),
    {
        self.load_as("text", path)
    }

    /// Reads XML at `path`.
    pub fn xml(self, path: &str) -> (df: DataFrame)
        ensures
            is_source_read(*df.plan, Some("xml"@), reader_schema(self), self.options@, seq![path@], Seq::empty()),
    {
        self.load_as("xml", path)
    }

    /// Reads the table `table` over JDBC at `url`: the format is `jdbc`, the
    /// options gain `url` and `dbtable`, and `predicates` partition the read.
    pub fn jdbc(self, url: &str, table: &str, predicates: Option<Vec<String>>) -> (df: DataFrame)
        ensures
            is_source_read(*df.plan, Some("jdbc"@), reader_schema(self),
                self.options@.insert("url"@, url@).insert("dbtable"@, table@), Seq::empty(),
                match predicates {
                    Some(p) => strings_view(p@),
                    None => Seq::empty(),
                }),
    {
        let reader = self.format("jdbc").option("url", url).option("dbtable", table);
        let preds = match predicates {
            Some(p) => p,
            None => Vec::new(),
        };
        let paths: Vec<String> = Vec::new();
        assert(strings_view(paths@) =~= Seq::<Seq<char>>::empty());
        assert(strings_view(preds@) =~= match predicates {
            Some(p) => strings_view(p@),
            None => Seq::<Seq<char>>::empty(),
        });
        DataFrame::new(reader.source_plan(paths, preds))
    }
}

// ---------------------------------------------------------------------------
// Writing
// ---------------------------------------------------------------------------

/// Where a write saves: a path or a table.
#[derive(Debug)]
pub enum SaveType {
    Path(String),
    Table { table_name: String, save_method: i32 },
}

/// The bucketing of a write.
#[derive(Debug)]
pub struct BucketBy {
    pub num_buckets: i32,
    pub bucket_column_names: Vec<String>,
}

/// `spark.connect.WriteOperation`.
#[derive(Debug)]
pub struct WriteOperation {
    pub input: Relation,
    pub source: Option<String>,
    pub mode: i32,
    pub sort_column_names: Vec<String>,
    pub partitioning_columns: Vec<String>,
    pub clustering_columns: Vec<String>,
    pub options: Vec<(String, String)>,
    pub save_type: Option<SaveType>,
    pub bucket_by: Option<BucketBy>,
}

/// `op` carries what the writer `w` set, apart from the source and the save
/// type: its input is the plan's relation numbered from `start` (the next
/// free id after it is `end`), its mode, columns, options and bucketing.
pub open spec fn write_op_body(w: DataFrameWriter, op: WriteOperation, start: int, end: int) -> bool {
    &&& assign_rel(plan_rel(*w.input_plan), start) == (op.input@, end)
    &&& op.mode == save_mode_code(w.mode)
    &&& strings_view(op.sort_column_names@) == strings_view(w.sort_cols@)
    &&& strings_view(op.partitioning_columns@) == strings_view(w.partition_cols@)
    &&& strings_view(op.clustering_columns@) == strings_view(w.cluster_cols@)
    &&& crate::options::pairs_view(op.options@) == w.options.entries_view()
    &&& match w.num_buckets {
        Some(n) => op.bucket_by matches Some(b) && b.num_buckets == n
            && strings_view(b.bucket_column_names@) == strings_view(w.bucket_cols@),
        None => op.bucket_by is None,
    }
}

/// `op` carries what the v2 writer `w` set, apart from the mode and the
/// overwrite condition: its input is the plan's relation numbered from
/// `start` (the next free id after it is `end`), the table, provider,
/// columns, options and properties.
pub open spec fn write_op_v2_body(w: DataFrameWriterV2, op: WriteOperationV2, start: int, end: int) -> bool {
    &&& assign_rel(plan_rel(*w.input_plan), start) == (op.input@, end)
    &&& op.table_name@ == w.table_name@
    &&& opt_string_view(op.provider) == opt_string_view(w.provider)
    &&& proto::expr_msgs_view(op.partitioning_columns@) == columns_to_msgs(w.partition_cols@)
    &&& strings_view(op.clustering_columns@) == strings_view(w.cluster_cols@)
    &&& crate::options::pairs_view(op.options@) == w.options.entries_view()
    &&& crate::options::pairs_view(op.table_properties@) == w.table_properties.entries_view()
}

/// A writer: how and where a DataFrame's rows are to be written.
#[derive(Debug)]
pub struct DataFrameWriter {
    pub input_plan: Rc<LogicalPlan>,
    pub format: Option<String>,
    pub mode: SaveMode,
    pub options: StringMap,
    pub partition_cols: Vec<String>,
    pub cluster_cols: Vec<String>,
    pub bucket_cols: Vec<String>,
    pub sort_cols: Vec<String>,
    pub num_buckets: Option<i32>,
}

impl DataFrameWriter {
    /// A writer of `df` with no format, mode `ErrorIfExists`, no options,
    /// partitioning, clustering, bucketing or sorting.
    pub fn new(df: &DataFrame) -> (w: DataFrameWriter)
        ensures
            w.input_plan == df.plan,
            w.format is None,
            w.mode == SaveMode::ErrorIfExists,
            w.options@ == Map::<Seq<char>, Seq<char>>::empty(),
            w.partition_cols@.len() == 0,
            w.cluster_cols@.len() == 0,
            w.bucket_cols@.len() == 0,
            w.sort_cols@.len() == 0,
            w.num_buckets is None,
    {
        DataFrameWriter {
            input_plan: df.plan.clone(),
            format: None,
            mode: SaveMode::ErrorIfExists,
            options: StringMap::new(),
            partition_cols: Vec::new(),
            cluster_cols: Vec::new(),
            bucket_cols: Vec::new(),
            sort_cols: Vec::new(),
            num_buckets: None,
        }
    }

    /// Clusters the output by `cols`.
    pub fn cluster_by(self, cols: Vec<String>) -> (w: DataFrameWriter)
        ensures
            w == (DataFrameWriter { cluster_cols: cols, ..self }),
    {
        DataFrameWriter { cluster_cols: cols, ..self }
    }

    /// Sets the save mode from its name, in any letter case; an unknown name
    /// leaves the mode as it was.
    pub fn mode(self, mode: &str) -> (w: DataFrameWriter)
        ensures
            w == (DataFrameWriter {
                mode: match save_mode_named(lowercase(mode@)) {
                    Some(m) => m,
                    None => self.mode,
                },
                ..self
            }),
    {
        match SaveMode::from_str(mode) {
            Some(m) => DataFrameWriter { mode: m, ..self },
            None => self,
        }
    }

    /// Sets the output format.
    pub fn format(self, source: &str) -> (w: DataFrameWriter)
        ensures
            w.format matches Some(f) && f@ == source@,
            w == (DataFrameWriter { format: w.format, ..self }),
    {
        DataFrameWriter { format: Some(owned(source)), ..self }
    }

    /// Sets the option `key` to `value`.
    pub fn option(self, key: &str, value: &str) -> (w: DataFrameWriter)
        ensures
            w.options@ == self.options@.insert(key@, value@),
            w == (DataFrameWriter { options: w.options, ..self }),
    {
        let mut options = self.options;
        options.insert(owned(key), owned(value));
        DataFrameWriter { options, ..self }
    }

    /// Sets several options; the new values win.
    pub fn options(self, options: StringMap) -> (w: DataFrameWriter)
        ensures
            w.options@ == self.options@.union_prefer_right(options@),
            w == (DataFrameWriter { options: w.options, ..self }),
    {
        let mut opts = self.options;
        opts.extend(options);
        DataFrameWriter { options: opts, ..self }
    }

    /// Partitions the output by `cols`.
    pub fn partition_by(self, cols: Vec<String>) -> (w: DataFrameWriter)
        ensures
            w == (DataFrameWriter { partition_cols: cols, ..self }),
    {
        DataFrameWriter { partition_cols: cols, ..self }
    }

    /// Buckets the output into `num_buckets` buckets by `cols`.
    pub fn bucket_by(self, num_buckets: i32, cols: Vec<String>) -> (w: DataFrameWriter)
        ensures
            w == (DataFrameWriter { num_buckets: Some(num_buckets), bucket_cols: cols, ..self }),
    {
        DataFrameWriter { num_buckets: Some(num_buckets), bucket_cols: cols, ..self }
    }

    /// Sorts each bucket by `cols`.
    pub fn sort_by(self, cols: Vec<String>) -> (w: DataFrameWriter)
        ensures
            w == (DataFrameWriter { sort_cols: cols, ..self }),
    {
        DataFrameWriter { sort_cols: cols, ..self }
    }

    /// The write command for this writer, saving as `save_type`: the input
    /// is the plan's relation with its nodes numbered from `counter`.
    pub fn build_write_operation(&self, save_type: Option<SaveType>, counter: &mut PlanIdCounter) -> (op: WriteOperation)
        requires
            old(counter).next + count_rel(plan_rel(*self.input_plan)) <= i64::MAX,
        ensures
            write_op_body(*self, op, old(counter).next as int, final(counter).next as int),
            opt_string_view(op.source) == opt_string_view(self.format),
            op.save_type == save_type,
    {
        let mut input = self.input_plan.to_proto();
        assign_plan_ids(&mut input, counter);
        let bucket_by = match self.num_buckets {
            Some(n) => Some(BucketBy { num_buckets: n, bucket_column_names: copy_strings(&self.bucket_cols) }),
            None => None,
        };
        WriteOperation {
            input,
            source: copy_opt_string(&self.format),
            mode: self.mode.to_proto(),
            sort_column_names: copy_strings(&self.sort_cols),
            partitioning_columns: copy_strings(&self.partition_cols),
            clustering_columns: copy_strings(&self.cluster_cols),
            options: self.options.to_pairs(),
            save_type,
            bucket_by,
        }
    }

    /// The save type of a write to the table `table_name` by `method`.
    pub fn table_save_type(table_name: &str, method: TableSaveMethod) -> (s: SaveType)
        ensures
            s matches SaveType::Table { table_name: t, save_method } && t@ == table_name@
                && save_method == table_save_code(method),
    {
        SaveType::Table { table_name: owned(table_name), save_method: method.to_proto() }
    }

    /// The save type of a write to `path`, if there is one.
    pub fn path_save_type(path: Option<&str>) -> (s: Option<SaveType>)
        ensures
            match path {
                Some(p) => s matches Some(SaveType::Path(q)) && q@ == p@,
                None => s is None,
            },
    {
        match path {
            Some(p) => Some(SaveType::Path(owned(p))),
            None => None,
        }
    }

    /// The command that saves to `path` (or to where the options say).
    pub fn save(self, path: Option<&str>, counter: &mut PlanIdCounter) -> (op: WriteOperation)
        requires
            old(counter).next + count_rel(plan_rel(*self.input_plan)) <= i64::MAX,
        ensures
            write_op_body(self, op, old(counter).next as int, final(counter).next as int),
            opt_string_view(op.source) == opt_string_view(self.format),
            match path {
                Some(p) => op.save_type matches Some(SaveType::Path(q)) && q@ == p@,
                None => op.save_type is None,
            },
    {
        let save_type = DataFrameWriter::path_save_type(path);
        self.build_write_operation(save_type, counter)
    }

    fn save_table(self, table_name: &str, method: TableSaveMethod, counter: &mut PlanIdCounter) -> (op: WriteOperation)
        requires
            old(counter).next + count_rel(plan_rel(*self.input_plan)) <= i64::MAX,
        ensures
            write_op_body(self, op, old(counter).next as int, final(counter).next as int),
            opt_string_view(op.source) == opt_string_view(self.format),
            op.save_type matches Some(SaveType::Table { table_name: t, save_method })
                && t@ == table_name@ && save_method == table_save_code(method),
    {
        let save_type = DataFrameWriter::table_save_type(table_name, method);
        self.build_write_operation(Some(save_type), counter)
    }

    /// The command that saves as the managed table `table_name`.
    pub fn save_as_table(self, table_name: &str, counter: &mut PlanIdCounter) -> (op: WriteOperation)
        requires
            old(counter).next + count_rel(plan_rel(*self.input_plan)) <= i64::MAX,
        ensures
            write_op_body(self, op, old(counter).next as int, final(counter).next as int),
            opt_string_view(op.source) == opt_string_view(self.format),
            op.save_type matches Some(SaveType::Table { table_name: t, save_method })
                && t@ == table_name@ && save_method == table_save_code(TableSaveMethod::SaveAsTable),
    {
        self.save_table(table_name, TableSaveMethod::SaveAsTable, counter)
    }

    /// The command that inserts into the existing table `table_name`.
    pub fn insert_into(self, table_name: &str, counter: &mut PlanIdCounter) -> (op: WriteOperation)
        requires
            old(counter).next + count_rel(plan_rel(*self.input_plan)) <= i64::MAX,
        ensures
            write_op_body(self, op, old(counter).next as int, final(counter).next as int),
            opt_string_view(op.source) == opt_string_view(self.format),
            op.save_type matches Some(SaveType::Table { table_name: t, save_method })
                && t@ == table_name@ && save_method == table_save_code(TableSaveMethod::InsertInto),
    {
        self.save_table(table_name, TableSaveMethod::InsertInto, counter)
    }

    fn save_as(self, source: &str, path: &str, counter: &mut PlanIdCounter) -> (op: WriteOperation)
        requires
            old(counter).next + count_rel(plan_rel(*self.input_plan)) <= i64::MAX,
        ensures
            write_op_body(self, op, old(counter).next as int, final(counter).next as int),
            opt_string_view(op.source) == Some(source@),
            op.save_type matches Some(SaveType::Path(q)) && q@ == path@,
    {
        let mut op = self.save(Some(path), counter);
        op.source = Some(owned(source));
        op
    }

    /// The command that saves to `path` in the `json` format.
    pub fn json(self, path: &str, counter: &mut PlanIdCounter) -> (op: WriteOperation)
        requires
            old(counter).next + count_rel(plan_rel(*self.input_plan)) <= i64::MAX,
        ensures
            write_op_body(self, op, old(counter).next as int, final(counter).next as int),
            opt_string_view(op.source) == Some("json"@),
            op.save_type matches Some(SaveType::Path(q)) && q@ == path@,
    {
        self.save_as("json", path, counter)
    }

    /// The command that saves to `path` in the `parquet` format.
    pub fn parquet(self, path: &str, counter: &mut PlanIdCounter) -> (op: WriteOperation)
        requires
            old(counter).next + count_rel(plan_rel(*self.input_plan)) <= i64::MAX,
        ensures
            write_op_body(self, op, old(counter).next as int, final(counter).next as int),
            opt_string_view(op.source) == Some("parquet"@),
            op.save_type matches Some(SaveType::Path(q)) && q@ == path@,
    {
        self.save_as("parquet", path, counter)
    }

    /// The command that saves to `path` in the `csv` format.
    pub fn csv(self, path: &str, counter: &mut PlanIdCounter) -> (op: WriteOperation)
        requires
            old(counter).next + count_rel(plan_rel(*self.input_plan)) <= i64::MAX,
        ensures
            write_op_body(self, op, old(counter).next as int, final(counter).next as int),
            opt_string_view(op.source) == Some("csv"@),
            op.save_type matches Some(SaveType::Path(q)) && q@ == path@,
    {
        self.save_as("csv", path, counter)
    }

    /// The command that saves to `path` in the `orc` format.
    pub fn orc(self, path: &str, counter: &mut PlanIdCounter) -> (op: WriteOperation)
        requires
            old(counter).next + count_rel(plan_rel(*self.input_plan)) <= i64::MAX,
        ensures
            write_op_body(self, op, old(counter).next as int, final(counter).next as int),
            opt_string_view(op.source) == Some("orc"@),
            op.save_type matches Some(SaveType::Path(q)) && q@ == path@,
    {
        self.save_as("orc", path, counter)
    }

    /// The command that saves to `path` in the `text` format.
    pub fn text(self, path: &str, counter: &mut PlanIdCounter) -> (op: WriteOperation)
        requires
            old(counter).next + count_rel(plan_rel(*self.input_plan)) <= i64::MAX,
        ensures
            write_op_body(self, op, old(counter).next as int, final(counter).next as int),
            opt_string_view(op.source) == Some("text"@),
            op.save_type matches Some(SaveType::Path(q)) && q@ == path@,
    {
        self.save_as("text", path, counter)
    }

    /// The command that saves to `path` in the `xml` format.
    pub fn xml(self, path: &str, counter: &mut PlanIdCounter) -> (op: WriteOperation)
        requires
            old(counter).next + count_rel(plan_rel(*self.input_plan)) <= i64::MAX,
        ensures
            write_op_body(self, op, old(counter).next as int, final(counter).next as int),
            opt_string_view(op.source) == Some("xml"@),
            op.save_type matches Some(SaveType::Path(q)) && q@ == path@,
    {
        self.save_as("xml", path, counter)
    }
}

/// `spark.connect.WriteOperationV2`.
#[derive(Debug)]
pub struct WriteOperationV2 {
    pub input: Relation,
    pub table_name: String,
    pub provider: Option<String>,
    pub partitioning_columns: Vec<proto::Expression>,
    pub clustering_columns: Vec<String>,
    pub options: Vec<(String, String)>,
    pub table_properties: Vec<(String, String)>,
    pub mode: i32,
    pub overwrite_condition: Option<proto::Expression>,
}

/// The modes of a v2 write.
#[derive(Debug, Clone, Copy, PartialEq, Eq, Structural)]
pub enum WriteModeV2 {
    Create,
    Overwrite,
    OverwritePartitions,
    Append,
    Replace,
    CreateOrReplace,
}

/// The wire code of each v2 write mode.
pub open spec fn write_mode_v2_code(m: WriteModeV2) -> i32 {
    match m {
        WriteModeV2::Create => 1,
        WriteModeV2::Overwrite => 2,
        WriteModeV2::OverwritePartitions => 3,
        WriteModeV2::Append => 4,
        WriteModeV2::Replace => 5,
        WriteModeV2::CreateOrReplace => 6,
    }
}

/// Version-two write modes go on the wire with the protocol's codes: create
/// 1, overwrite 2, overwrite partitions 3, append 4, replace 5, create or
/// replace 6.
pub proof fn law_write_mode_v2_wire_codes()
    ensures
        write_mode_v2_code(WriteModeV2::Create) == 1,
        write_mode_v2_code(WriteModeV2::Overwrite) == 2,
        write_mode_v2_code(WriteModeV2::OverwritePartitions) == 3,
        write_mode_v2_code(WriteModeV2::Append) == 4,
        write_mode_v2_code(WriteModeV2::Replace) == 5,
        write_mode_v2_code(WriteModeV2::CreateOrReplace) == 6,
{
}

impl WriteModeV2 {
    /// The wire code of this mode.
    pub fn to_proto(&self) -> (code: i32)
        ensures
            code == write_mode_v2_code(*self),
    {
        match self {
            WriteModeV2::Create => 1,
            WriteModeV2::Overwrite => 2,
            WriteModeV2::OverwritePartitions => 3,
            WriteModeV2::Append => 4,
            WriteModeV2::Replace => 5,
            WriteModeV2::CreateOrReplace => 6,
        }
    }
}

/// A v2 writer: a write to the table `table_name`.
#[derive(Debug)]
pub struct DataFrameWriterV2 {
    pub input_plan: Rc<LogicalPlan>,
    pub table_name: String,
    pub provider: Option<String>,
    pub options: StringMap,
    pub table_properties: StringMap,
    pub partition_cols: Vec<Column>,
    pub cluster_cols: Vec<String>,
}

fn columns_to_proto(v: &Vec<Column>) -> (r: Vec<proto::Expression>)
    ensures
        proto::expr_msgs_view(r@) == columns_to_msgs(v@),
{
    let mut r: Vec<proto::Expression> = Vec::new();
    let mut i: usize = 0;
    while i < v.len()
        invariant
            i <= v.len(),
            r@.len() == i,
            forall|j: int| 0 <= j < i ==> #[trigger] r@[j]@ == expr_to_msg(v@[j].expr),
        decreases v.len() - i,
    {
        r.push(v[i].to_proto());
        i = i + 1;
    }
    assert forall|j: int| 0 <= j < r@.len() implies #[trigger] proto::expr_msgs_view(r@)[j] == columns_to_msgs(v@)[j] by {
        assert(r@[j]@ == expr_to_msg(v@[j].expr));
    }
    assert(proto::expr_msgs_view(r@) =~= columns_to_msgs(v@));
    r
}

impl DataFrameWriterV2 {
    /// A v2 writer of `df` to `table_name`, with nothing else set.
    pub fn new(df: &DataFrame, table_name: &str) -> (w: DataFrameWriterV2)
        ensures
            w.input_plan == df.plan,
            w.table_name@ == table_name@,
            w.provider is None,
            w.options@ == Map::<Seq<char>, Seq<char>>::empty(),
            w.table_properties@ == Map::<Seq<char>, Seq<char>>::empty(),
            w.partition_cols@.len() == 0,
            w.cluster_cols@.len() == 0,
    {
        DataFrameWriterV2 {
            input_plan: df.plan.clone(),
            table_name: owned(table_name),
            provider: None,
            options: StringMap::new(),
            table_properties: StringMap::new(),
            partition_cols: Vec::new(),
            cluster_cols: Vec::new(),
        }
    }

    /// Clusters the table by `cols`.
    pub fn cluster_by(self, cols: Vec<String>) -> (w: DataFrameWriterV2)
        ensures
            w == (DataFrameWriterV2 { cluster_cols: cols, ..self }),
    {
        DataFrameWriterV2 { cluster_cols: cols, ..self }
    }

    /// Sets the table's provider.
    pub fn using(self, provider: &str) -> (w: DataFrameWriterV2)
        ensures
            w.provider matches Some(p) && p@ == provider@,
            w == (DataFrameWriterV2 { provider: w.provider, ..self }),
    {
        DataFrameWriterV2 { provider: Some(owned(provider)), ..self }
    }

    /// Sets the write option `key` to `value`.
    pub fn option(self, key: &str, value: &str) -> (w: DataFrameWriterV2)
        ensures
            w.options@ == self.options@.insert(key@, value@),
            w == (DataFrameWriterV2 { options: w.options, ..self }),
    {
        let mut options = self.options;
        options.insert(owned(key), owned(value));
        DataFrameWriterV2 { options, ..self }
    }

    /// Sets several write options; the new values win.
    pub fn options(self, options: StringMap) -> (w: DataFrameWriterV2)
        ensures
            w.options@ == self.options@.union_prefer_right(options@),
            w == (DataFrameWriterV2 { options: w.options, ..self }),
    {
        let mut opts = self.options;
        opts.extend(options);
        DataFrameWriterV2 { options: opts, ..self }
    }

    /// Sets the table property `property` to `value`.
    pub fn table_property(self, property: &str, value: &str) -> (w: DataFrameWriterV2)
        ensures
            w.table_properties@ == self.table_properties@.insert(property@, value@),
            w == (DataFrameWriterV2 { table_properties: w.table_properties, ..self }),
    {
        let mut props = self.table_properties;
        props.insert(owned(property), owned(value));
        DataFrameWriterV2 { table_properties: props, ..self }
    }

    /// Partitions the table by `columns`.
    pub fn partition_by(self, columns: Vec<Column>) -> (w: DataFrameWriterV2)
        ensures
            w == (DataFrameWriterV2 { partition_cols: columns, ..self }),
    {
        DataFrameWriterV2 { partition_cols: columns, ..self }
    }

    /// The v2 write command in `mode`, with an optional overwrite condition:
    /// the input is the plan's relation with its nodes numbered from `counter`.
    pub fn build_operation(&self, mode: WriteModeV2, overwrite_condition: Option<Column>, counter: &mut PlanIdCounter) -> (op: WriteOperationV2)
        requires
            old(counter).next + count_rel(plan_rel(*self.input_plan)) <= i64::MAX,
        ensures
            write_op_v2_body(*self, op, old(counter).next as int, final(counter).next as int),
            op.mode == write_mode_v2_code(mode),
            match overwrite_condition {
                Some(c) => op.overwrite_condition matches Some(e) && e@ == expr_to_msg(c.expr),
                None => op.overwrite_condition is None,
            },
    {
        let mut input = self.input_plan.to_proto();
        assign_plan_ids(&mut input, counter);
        let cond = match overwrite_condition {
            Some(c) => Some(c.to_proto()),
            None => None,
        };
        WriteOperationV2 {
            input,
            table_name: self.table_name.clone(),
            provider: copy_opt_string(&self.provider),
            partitioning_columns: columns_to_proto(&self.partition_cols),
            clustering_columns: copy_strings(&self.cluster_cols),
            options: self.options.to_pairs(),
            table_properties: self.table_properties.to_pairs(),
            mode: mode.to_proto(),
            overwrite_condition: cond,
        }
    }

    /// The command that creates the table.
    pub fn create(self, counter: &mut PlanIdCounter) -> (op: WriteOperationV2)
        requires
            old(counter).next + count_rel(plan_rel(*self.input_plan)) <= i64::MAX,
        ensures
            write_op_v2_body(self, op, old(counter).next as int, final(counter).next as int),
            op.mode == write_mode_v2_code(WriteModeV2::Create),
            op.overwrite_condition is None,
    {
        self.build_operation(WriteModeV2::Create, None, counter)
    }

    /// The command that replaces the table.
    pub fn replace(self, counter: &mut PlanIdCounter) -> (op: WriteOperationV2)
        requires
            old(counter).next + count_rel(plan_rel(*self.input_plan)) <= i64::MAX,
        ensures
            write_op_v2_body(self, op, old(counter).next as int, final(counter).next as int),
            op.mode == write_mode_v2_code(WriteModeV2::Replace),
            op.overwrite_condition is None,
    {
        self.build_operation(WriteModeV2::Replace, None, counter)
    }

    /// The command that creates the table, or replaces it if it exists.
    pub fn create_or_replace(self, counter: &mut PlanIdCounter) -> (op: WriteOperationV2)
        requires
            old(counter).next + count_rel(plan_rel(*self.input_plan)) <= i64::MAX,
        ensures
            write_op_v2_body(self, op, old(counter).next as int, final(counter).next as int),
            op.mode == write_mode_v2_code(WriteModeV2::CreateOrReplace),
            op.overwrite_condition is None,
    {
        self.build_operation(WriteModeV2::CreateOrReplace, None, counter)
    }

    /// The command that appends the rows to the table.
    pub fn append(self, counter: &mut PlanIdCounter) -> (op: WriteOperationV2)
        requires
            old(counter).next + count_rel(plan_rel(*self.input_plan)) <= i64::MAX,
        ensures
            write_op_v2_body(self, op, old(counter).next as int, final(counter).next as int),
            op.mode == write_mode_v2_code(WriteModeV2::Append),
            op.overwrite_condition is None,
    {
        self.build_operation(WriteModeV2::Append, None, counter)
    }

    /// The command that overwrites the partitions the rows fall in.
    pub fn overwrite_partitions(self, counter: &mut PlanIdCounter) -> (op: WriteOperationV2)
        requires
            old(counter).next + count_rel(plan_rel(*self.input_plan)) <= i64::MAX,
        ensures
            write_op_v2_body(self, op, old(counter).next as int, final(counter).next as int),
            op.mode == write_mode_v2_code(WriteModeV2::OverwritePartitions),
            op.overwrite_condition is None,
    {
        self.build_operation(WriteModeV2::OverwritePartitions, None, counter)
    }

    /// The command that overwrites the rows matching `condition`.
    pub fn overwrite(self, condition: Column, counter: &mut PlanIdCounter) -> (op: WriteOperationV2)
        requires
            old(counter).next + count_rel(plan_rel(*self.input_plan)) <= i64::MAX,
        ensures
            write_op_v2_body(self, op, old(counter).next as int, final(counter).next as int),
            op.mode == write_mode_v2_code(WriteModeV2::Overwrite),
            op.overwrite_condition matches Some(e) && e@ == expr_to_msg(condition.expr),
    {
        self.build_operation(WriteModeV2::Overwrite, Some(condition), counter)
    }
}

} // verus!
