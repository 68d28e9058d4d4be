use vstd::prelude::*;
use crate::db::{classify_read_error, error_message, list_tables, open_db, table_columns};

verus! {

/// One record of the introspection result: a single column of a single
/// table, together with the type string the table definition declared
/// for it.
#[derive(Debug, PartialEq, Eq)]
pub struct TableInfo {
    pub table_name: String,
    pub column_name: String,
    pub declared_type: String,
}

/// The mathematical value of a `TableInfo`: its three strings as
/// sequences of characters.
pub ghost struct TableInfoV {
    pub table_name: Seq<char>,
    pub column_name: Seq<char>,
    pub declared_type: Seq<char>,
}

impl View for TableInfo {
    type V = TableInfoV;

    open spec fn view(&self) -> TableInfoV {
        TableInfoV {
            table_name: self.table_name@,
            column_name: self.column_name@,
            declared_type: self.declared_type@,
        }
    }
}

impl DeepView for TableInfo {
    type V = TableInfoV;

    open spec fn deep_view(&self) -> TableInfoV {
        self@
    }
}

/// One column of one table, as the per-table metadata query reports
/// it: the column's name and its declared type (empty when the table
/// definition gave the column no type).
#[derive(Debug, PartialEq, Eq)]
pub struct ColumnInfo {
    pub name: String,
    pub declared_type: String,
}

/// The mathematical value of a `ColumnInfo`.
pub ghost struct ColumnInfoV {
    pub name: Seq<char>,
    pub declared_type: Seq<char>,
}

impl View for ColumnInfo {
    type V = ColumnInfoV;

    open spec fn view(&self) -> ColumnInfoV {
        ColumnInfoV { name: self.name@, declared_type: self.declared_type@ }
    }
}

impl DeepView for ColumnInfo {
    type V = ColumnInfoV;

    open spec fn deep_view(&self) -> ColumnInfoV {
        self@
    }
}

/// The result of introspecting one database file: the file's path and
/// one record per column of every table of its catalog, in
/// table-then-column order.
#[derive(Debug, PartialEq, Eq)]
pub struct SqliteDatabaseInfo {
    pub name: String,
    pub tables: Vec<TableInfo>,
}

/// Why an introspection failed. Every kind aborts the whole operation;
/// there is no partial result.
#[derive(Debug, PartialEq, Eq)]
pub enum SchemaError {
    /// No path argument was supplied; nothing was opened or read.
    MissingArgument,
    /// The database file could not be opened.
    ConnectionError(String),
    /// A catalog or column-metadata query could not be prepared or run.
    QueryError(String),
    /// A result row's fields could not be decoded.
    RowDecodeError(String),
}

impl SchemaError {
    /// The message of the error, in spec form.
    pub open spec fn message_spec(&self) -> Seq<char> {
        match self {
            SchemaError::MissingArgument => "need path to db"@,
            SchemaError::ConnectionError(m) => m@,
            SchemaError::QueryError(m) => m@,
            SchemaError::RowDecodeError(m) => m@,
        }
    }

    /// The human-readable message of the error.
    pub fn message(&self) -> (r: String)
        ensures
            r@ == self.message_spec(),
    {
        match self {
            SchemaError::MissingArgument => "need path to db".to_owned(),
            SchemaError::ConnectionError(m) => m.clone(),
            SchemaError::QueryError(m) => m.clone(),
            SchemaError::RowDecodeError(m) => m.clone(),
        }
    }
}

/// The record that one column of the table named `table` contributes.
pub open spec fn record_of(table: Seq<char>, c: ColumnInfoV) -> TableInfoV {
    TableInfoV { table_name: table, column_name: c.name, declared_type: c.declared_type }
}

/// The records that one table with name `table` and columns `cols`
/// contributes: one per column, in column ordinal order, each tagged
/// with the table's name.
pub open spec fn records_of(table: Seq<char>, cols: Seq<ColumnInfoV>) -> Seq<TableInfoV>
    decreases cols.len(),
{
    if cols.len() == 0 {
        Seq::empty()
    } else {
        records_of(table, cols.drop_last()).push(record_of(table, cols.last()))
    }
}

/// Law: one table's records are exactly its columns in ordinal order,
/// each tagged with the table's name.
pub proof fn lemma_records_of(table: Seq<char>, cols: Seq<ColumnInfoV>)
    ensures
        records_of(table, cols).len() == cols.len(),
        forall|i: int|
            0 <= i < cols.len() ==> records_of(table, cols)[i] == record_of(table, cols[i]),
    decreases cols.len(),
{
    if cols.len() > 0 {
        lemma_records_of(table, cols.drop_last());
    }
}

/// All records of a database whose catalog lists the tables `names`
/// in order, the table `names[i]` having the columns `cols[i]`: the
/// per-table record sequences concatenated in catalog order.
pub open spec fn all_records(
    names: Seq<Seq<char>>,
    cols: Seq<Seq<ColumnInfoV>>,
) -> Seq<TableInfoV>
    decreases names.len(),
{
    if names.len() == 0 {
        Seq::empty()
    } else {
        records_of(names[0], cols[0]) + all_records(names.drop_first(), cols.drop_first())
    }
}

/// How many columns a catalog holds in all: the sum of the column
/// counts of its tables.
pub open spec fn total_columns(cols: Seq<Seq<ColumnInfoV>>) -> nat
    decreases cols.len(),
{
    if cols.len() == 0 {
        0
    } else {
        cols[0].len() + total_columns(cols.drop_first())
    }
}

/// Law: the introspection result holds exactly one record per column,
/// summed over every table of the catalog.
pub proof fn lemma_record_count(names: Seq<Seq<char>>, cols: Seq<Seq<ColumnInfoV>>)
    requires
        names.len() == cols.len(),
    ensures
        all_records(names, cols).len() == total_columns(cols),
    decreases names.len(),
{
    if names.len() > 0 {
        lemma_records_of(names[0], cols[0]);
        lemma_record_count(names.drop_first(), cols.drop_first());
    }
}

/// Law: a catalog with no tables contributes no records at all.
pub proof fn lemma_empty_catalog(names: Seq<Seq<char>>, cols: Seq<Seq<ColumnInfoV>>)
    requires
        names.len() == 0,
    ensures
        all_records(names, cols) == Seq::<TableInfoV>::empty(),
{
}

proof fn lemma_all_records_push(
    names: Seq<Seq<char>>,
    cols: Seq<Seq<ColumnInfoV>>,
    n: Seq<char>,
    c: Seq<ColumnInfoV>,
)
    requires
        names.len() == cols.len(),
    ensures
        all_records(names.push(n), cols.push(c)) == all_records(names, cols) + records_of(n, c),
    decreases names.len(),
{
    let ns2 = names.push(n);
    let cs2 = cols.push(c);
    if names.len() == 0 {
        assert(ns2[0] == n);
        assert(cs2[0] == c);
        assert(ns2.drop_first().len() == 0);
        assert(all_records(ns2.drop_first(), cs2.drop_first()) == Seq::<TableInfoV>::empty());
        assert(all_records(ns2, cs2) == records_of(n, c) + Seq::<TableInfoV>::empty());
        assert(records_of(n, c) + Seq::<TableInfoV>::empty() =~= records_of(n, c));
        assert(all_records(names, cols) == Seq::<TableInfoV>::empty());
        assert(Seq::<TableInfoV>::empty() + records_of(n, c) =~= records_of(n, c));
    } else {
        assert(ns2[0] == names[0]);
        assert(cs2[0] == cols[0]);
        assert(ns2.drop_first() =~= names.drop_first().push(n));
        assert(cs2.drop_first() =~= cols.drop_first().push(c));
        lemma_all_records_push(names.drop_first(), cols.drop_first(), n, c);
        assert(all_records(ns2, cs2) == records_of(names[0], cols[0]) + (all_records(
            names.drop_first(),
            cols.drop_first(),
        ) + records_of(n, c)));
        assert(all_records(names, cols) == records_of(names[0], cols[0]) + all_records(
            names.drop_first(),
            cols.drop_first(),
        ));
        assert(records_of(names[0], cols[0]) + (all_records(names.drop_first(), cols.drop_first())
            + records_of(n, c)) =~= (records_of(names[0], cols[0]) + all_records(
            names.drop_first(),
            cols.drop_first(),
        )) + records_of(n, c));
    }
}

/// Tag every column of one table with the table's name, in column
/// ordinal order.
pub fn tag_columns(table: &String, cols: &Vec<ColumnInfo>) -> (r: Vec<TableInfo>)
    ensures
        r.deep_view() == records_of(table@, cols.deep_view()),
{
    let mut r: Vec<TableInfo> = Vec::new();
    let mut j: usize = 0;
    while j < cols.len()
        invariant
            j <= cols@.len(),
            r.deep_view() == records_of(table@, cols.deep_view().take(j as int)),
        decreases cols@.len() - j,
    {
        let col = &cols[j];
        r.push(
            TableInfo {
                table_name: table.clone(),
                column_name: col.name.clone(),
                declared_type: col.declared_type.clone(),
            },
        );
        proof {
            let cs = cols.deep_view();
            assert(cs.take(j as int + 1).drop_last() =~= cs.take(j as int));
            assert(cs.take(j as int + 1).last() == cs[j as int]);
            assert(records_of(table@, cs.take(j as int + 1)) == records_of(
                table@,
                cs.take(j as int),
            ).push(record_of(table@, cs[j as int])));
            assert(r.deep_view() =~= records_of(table@, cs.take(j as int)).push(
                record_of(table@, cs[j as int]),
            ));
        }
        j += 1;
    }
    proof {
        assert(cols.deep_view().take(cols@.len() as int) =~= cols.deep_view());
    }
    r
}

/// Accumulate the column records of every table into one sequence,
/// preserving table iteration order and, within a table, column
/// ordinal order.
pub fn collect_columns(names: &Vec<String>, cols: &Vec<Vec<ColumnInfo>>) -> (r: Vec<TableInfo>)
    requires
        names@.len() == cols@.len(),
    ensures
        r.deep_view() == all_records(names.deep_view(), cols.deep_view()),
{
    let mut r: Vec<TableInfo> = Vec::new();
    let mut i: usize = 0;
    while i < names.len()
        invariant
            i <= names@.len(),
            names@.len() == cols@.len(),
            r.deep_view() == all_records(
                names.deep_view().take(i as int),
                cols.deep_view().take(i as int),
            ),
        decreases names@.len() - i,
    {
        let mut tagged = tag_columns(&names[i], &cols[i]);
        r.append(&mut tagged);
        proof {
            let ns = names.deep_view();
            let cs = cols.deep_view();
            lemma_all_records_push(ns.take(i as int), cs.take(i as int), ns[i as int], cs[i as int]);
            assert(ns.take(i as int + 1) =~= ns.take(i as int).push(ns[i as int]));
            assert(cs.take(i as int + 1) =~= cs.take(i as int).push(cs[i as int]));
            assert(r.deep_view() =~= all_records(ns.take(i as int + 1), cs.take(i as int + 1)));
        }
        i += 1;
    }
    proof {
        assert(names.deep_view().take(names@.len() as int) =~= names.deep_view());
        assert(cols.deep_view().take(cols@.len() as int) =~= cols.deep_view());
    }
    r
}

/// Introspect the database file at `path`: open it, list every table
/// of its catalog, and for each table list every column with its
/// declared type.
///
/// On success the result's `name` is the `path` string itself and its
/// `tables` hold one record per column, in table-then-column order, as
/// `collect_columns` states. The error is never `MissingArgument`: a
/// failure to open reports `ConnectionError`, and a failure while
/// reading either catalog query reports `QueryError` or
/// `RowDecodeError`.
pub fn schema(path: &str) -> (r: Result<SqliteDatabaseInfo, SchemaError>)
    ensures
        r matches Ok(info) ==> info.name@ == path@,
        r matches Err(e) ==> e is ConnectionError || e is QueryError || e is RowDecodeError,
{
    let conn = match open_db(path) {
        Ok(c) => c,
        Err(e) => return Err(SchemaError::ConnectionError(error_message(&e))),
    };
    let names = match list_tables(&conn) {
        Ok(ns) => ns,
        Err(e) => return Err(classify_read_error(e)),
    };
    let mut cols: Vec<Vec<ColumnInfo>> = Vec::new();
    let mut i: usize = 0;
    while i < names.len()
        invariant
            i <= names@.len(),
            cols@.len() == i,
        decreases names@.len() - i,
    {
        match table_columns(&conn, names[i].as_str()) {
            Ok(cs) => cols.push(cs),
            Err(e) => return Err(classify_read_error(e)),
        }
        i += 1;
    }
    let tables = collect_columns(&names, &cols);
    Ok(SqliteDatabaseInfo { name: path.to_owned(), tables })
}

} // verus!
