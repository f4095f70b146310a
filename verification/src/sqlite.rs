//! The calls into the SQLite binding. Nothing here is proved: each
//! function states what the binding's source shows of the call it makes,
//! and what the call hands to the connection.

use vstd::prelude::*;
use vstd::string::*;

verus! {

/// `rusqlite::Connection`: a connection to a database file. Nothing is
/// known of what is inside.
#[verifier::external_type_specification]
#[verifier::external_body]
pub struct ExConnection(rusqlite::Connection);

/// `rusqlite::Error`: the binding's error.
#[verifier::external_type_specification]
#[verifier::external_body]
pub struct ExSqliteError(rusqlite::Error);

/// `rusqlite::Row`: one row of a query's result, while the query is
/// being read.
#[verifier::external_type_specification]
#[verifier::external_body]
pub struct ExRow<'a>(rusqlite::Row<'a>);

/// A value bound to a placeholder of a statement.
#[derive(Debug)]
pub enum SqlParam {
    Text(String),
    Integer(i64),
}

/// The mathematical value of a [`SqlParam`].
pub enum SqlParamView {
    Text(Seq<char>),
    Integer(i64),
}

impl View for SqlParam {
    type V = SqlParamView;

    open spec fn view(&self) -> SqlParamView {
        match *self {
            SqlParam::Text(s) => SqlParamView::Text(s@),
            SqlParam::Integer(i) => SqlParamView::Integer(i),
        }
    }
}

impl DeepView for SqlParam {
    type V = SqlParamView;

    open spec fn deep_view(&self) -> SqlParamView {
        self@
    }
}

/// A statement and the values for its placeholders, in order.
#[derive(Debug)]
pub struct Query {
    pub sql: String,
    pub params: Vec<SqlParam>,
}

/// The mathematical value of a [`Query`].
pub struct QueryView {
    pub sql: Seq<char>,
    pub params: Seq<SqlParamView>,
}

impl View for Query {
    type V = QueryView;

    open spec fn view(&self) -> QueryView {
        QueryView { sql: self.sql@, params: self.params.deep_view() }
    }
}

/// What a column of a row holds, as far as the readers of this store
/// tell apart: text that is valid UTF-8, an integer, or anything else
/// (no such column, NULL, a real number, a blob, text that is not UTF-8).
pub enum Column {
    Text(Seq<char>),
    Integer(i64),
    Other,
}

/// The column at index `idx` of `row`.
pub uninterp spec fn column_of(row: &rusqlite::Row<'_>, idx: usize) -> Column;

/// What was handed to the connection `conn` to change the database,
/// oldest first: the statements and the batches.
pub uninterp spec fn issued_on(conn: rusqlite::Connection) -> Seq<QueryView>;

/// What was handed to the connection `conn` to read the database,
/// oldest first: the queries.
pub uninterp spec fn asked_on(conn: rusqlite::Connection) -> Seq<QueryView>;

/// `Row::get_ref` and `ValueRef::as_str`: succeeds exactly on a text
/// column, with its text.
#[verifier::external_body]
pub(crate) fn text_column(row: &rusqlite::Row<'_>, idx: usize) -> (r: Result<String, rusqlite::Error>)
    ensures
        match r {
            Ok(s) => column_of(row, idx) == Column::Text(s@),
            Err(_) => !(column_of(row, idx) is Text),
        },
{
    Ok(row.get_ref(idx)?.as_str()?.to_string())
}

/// `Row::get_ref`, `ValueRef::as_i64` and the conversion to 32 bits:
/// succeeds exactly on an integer column whose value fits, with that
/// value.
#[verifier::external_body]
pub(crate) fn int_column(row: &rusqlite::Row<'_>, idx: usize) -> (r: Result<i32, rusqlite::Error>)
    ensures
        match r {
            Ok(i) => column_of(row, idx) == Column::Integer(i as i64),
            Err(_) => !(column_of(row, idx) matches Column::Integer(v) && i32::MIN <= v <= i32::MAX),
        },
{
    let value = row.get_ref(idx)?.as_i64()?;
    i32::try_from(value).map_err(|_| rusqlite::Error::IntegralValueOutOfRange(idx, value))
}

/// `Connection::open`: opens the database file at `path`, creating it if
/// it is not there. A connection that was just opened has been handed
/// nothing.
#[verifier::external_body]
pub(crate) fn open_connection(path: &str) -> (r: Result<rusqlite::Connection, rusqlite::Error>)
    ensures
        r matches Ok(conn) ==> issued_on(conn) == Seq::<QueryView>::empty() && asked_on(conn)
            == Seq::<QueryView>::empty(),
{
    rusqlite::Connection::open(path)
}

/// `Connection::execute_batch`: hands the statements of `sql`, which
/// take no parameters, to the connection, which runs them one after the
/// other.
#[verifier::external_body]
pub(crate) fn execute_batch(conn: &mut rusqlite::Connection, sql: &str) -> (r: Result<
    (),
    rusqlite::Error,
>)
    ensures
        issued_on(*final(conn)) == issued_on(*old(conn)).push(
            QueryView { sql: sql@, params: Seq::empty() },
        ),
        asked_on(*final(conn)) == asked_on(*old(conn)),
{
    conn.execute_batch(sql)
}

/// `Connection::execute`: hands the statement `q` to the connection,
/// which runs it with the parameters bound to its placeholders in order,
/// text as text and integer as integer, and returns the number of rows
/// it changed.
#[verifier::external_body]
pub(crate) fn execute(conn: &mut rusqlite::Connection, q: &Query) -> (r: Result<
    usize,
    rusqlite::Error,
>)
    ensures
        issued_on(*final(conn)) == issued_on(*old(conn)).push(q@),
        asked_on(*final(conn)) == asked_on(*old(conn)),
{
    let values = q.params.iter().map(|p| match p {
        SqlParam::Text(s) => rusqlite::types::Value::Text(s.clone()),
        SqlParam::Integer(i) => rusqlite::types::Value::Integer(*i),
    });
    conn.execute(q.sql.as_str(), rusqlite::params_from_iter(values))
}

/// `rusqlite::Error`'s `to_string`: the text of the binding's error.
#[verifier::external_body]
pub(crate) fn error_message(e: &rusqlite::Error) -> (text: String) {
    e.to_string()
}

/// `Connection::prepare`, `Statement::query_map` and the collection of
/// what the mapped rows yield: hands the query `q` to the connection,
/// which runs it with the parameters bound to its placeholders in order,
/// and hands every row of the answer to `read`. Each item is what `read`
/// returned for one row, or the error that stepping to that row gave.
#[verifier::external_body]
pub(crate) fn query_map_all<T, F: Fn(&rusqlite::Row<'_>) -> Result<T, rusqlite::Error>>(
    conn: &mut rusqlite::Connection,
    q: &Query,
    read: F,
) -> (r: Result<Vec<Result<T, rusqlite::Error>>, rusqlite::Error>)
    requires
        forall|row: &rusqlite::Row<'_>| read.requires((row,)),
    ensures
        asked_on(*final(conn)) == asked_on(*old(conn)).push(q@),
        issued_on(*final(conn)) == issued_on(*old(conn)),
        r matches Ok(items) ==> forall|i: int|
            0 <= i < items.len() ==> (#[trigger] items[i] is Err || exists|row: &rusqlite::Row<'_>|
                read.ensures((row,), items[i])),
{
    let values = q.params.iter().map(|p| match p {
        SqlParam::Text(s) => rusqlite::types::Value::Text(s.clone()),
        SqlParam::Integer(i) => rusqlite::types::Value::Integer(*i),
    });
    let mut stmt = conn.prepare(q.sql.as_str())?;
    let rows = stmt.query_map(rusqlite::params_from_iter(values), read)?;
    Ok(rows.collect())
}

} // verus!
