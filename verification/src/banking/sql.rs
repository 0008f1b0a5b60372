//! The MySQL calls the registry makes, and the statements it sends.
use mysql::prelude::Queryable;
use vstd::prelude::*;

verus! {

#[verifier::external_type_specification]
#[verifier::external_body]
pub struct ExPool(mysql::Pool);

#[verifier::external_type_specification]
#[verifier::external_body]
pub struct ExPooledConn(mysql::PooledConn);

#[verifier::external_type_specification]
#[verifier::external_body]
pub struct ExMysqlError(mysql::Error);

#[verifier::external_type_specification]
#[verifier::external_body]
pub struct ExFromRowError(mysql::FromRowError);

/// Calls `mysql::Pool::get_conn`, which hands out a pooled connection or
/// opens a new one. Whether that succeeds depends on the server, so nothing
/// is stated of the result.
#[verifier::external_body]
pub(crate) fn get_conn(pool: &mysql::Pool) -> Result<mysql::PooledConn, mysql::Error> {
    pool.get_conn()
}

/// Whether no name occurs twice among named statement parameters, each a
/// pair of name and value.
pub open spec fn distinct_names(params: Seq<(String, String)>) -> bool {
    forall|i: int, j: int| 0 <= i < j < params.len() ==> #[trigger] params[i].0@ != #[trigger] params[j].0@
}

/// Calls `Queryable::exec_drop` on `conn` with the statement `stmt` and the
/// named parameters `params`. Building the named parameters panics when a
/// name occurs twice, which `requires` rules out. The outcome depends on the
/// server, so nothing is stated of it.
#[verifier::external_body]
pub(crate) fn exec_drop_named(
    conn: &mut mysql::PooledConn,
    stmt: &str,
    params: Vec<(String, String)>,
) -> Result<(), mysql::Error>
    requires
        distinct_names(params@),
{
    conn.exec_drop(stmt, mysql::Params::from(params))
}

/// Calls `Queryable::exec_first_opt` on `conn` with the statement `stmt` and
/// the named parameters `params`: the first row of the result, if there is
/// one, read as three strings, or the row itself when it does not read so
/// (a NULL, bytes that are not UTF-8, another number of columns). Building
/// the named parameters panics when a name occurs twice, which `requires`
/// rules out. The row comes from the server, so nothing is stated of it.
#[verifier::external_body]
pub(crate) fn exec_first_triple(
    conn: &mut mysql::PooledConn,
    stmt: &str,
    params: Vec<(String, String)>,
) -> Result<Option<Result<(String, String, String), mysql::FromRowError>>, mysql::Error>
    requires
        distinct_names(params@),
{
    conn.exec_first_opt(stmt, mysql::Params::from(params))
}

/// Calls `Queryable::exec_opt` on `conn` with the statement `stmt` and no
/// parameters: every row of the result, in the order the server sends them,
/// each read as three strings, or kept as it is when it does not read so.
/// The rows come from the server, so nothing is stated of them.
#[verifier::external_body]
pub(crate) fn exec_triples(
    conn: &mut mysql::PooledConn,
    stmt: &str,
) -> Result<Vec<Result<(String, String, String), mysql::FromRowError>>, mysql::Error> {
    conn.exec_opt(stmt, ())
}

/// Calls `Conn::last_insert_id` (through the pooled connection): the id of
/// the row that the last statement inserted, zero when there was none. The
/// value comes from the server, so nothing is stated of it.
#[verifier::external_body]
pub(crate) fn last_insert_id(conn: &mysql::PooledConn) -> u64 {
    conn.last_insert_id()
}

/// Calls `Queryable::query_opt` with the text query `query`: every row of
/// its first result set, in the order the server sends them, each read as a
/// pair of strings, or kept as it is when it does not read so. The rows come
/// from the server, so nothing is stated of them.
#[verifier::external_body]
pub(crate) fn query_pairs(
    conn: &mut mysql::PooledConn,
    query: &str,
) -> Result<Vec<Result<(String, String), mysql::FromRowError>>, mysql::Error> {
    conn.query_opt(query)
}

/// Calls `From::<FromRowError>::from` on `mysql::Error`: the error that
/// carries a row that could not be read. Nothing is stated of it.
#[verifier::external_body]
pub(crate) fn row_error(e: mysql::FromRowError) -> mysql::Error {
    mysql::Error::from(e)
}

/// Whether every row of a result was read.
pub open spec fn all_read<T>(rows: Seq<Result<T, mysql::FromRowError>>) -> bool {
    forall|i: int| 0 <= i < rows.len() ==> #[trigger] rows[i] is Ok
}

/// The value of a row that was read.
pub open spec fn read_value<T>(row: Result<T, mysql::FromRowError>) -> T {
    row->Ok_0
}

/// The values of rows that were all read.
pub open spec fn read_values<T>(rows: Seq<Result<T, mysql::FromRowError>>) -> Seq<T> {
    rows.map_values(|row: Result<T, mysql::FromRowError>| read_value(row))
}

/// The rows of a query when every one of them was read; an error of the
/// query is passed on, and a row that could not be read becomes the error
/// that carries it.
pub fn read_rows<T>(res: Result<Vec<Result<T, mysql::FromRowError>>, mysql::Error>) -> (r: Result<Vec<T>, mysql::Error>)
    ensures
        res matches Err(e) ==> r == Err::<Vec<T>, mysql::Error>(e),
        res matches Ok(rows) ==> (r is Ok <==> all_read(rows@)),
        res matches Ok(rows) ==> (r matches Ok(v) ==> v@ == read_values(rows@)),
{
    match res {
        Err(e) => Err(e),
        Ok(rows) => {
            broadcast use vstd::std_specs::vec::axiom_spec_into_iter;
            let ghost rs = rows@;
            let mut out: Vec<T> = Vec::new();
            for row in it: rows.into_iter()
                invariant
                    it.seq() == rs,
                    res matches Ok(rr) && rr@ == rs,
                    out@ == read_values(rs.take(it.index() as int)),
                    forall|j: int| 0 <= j < it.index() ==> #[trigger] rs[j] is Ok,
            {
                assert(rs.take((it.index() + 1) as int) =~= rs.take(it.index() as int).push(rs[it.index() as int]));
                match row {
                    Ok(v) => {
                        out.push(v);
                        assert(out@ =~= read_values(rs.take((it.index() + 1) as int)));
                    },
                    Err(e) => {
                        assert(!(rs[it.index() as int] is Ok));
                        return Err(row_error(e));
                    },
                }
            }
            assert(rs.take(rs.len() as int) =~= rs);
            Ok(out)
        },
    }
}

/// Whether `params` are exactly the two named parameters `n1 = v1` and
/// `n2 = v2`, in that order.
pub open spec fn params_are(
    params: Seq<(String, String)>,
    n1: Seq<char>,
    v1: Seq<char>,
    n2: Seq<char>,
    v2: Seq<char>,
) -> bool {
    &&& params.len() == 2
    &&& params[0].0@ == n1 && params[0].1@ == v1
    &&& params[1].0@ == n2 && params[1].1@ == v2
}

/// The two named parameters `n1 = v1` and `n2 = v2`.
pub fn two_params(n1: &str, v1: String, n2: &str, v2: String) -> (r: Vec<(String, String)>)
    requires
        n1@ != n2@,
    ensures
        params_are(r@, n1@, v1@, n2@, v2@),
        distinct_names(r@),
{
    vec![(n1.to_owned(), v1), (n2.to_owned(), v2)]
}

/// Sends one insert statement with its named parameters and reads the id of
/// the new row.
pub(crate) fn insert_row(
    conn: &mut mysql::PooledConn,
    stmt: &str,
    params: Vec<(String, String)>,
) -> Result<u64, mysql::Error>
    requires
        distinct_names(params@),
{
    match exec_drop_named(conn, stmt, params) {
        Ok(()) => Ok(last_insert_id(conn)),
        Err(e) => Err(e),
    }
}

} // verus!
