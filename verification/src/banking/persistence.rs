//! Storing and listing registry records, with errors that map to HTTP codes.
use vstd::prelude::*;

use crate::banking::models::{
    BankDetails, BankResponseData, BranchDetails, BranchResponseData, CustomerDetails,
    CustomerResponseData, TellerDetails, TellerResponseData,
};
use crate::banking::sql::{distinct_names, get_conn, insert_row, params_are, query_pairs, read_rows, two_params};
use crate::text::{is_blank, lowercase, text_is_blank, to_lowercase};

verus! {

/// Why a registry operation failed.
#[derive(Debug)]
pub enum PersistenceError {
    EmptyBankName,
    EmptyCountry,
    EmptyBranch,
    EmptyLocation,
    EmptyTellerName,
    EmptyCustomerName,
    MysqlError(mysql::Error),
    Unknown,
}

impl PersistenceError {
    /// The request itself was at fault (a required field was blank).
    pub open spec fn is_bad_input(&self) -> bool {
        ||| self is EmptyBankName
        ||| self is EmptyCountry
        ||| self is EmptyBranch
        ||| self is EmptyLocation
        ||| self is EmptyTellerName
        ||| self is EmptyCustomerName
    }

    /// The HTTP status the error is answered with: 400 (Bad Request) for a
    /// blank field, 500 (Internal Server Error) for a database failure or an
    /// insert that reported no row id.
    pub fn status_code(&self) -> (r: u16)
        ensures
            r == (if self.is_bad_input() { 400u16 } else { 500u16 }),
    {
        match self {
            PersistenceError::EmptyBankName
            | PersistenceError::EmptyCountry
            | PersistenceError::EmptyBranch
            | PersistenceError::EmptyLocation
            | PersistenceError::EmptyTellerName
            | PersistenceError::EmptyCustomerName => 400,
            PersistenceError::MysqlError(_) | PersistenceError::Unknown => 500,
        }
    }
}

/// The outcome of an insert once the database has answered: a positive row
/// id is success, a zero id an unknown failure, a driver error is passed on.
pub open spec fn spec_insert_outcome(res: Result<u64, mysql::Error>) -> Result<(), PersistenceError> {
    match res {
        Ok(id) => if id > 0 { Ok(()) } else { Err(PersistenceError::Unknown) },
        Err(e) => Err(PersistenceError::MysqlError(e)),
    }
}

/// What an insert of valid input can come to, whatever the database answers.
pub open spec fn is_store_outcome(r: Result<(), PersistenceError>) -> bool {
    ||| r is Ok
    ||| r matches Err(PersistenceError::MysqlError(_))
    ||| r matches Err(PersistenceError::Unknown)
}

/// Turns the database's answer to an insert into the registry's result.
pub fn insert_outcome(res: Result<u64, mysql::Error>) -> (r: Result<(), PersistenceError>)
    ensures
        r == spec_insert_outcome(res),
        res matches Ok(id) && id > 0 ==> r is Ok,
        res matches Ok(id) && id == 0 ==> r == Err::<(), PersistenceError>(PersistenceError::Unknown),
        res matches Err(e) ==> r == Err::<(), PersistenceError>(PersistenceError::MysqlError(e)),
{
    match res {
        Ok(id) => if id > 0 {
            Ok(())
        } else {
            Err(PersistenceError::Unknown)
        },
        Err(e) => Err(PersistenceError::MysqlError(e)),
    }
}

/// An insert succeeds exactly when the database reports a row id: every
/// positive id is success, a zero id is an unknown failure, and a driver
/// error is passed on unchanged.
pub proof fn lemma_positive_id_is_success(res: Result<u64, mysql::Error>)
    ensures
        res matches Ok(id) ==> (spec_insert_outcome(res) is Ok <==> id > 0),
        res matches Ok(id) && id == 0 ==> spec_insert_outcome(res) == Err::<(), PersistenceError>(PersistenceError::Unknown),
        res matches Err(e) ==> spec_insert_outcome(res) == Err::<(), PersistenceError>(PersistenceError::MysqlError(e)),
{
}

/// The check of a pair of required fields: the first blank field gives its
/// error, in the order the fields are checked.
pub open spec fn spec_required(
    first: Seq<char>,
    first_err: PersistenceError,
    second: Seq<char>,
    second_err: PersistenceError,
) -> Option<PersistenceError> {
    if is_blank(first) {
        Some(first_err)
    } else if is_blank(second) {
        Some(second_err)
    } else {
        None
    }
}

/// The result of a create operation: the input error when a field is blank,
/// otherwise whatever storing the row came to.
pub open spec fn create_result(
    input: Option<PersistenceError>,
    r: Result<(), PersistenceError>,
) -> bool {
    match input {
        Some(e) => r == Err::<(), PersistenceError>(e),
        None => is_store_outcome(r),
    }
}

/// The values a record is stored with: both of its fields in lower case.
pub fn stored_fields(first: &str, second: &str) -> (r: (String, String))
    ensures
        r.0@ == lowercase(first@),
        r.1@ == lowercase(second@),
{
    (to_lowercase(first), to_lowercase(second))
}

/// The statement that stores a bank.
pub const BANK_INSERT: &'static str = "INSERT INTO bank_details (bank_name, country) VALUES (:bank_name, :country)";

/// The insert that stores a bank: `BANK_INSERT` with the lower-cased
/// `bank_name` under `:bank_name` and the lower-cased `country` under `:country`.
pub fn bank_insert(bank_name: &str, country: &str) -> (r: (&'static str, Vec<(String, String)>))
    ensures
        r.0@ == BANK_INSERT@,
        params_are(r.1@, "bank_name"@, lowercase(bank_name@), "country"@, lowercase(country@)),
        distinct_names(r.1@),
{
    let (first, second) = stored_fields(bank_name, country);
    proof {
        reveal_strlit("bank_name");
        reveal_strlit("country");
        assert("bank_name"@[0] != "country"@[0]);
    }
    (BANK_INSERT, two_params("bank_name", first, "country", second))
}

/// Stores a bank in `bank_details`, as `bank_insert` builds the statement.
fn insert_bank_data(conn: &mut mysql::PooledConn, my_bank_name: &str, my_country: &str) -> Result<u64, mysql::Error> {
    let (stmt, params) = bank_insert(my_bank_name, my_country);
    insert_row(conn, stmt, params)
}

/// The statement that stores a branch.
pub const BRANCH_INSERT: &'static str = "INSERT INTO branch_details (branch_name, location) VALUES (:branch_name, :location)";

/// The insert that stores a branch: `BRANCH_INSERT` with the lower-cased
/// `branch_name` under `:branch_name` and the lower-cased `location` under `:location`.
pub fn branch_insert(branch_name: &str, location: &str) -> (r: (&'static str, Vec<(String, String)>))
    ensures
        r.0@ == BRANCH_INSERT@,
        params_are(r.1@, "branch_name"@, lowercase(branch_name@), "location"@, lowercase(location@)),
        distinct_names(r.1@),
{
    let (first, second) = stored_fields(branch_name, location);
    proof {
        reveal_strlit("branch_name");
        reveal_strlit("location");
        assert("branch_name"@[0] != "location"@[0]);
    }
    (BRANCH_INSERT, two_params("branch_name", first, "location", second))
}

/// Stores a branch in `branch_details`, as `branch_insert` builds the statement.
fn insert_branch_data(conn: &mut mysql::PooledConn, my_branch_name: &str, my_location: &str) -> Result<u64, mysql::Error> {
    let (stmt, params) = branch_insert(my_branch_name, my_location);
    insert_row(conn, stmt, params)
}

/// The statement that stores a teller.
pub const TELLER_INSERT: &'static str = "INSERT INTO teller_details (teller_name, branch_name) VALUES (:teller_name, :branch_name)";

/// The insert that stores a teller: `TELLER_INSERT` with the lower-cased
/// `teller_name` under `:teller_name` and the lower-cased `branch_name` under `:branch_name`.
pub fn teller_insert(teller_name: &str, branch_name: &str) -> (r: (&'static str, Vec<(String, String)>))
    ensures
        r.0@ == TELLER_INSERT@,
        params_are(r.1@, "teller_name"@, lowercase(teller_name@), "branch_name"@, lowercase(branch_name@)),
        distinct_names(r.1@),
{
    let (first, second) = stored_fields(teller_name, branch_name);
    proof {
        reveal_strlit("teller_name");
        reveal_strlit("branch_name");
        assert("teller_name"@[0] != "branch_name"@[0]);
    }
    (TELLER_INSERT, two_params("teller_name", first, "branch_name", second))
}

/// Stores a teller in `teller_details`, as `teller_insert` builds the statement.
fn insert_teller_data(conn: &mut mysql::PooledConn, my_teller_name: &str, my_branch_name: &str) -> Result<u64, mysql::Error> {
    let (stmt, params) = teller_insert(my_teller_name, my_branch_name);
    insert_row(conn, stmt, params)
}

/// The statement that stores a customer.
pub const CUSTOMER_INSERT: &'static str = "INSERT INTO customer_details (customer_name, branch_name) VALUES (:customer_name, :branch_name)";

/// The insert that stores a customer: `CUSTOMER_INSERT` with the lower-cased
/// `customer_name` under `:customer_name` and the lower-cased `branch_name` under `:branch_name`.
pub fn customer_insert(customer_name: &str, branch_name: &str) -> (r: (&'static str, Vec<(String, String)>))
    ensures
        r.0@ == CUSTOMER_INSERT@,
        params_are(r.1@, "customer_name"@, lowercase(customer_name@), "branch_name"@, lowercase(branch_name@)),
        distinct_names(r.1@),
{
    let (first, second) = stored_fields(customer_name, branch_name);
    proof {
        reveal_strlit("customer_name");
        reveal_strlit("branch_name");
        assert("customer_name"@[0] != "branch_name"@[0]);
    }
    (CUSTOMER_INSERT, two_params("customer_name", first, "branch_name", second))
}

/// Stores a customer in `customer_details`, as `customer_insert` builds the statement.
fn insert_customer_data(conn: &mut mysql::PooledConn, my_customer_name: &str, my_branch_name: &str) -> Result<u64, mysql::Error> {
    let (stmt, params) = customer_insert(my_customer_name, my_branch_name);
    insert_row(conn, stmt, params)
}

/// Registers a bank. Blank names are refused before the database is
/// reached; otherwise the lower-cased name and country are inserted into
/// `bank_details`.
pub fn create_bank(pool: &mysql::Pool, bank_name: String, country: String) -> (r: Result<(), PersistenceError>)
    ensures
        create_result(
            spec_required(bank_name@, PersistenceError::EmptyBankName, country@, PersistenceError::EmptyCountry),
            r,
        ),
{
    if text_is_blank(bank_name.as_str()) {
        return Err(PersistenceError::EmptyBankName);
    }
    if text_is_blank(country.as_str()) {
        return Err(PersistenceError::EmptyCountry);
    }
    let mut conn = match get_conn(pool) {
        Ok(conn) => conn,
        Err(e) => return Err(PersistenceError::MysqlError(e)),
    };
    let last_insert_id = insert_bank_data(&mut conn, bank_name.as_str(), country.as_str());
    insert_outcome(last_insert_id)
}

/// Registers a branch. Blank names are refused before the database is
/// reached; otherwise the lower-cased name and location are inserted into
/// `branch_details`.
pub fn create_branch(pool: &mysql::Pool, branch_name: String, location: String) -> (r: Result<(), PersistenceError>)
    ensures
        create_result(
            spec_required(branch_name@, PersistenceError::EmptyBranch, location@, PersistenceError::EmptyLocation),
            r,
        ),
{
    if text_is_blank(branch_name.as_str()) {
        return Err(PersistenceError::EmptyBranch);
    }
    if text_is_blank(location.as_str()) {
        return Err(PersistenceError::EmptyLocation);
    }
    let mut conn = match get_conn(pool) {
        Ok(conn) => conn,
        Err(e) => return Err(PersistenceError::MysqlError(e)),
    };
    let last_insert_id = insert_branch_data(&mut conn, branch_name.as_str(), location.as_str());
    insert_outcome(last_insert_id)
}

/// Registers a teller. Blank names are refused before the database is
/// reached; otherwise the lower-cased names are inserted into
/// `teller_details`.
pub fn create_teller(pool: &mysql::Pool, teller_name: String, branch_name: String) -> (r: Result<(), PersistenceError>)
    ensures
        create_result(
            spec_required(teller_name@, PersistenceError::EmptyTellerName, branch_name@, PersistenceError::EmptyBranch),
            r,
        ),
{
    if text_is_blank(teller_name.as_str()) {
        return Err(PersistenceError::EmptyTellerName);
    }
    if text_is_blank(branch_name.as_str()) {
        return Err(PersistenceError::EmptyBranch);
    }
    let mut conn = match get_conn(pool) {
        Ok(conn) => conn,
        Err(e) => return Err(PersistenceError::MysqlError(e)),
    };
    let last_insert_id = insert_teller_data(&mut conn, teller_name.as_str(), branch_name.as_str());
    insert_outcome(last_insert_id)
}

/// Registers a customer. Blank names are refused before the database is
/// reached; otherwise the lower-cased names are inserted into
/// `customer_details`.
pub fn create_customer(pool: &mysql::Pool, customer_name: String, branch_name: String) -> (r: Result<(), PersistenceError>)
    ensures
        create_result(
            spec_required(customer_name@, PersistenceError::EmptyCustomerName, branch_name@, PersistenceError::EmptyBranch),
            r,
        ),
{
    if text_is_blank(customer_name.as_str()) {
        return Err(PersistenceError::EmptyCustomerName);
    }
    if text_is_blank(branch_name.as_str()) {
        return Err(PersistenceError::EmptyBranch);
    }
    let mut conn = match get_conn(pool) {
        Ok(conn) => conn,
        Err(e) => return Err(PersistenceError::MysqlError(e)),
    };
    let last_insert_id = insert_customer_data(&mut conn, customer_name.as_str(), branch_name.as_str());
    insert_outcome(last_insert_id)
}

/// Reads query rows as bank records, the first column as `bank_name` and the second
/// as `country`, keeping their order.
pub fn bank_details_from_rows(rows: &Vec<(String, String)>) -> (r: Vec<BankDetails>)
    ensures
        r.len() == rows.len(),
        forall|i: int|
            0 <= i < rows.len() ==> #[trigger] r[i].bank_name@ == rows[i].0@ && r[i].country@ == rows[i].1@,
{
    let mut out: Vec<BankDetails> = Vec::new();
    let mut i: usize = 0;
    while i < rows.len()
        invariant
            i <= rows.len(),
            out.len() == i,
            forall|j: int|
                0 <= j < i ==> #[trigger] out[j].bank_name@ == rows[j].0@ && out[j].country@ == rows[j].1@,
        decreases rows.len() - i,
    {
        out.push(BankDetails { bank_name: rows[i].0.clone(), country: rows[i].1.clone() });
        i = i + 1;
    }
    out
}

/// The query that lists the banks whose two fields hold something besides
/// spaces, in the order of their ids.
pub const BANK_SELECT: &'static str = "SELECT bank_name, country FROM bank_details WHERE LENGTH(TRIM(COALESCE(bank_name, ''))) > 0 AND LENGTH(TRIM(COALESCE(country, ''))) > 0 ORDER BY id ASC";

/// The query that lists the bank records: `BANK_SELECT`.
pub fn bank_select() -> (r: &'static str)
    ensures
        r@ == BANK_SELECT@,
{
    BANK_SELECT
}

/// Runs the query `bank_select` gives; a row that does not read as two
/// strings fails the query.
fn select_bank_details(conn: &mut mysql::PooledConn) -> Result<Vec<(String, String)>, mysql::Error> {
    read_rows(query_pairs(conn, bank_select()))
}

/// The listing answered once the query has run: its rows as bank records in
/// order, or the query's error.
pub fn bank_data_from(rows: Result<Vec<(String, String)>, mysql::Error>) -> (r: Result<BankResponseData, PersistenceError>)
    ensures
        rows matches Err(e) ==> r == Err::<BankResponseData, PersistenceError>(PersistenceError::MysqlError(e)),
        rows matches Ok(v) ==> r matches Ok(d) && d.bank_data.len() == v.len() && forall|i: int|
            0 <= i < v.len() ==> #[trigger] d.bank_data[i].bank_name@ == v[i].0@ && d.bank_data[i].country@ == v[i].1@,
{
    match rows {
        Ok(v) => Ok(BankResponseData { bank_data: bank_details_from_rows(&v) }),
        Err(e) => Err(PersistenceError::MysqlError(e)),
    }
}

/// Lists all registered banks: the query `bank_select` gives is run, and its
/// answer is given as `bank_data_from` gives it.
pub fn get_bank_data(pool: &mysql::Pool) -> (r: Result<BankResponseData, PersistenceError>)
    ensures
        r is Ok || r matches Err(PersistenceError::MysqlError(_)),
{
    let mut conn = match get_conn(pool) {
        Ok(conn) => conn,
        Err(e) => return Err(PersistenceError::MysqlError(e)),
    };
    bank_data_from(select_bank_details(&mut conn))
}

/// Reads query rows as branch records, the first column as `branch_name` and the second
/// as `location`, keeping their order.
pub fn branch_details_from_rows(rows: &Vec<(String, String)>) -> (r: Vec<BranchDetails>)
    ensures
        r.len() == rows.len(),
        forall|i: int|
            0 <= i < rows.len() ==> #[trigger] r[i].branch_name@ == rows[i].0@ && r[i].location@ == rows[i].1@,
{
    let mut out: Vec<BranchDetails> = Vec::new();
    let mut i: usize = 0;
    while i < rows.len()
        invariant
            i <= rows.len(),
            out.len() == i,
            forall|j: int|
                0 <= j < i ==> #[trigger] out[j].branch_name@ == rows[j].0@ && out[j].location@ == rows[j].1@,
        decreases rows.len() - i,
    {
        out.push(BranchDetails { branch_name: rows[i].0.clone(), location: rows[i].1.clone() });
        i = i + 1;
    }
    out
}

/// The query that lists the branches whose two fields hold something besides
/// spaces, in the order of their ids.
pub const BRANCH_SELECT: &'static str = "SELECT branch_name, location FROM branch_details WHERE LENGTH(TRIM(COALESCE(branch_name, ''))) > 0 AND LENGTH(TRIM(COALESCE(location, ''))) > 0 ORDER BY id ASC";

/// The query that lists the branch records: `BRANCH_SELECT`.
pub fn branch_select() -> (r: &'static str)
    ensures
        r@ == BRANCH_SELECT@,
{
    BRANCH_SELECT
}

/// Runs the query `branch_select` gives; a row that does not read as two
/// strings fails the query.
fn select_branch_details(conn: &mut mysql::PooledConn) -> Result<Vec<(String, String)>, mysql::Error> {
    read_rows(query_pairs(conn, branch_select()))
}

/// The listing answered once the query has run: its rows as branch records in
/// order, or the query's error.
pub fn branch_data_from(rows: Result<Vec<(String, String)>, mysql::Error>) -> (r: Result<BranchResponseData, PersistenceError>)
    ensures
        rows matches Err(e) ==> r == Err::<BranchResponseData, PersistenceError>(PersistenceError::MysqlError(e)),
        rows matches Ok(v) ==> r matches Ok(d) && d.branch_data.len() == v.len() && forall|i: int|
            0 <= i < v.len() ==> #[trigger] d.branch_data[i].branch_name@ == v[i].0@ && d.branch_data[i].location@ == v[i].1@,
{
    match rows {
        Ok(v) => Ok(BranchResponseData { branch_data: branch_details_from_rows(&v) }),
        Err(e) => Err(PersistenceError::MysqlError(e)),
    }
}

/// Lists all registered branches: the query `branch_select` gives is run, and its
/// answer is given as `branch_data_from` gives it.
pub fn get_branch_data(pool: &mysql::Pool) -> (r: Result<BranchResponseData, PersistenceError>)
    ensures
        r is Ok || r matches Err(PersistenceError::MysqlError(_)),
{
    let mut conn = match get_conn(pool) {
        Ok(conn) => conn,
        Err(e) => return Err(PersistenceError::MysqlError(e)),
    };
    branch_data_from(select_branch_details(&mut conn))
}

/// Reads query rows as teller records, the first column as `teller_name` and the second
/// as `branch_name`, keeping their order.
pub fn teller_details_from_rows(rows: &Vec<(String, String)>) -> (r: Vec<TellerDetails>)
    ensures
        r.len() == rows.len(),
        forall|i: int|
            0 <= i < rows.len() ==> #[trigger] r[i].teller_name@ == rows[i].0@ && r[i].branch_name@ == rows[i].1@,
{
    let mut out: Vec<TellerDetails> = Vec::new();
    let mut i: usize = 0;
    while i < rows.len()
        invariant
            i <= rows.len(),
            out.len() == i,
            forall|j: int|
                0 <= j < i ==> #[trigger] out[j].teller_name@ == rows[j].0@ && out[j].branch_name@ == rows[j].1@,
        decreases rows.len() - i,
    {
        out.push(TellerDetails { teller_name: rows[i].0.clone(), branch_name: rows[i].1.clone() });
        i = i + 1;
    }
    out
}

/// The query that lists the tellers whose two fields hold something besides
/// spaces, in the order of their ids.
pub const TELLER_SELECT: &'static str = "SELECT teller_name, branch_name FROM teller_details WHERE LENGTH(TRIM(COALESCE(teller_name, ''))) > 0 AND LENGTH(TRIM(COALESCE(branch_name, ''))) > 0 ORDER BY id ASC";

/// The query that lists the teller records: `TELLER_SELECT`.
pub fn teller_select() -> (r: &'static str)
    ensures
        r@ == TELLER_SELECT@,
{
    TELLER_SELECT
}

/// Runs the query `teller_select` gives; a row that does not read as two
/// strings fails the query.
fn select_teller_details(conn: &mut mysql::PooledConn) -> Result<Vec<(String, String)>, mysql::Error> {
    read_rows(query_pairs(conn, teller_select()))
}

/// The listing answered once the query has run: its rows as teller records in
/// order, or the query's error.
pub fn teller_data_from(rows: Result<Vec<(String, String)>, mysql::Error>) -> (r: Result<TellerResponseData, PersistenceError>)
    ensures
        rows matches Err(e) ==> r == Err::<TellerResponseData, PersistenceError>(PersistenceError::MysqlError(e)),
        rows matches Ok(v) ==> r matches Ok(d) && d.teller_data.len() == v.len() && forall|i: int|
            0 <= i < v.len() ==> #[trigger] d.teller_data[i].teller_name@ == v[i].0@ && d.teller_data[i].branch_name@ == v[i].1@,
{
    match rows {
        Ok(v) => Ok(TellerResponseData { teller_data: teller_details_from_rows(&v) }),
        Err(e) => Err(PersistenceError::MysqlError(e)),
    }
}

/// Lists all registered tellers: the query `teller_select` gives is run, and its
/// answer is given as `teller_data_from` gives it.
pub fn get_teller_data(pool: &mysql::Pool) -> (r: Result<TellerResponseData, PersistenceError>)
    ensures
        r is Ok || r matches Err(PersistenceError::MysqlError(_)),
{
    let mut conn = match get_conn(pool) {
        Ok(conn) => conn,
        Err(e) => return Err(PersistenceError::MysqlError(e)),
    };
    teller_data_from(select_teller_details(&mut conn))
}

/// Reads query rows as customer records, the first column as `customer_name` and the second
/// as `branch_name`, keeping their order.
pub fn customer_details_from_rows(rows: &Vec<(String, String)>) -> (r: Vec<CustomerDetails>)
    ensures
        r.len() == rows.len(),
        forall|i: int|
            0 <= i < rows.len() ==> #[trigger] r[i].customer_name@ == rows[i].0@ && r[i].branch_name@ == rows[i].1@,
{
    let mut out: Vec<CustomerDetails> = Vec::new();
    let mut i: usize = 0;
    while i < rows.len()
        invariant
            i <= rows.len(),
            out.len() == i,
            forall|j: int|
                0 <= j < i ==> #[trigger] out[j].customer_name@ == rows[j].0@ && out[j].branch_name@ == rows[j].1@,
        decreases rows.len() - i,
    {
        out.push(CustomerDetails { customer_name: rows[i].0.clone(), branch_name: rows[i].1.clone() });
        i = i + 1;
    }
    out
}

/// The query that lists the customers whose two fields hold something besides
/// spaces, in the order of their ids.
pub const CUSTOMER_SELECT: &'static str = "SELECT customer_name, branch_name FROM customer_details WHERE LENGTH(TRIM(COALESCE(customer_name, ''))) > 0 AND LENGTH(TRIM(COALESCE(branch_name, ''))) > 0 ORDER BY id ASC";

/// The query that lists the customer records: `CUSTOMER_SELECT`.
pub fn customer_select() -> (r: &'static str)
    ensures
        r@ == CUSTOMER_SELECT@,
{
    CUSTOMER_SELECT
}

/// Runs the query `customer_select` gives; a row that does not read as two
/// strings fails the query.
fn select_customer_details(conn: &mut mysql::PooledConn) -> Result<Vec<(String, String)>, mysql::Error> {
    read_rows(query_pairs(conn, customer_select()))
}

/// The listing answered once the query has run: its rows as customer records in
/// order, or the query's error.
pub fn customer_data_from(rows: Result<Vec<(String, String)>, mysql::Error>) -> (r: Result<CustomerResponseData, PersistenceError>)
    ensures
        rows matches Err(e) ==> r == Err::<CustomerResponseData, PersistenceError>(PersistenceError::MysqlError(e)),
        rows matches Ok(v) ==> r matches Ok(d) && d.customer_data.len() == v.len() && forall|i: int|
            0 <= i < v.len() ==> #[trigger] d.customer_data[i].customer_name@ == v[i].0@ && d.customer_data[i].branch_name@ == v[i].1@,
{
    match rows {
        Ok(v) => Ok(CustomerResponseData { customer_data: customer_details_from_rows(&v) }),
        Err(e) => Err(PersistenceError::MysqlError(e)),
    }
}

/// Lists all registered customers: the query `customer_select` gives is run, and its
/// answer is given as `customer_data_from` gives it.
pub fn get_customer_data(pool: &mysql::Pool) -> (r: Result<CustomerResponseData, PersistenceError>)
    ensures
        r is Ok || r matches Err(PersistenceError::MysqlError(_)),
{
    let mut conn = match get_conn(pool) {
        Ok(conn) => conn,
        Err(e) => return Err(PersistenceError::MysqlError(e)),
    };
    customer_data_from(select_customer_details(&mut conn))
}

} // verus!
