//! The first version of the registry's handlers: every answer carries a
//! status code (0 for success, 1 otherwise) and a description.
use vstd::prelude::*;

use crate::banking::sql::{distinct_names, get_conn, insert_row, params_are, query_pairs, read_rows, two_params};
use crate::banking::persistence::stored_fields;
use crate::text::{is_blank, lowercase, text_is_blank};

verus! {

/// The description given when storing a record failed.
pub const ERROR_MESSAGE: &'static str = "Error occurred during processing, please try again.";

/// The status part of an answer.
pub struct ResponseStatus {
    pub status_code: u8,
    pub status_description: String,
}

/// Whether `r` carries the code `code` and the description `desc`.
pub open spec fn status_is(r: ResponseStatus, code: u8, desc: Seq<char>) -> bool {
    r.status_code == code && r.status_description@ == desc
}

/// The answer to a create request once its fields were found non-blank:
/// success exactly when the database reports a positive row id.
pub open spec fn spec_insert_status(res: Result<u64, mysql::Error>) -> (u8, Seq<char>) {
    match res {
        Ok(x) => if x > 0 { (0u8, "Successful"@) } else { (1u8, ERROR_MESSAGE@) },
        Err(_) => (1u8, ERROR_MESSAGE@),
    }
}

/// Judges the database's answer to an insert.
pub fn insert_status(res: Result<u64, mysql::Error>) -> (r: ResponseStatus)
    ensures
        status_is(r, spec_insert_status(res).0, spec_insert_status(res).1),
        res matches Ok(id) && id > 0 ==> status_is(r, 0, "Successful"@),
        !(res matches Ok(id) && id > 0) ==> status_is(r, 1, ERROR_MESSAGE@),
{
    match res {
        Ok(x) => if x > 0 {
            ResponseStatus { status_code: 0, status_description: "Successful".to_owned() }
        } else {
            ResponseStatus { status_code: 1, status_description: ERROR_MESSAGE.to_owned() }
        },
        Err(_) => ResponseStatus { status_code: 1, status_description: ERROR_MESSAGE.to_owned() },
    }
}

/// An insert is answered as successful exactly when the database reports a
/// positive row id; anything else is answered with the error message.
pub proof fn lemma_positive_id_is_successful(res: Result<u64, mysql::Error>)
    ensures
        (spec_insert_status(res).0 == 0) <==> (res matches Ok(id) && id > 0),
        spec_insert_status(res).0 == 0 ==> spec_insert_status(res).1 == "Successful"@,
        spec_insert_status(res).0 != 0 ==> spec_insert_status(res).0 == 1 && spec_insert_status(res).1 == ERROR_MESSAGE@,
{
}

/// The answer to a create request: the first blank field is named, otherwise
/// the request succeeded or failed in the database.
pub open spec fn create_status(
    first: Seq<char>,
    first_msg: Seq<char>,
    second: Seq<char>,
    second_msg: Seq<char>,
    r: ResponseStatus,
) -> bool {
    if is_blank(first) {
        status_is(r, 1, first_msg)
    } else if is_blank(second) {
        status_is(r, 1, second_msg)
    } else {
        status_is(r, 0, "Successful"@) || status_is(r, 1, ERROR_MESSAGE@)
    }
}

/// The answer to a list request: success exactly when something was found.
pub open spec fn list_status(code: u8, desc: Seq<char>, found: nat) -> bool {
    &&& (code == 0) == (found > 0)
    &&& found > 0 ==> desc == "Successful"@
    &&& found == 0 ==> code == 1 && desc == "Record not found"@
}

/// One registered bank.
pub struct BankDetails {
    pub bank_name: String,
    pub country: String,
}

/// All registered banks, with the status of the listing.
pub struct BankResponseData {
    pub status_code: u8,
    pub status_description: String,
    pub bank_data: Vec<BankDetails>,
}

/// The statement that stores a bank.
pub const BANK_INSERT: &'static str = "insert into bank_details (bank_name, country) values (:bank_name, :country);";

/// The insert that stores a bank: `BANK_INSERT` with the lower-cased
/// `bank_name` under `:bank_name` and the lower-cased `country` under `:country`.
pub fn bank_insert(bank_name: &str, country: &str) -> (r: (&'static str, Vec<(String, String)>))
    ensures
        r.0@ == BANK_INSERT@,
        params_are(r.1@, "bank_name"@, lowercase(bank_name@), "country"@, lowercase(country@)),
        distinct_names(r.1@),
{
    let (first, second) = stored_fields(bank_name, country);
    proof {
        reveal_strlit("bank_name");
        reveal_strlit("country");
        assert("bank_name"@[0] != "country"@[0]);
    }
    (BANK_INSERT, two_params("bank_name", first, "country", second))
}

/// Stores a bank in `bank_details`, as `bank_insert` builds the statement.
fn insert_bank_data(conn: &mut mysql::PooledConn, my_bank_name: &str, my_country: &str) -> Result<u64, mysql::Error> {
    let (stmt, params) = bank_insert(my_bank_name, my_country);
    insert_row(conn, stmt, params)
}

/// Registers a bank and answers with a status.
pub fn create_bank(pool: &mysql::Pool, bank_name: String, _country: String) -> (r: ResponseStatus)
    ensures
        create_status(bank_name@, "Bank name is empty!"@, _country@, "Country is empty!"@, r),
{
    if text_is_blank(bank_name.as_str()) {
        return ResponseStatus { status_code: 1, status_description: "Bank name is empty!".to_owned() };
    }
    if text_is_blank(_country.as_str()) {
        return ResponseStatus { status_code: 1, status_description: "Country is empty!".to_owned() };
    }
    match get_conn(pool) {
        Ok(mut conn) => {
            let res = insert_bank_data(&mut conn, bank_name.as_str(), _country.as_str());
            insert_status(res)
        },
        Err(e) => insert_status(Err(e)),
    }
}

/// Reads query rows as bank records, keeping their order.
fn bank_rows(rows: &Vec<(String, String)>) -> (r: Vec<BankDetails>)
    ensures
        r.len() == rows.len(),
        forall|i: int|
            0 <= i < rows.len() ==> #[trigger] r[i].bank_name@ == rows[i].0@ && r[i].country@ == rows[i].1@,
{
    let mut out: Vec<BankDetails> = Vec::new();
    let mut i: usize = 0;
    while i < rows.len()
        invariant
            i <= rows.len(),
            out.len() == i,
            forall|j: int|
                0 <= j < i ==> #[trigger] out[j].bank_name@ == rows[j].0@ && out[j].country@ == rows[j].1@,
        decreases rows.len() - i,
    {
        out.push(BankDetails { bank_name: rows[i].0.clone(), country: rows[i].1.clone() });
        i = i + 1;
    }
    out
}

/// The query that lists the banks whose two fields hold something besides
/// spaces, in the order of their ids.
pub const BANK_SELECT: &'static str = "select bank_name, country from bank_details where length(trim(coalesce(bank_name,''))) > 0 and length(trim(coalesce(country,''))) > 0 order by id asc;";

/// The query that lists the bank records: `BANK_SELECT`.
pub fn bank_select() -> (r: &'static str)
    ensures
        r@ == BANK_SELECT@,
{
    BANK_SELECT
}

/// Runs the query `bank_select` gives; a row that does not read as two
/// strings fails the query.
fn select_bank_details(conn: &mut mysql::PooledConn) -> Result<Vec<(String, String)>, mysql::Error> {
    read_rows(query_pairs(conn, bank_select()))
}

/// Answers a listing with the status its records call for.
pub fn bank_response(data: Vec<BankDetails>) -> (r: BankResponseData)
    ensures
        r.bank_data == data,
        list_status(r.status_code, r.status_description@, data@.len()),
{
    if data.len() > 0 {
        BankResponseData { status_code: 0, status_description: "Successful".to_owned(), bank_data: data }
    } else {
        BankResponseData { status_code: 1, status_description: "Record not found".to_owned(), bank_data: data }
    }
}

/// The listing answered once the query has run: its rows as bank records in
/// order, with the status they call for; a failed query lists nothing.
pub fn bank_list_from(rows: Result<Vec<(String, String)>, mysql::Error>) -> (r: BankResponseData)
    ensures
        list_status(r.status_code, r.status_description@, r.bank_data@.len()),
        rows is Err ==> r.bank_data@.len() == 0,
        rows matches Ok(v) ==> r.bank_data.len() == v.len() && forall|i: int|
            0 <= i < v.len() ==> #[trigger] r.bank_data[i].bank_name@ == v[i].0@ && r.bank_data[i].country@ == v[i].1@,
{
    match rows {
        Ok(v) => bank_response(bank_rows(&v)),
        Err(_) => bank_response(Vec::new()),
    }
}

/// Lists all registered banks: the query `bank_select` gives is run, and its
/// answer is given as `bank_list_from` gives it; when no connection can be had,
/// nothing is listed.
pub fn get_bank_data(pool: &mysql::Pool) -> (r: BankResponseData)
    ensures
        list_status(r.status_code, r.status_description@, r.bank_data@.len()),
{
    match get_conn(pool) {
        Ok(mut conn) => bank_list_from(select_bank_details(&mut conn)),
        Err(e) => bank_list_from(Err(e)),
    }
}

/// One registered branch.
pub struct BranchDetails {
    pub branch_name: String,
    pub location: String,
}

/// All registered branches, with the status of the listing.
pub struct BranchResponseData {
    pub status_code: u8,
    pub status_description: String,
    pub branch_data: Vec<BranchDetails>,
}

/// The statement that stores a branch.
pub const BRANCH_INSERT: &'static str = "insert into branch_details (branch_name, location) values (:branch_name, :location);";

/// The insert that stores a branch: `BRANCH_INSERT` with the lower-cased
/// `branch_name` under `:branch_name` and the lower-cased `location` under `:location`.
pub fn branch_insert(branch_name: &str, location: &str) -> (r: (&'static str, Vec<(String, String)>))
    ensures
        r.0@ == BRANCH_INSERT@,
        params_are(r.1@, "branch_name"@, lowercase(branch_name@), "location"@, lowercase(location@)),
        distinct_names(r.1@),
{
    let (first, second) = stored_fields(branch_name, location);
    proof {
        reveal_strlit("branch_name");
        reveal_strlit("location");
        assert("branch_name"@[0] != "location"@[0]);
    }
    (BRANCH_INSERT, two_params("branch_name", first, "location", second))
}

/// Stores a branch in `branch_details`, as `branch_insert` builds the statement.
fn insert_branch_data(conn: &mut mysql::PooledConn, my_branch_name: &str, my_location: &str) -> Result<u64, mysql::Error> {
    let (stmt, params) = branch_insert(my_branch_name, my_location);
    insert_row(conn, stmt, params)
}

/// Registers a branch and answers with a status.
pub fn create_branch(pool: &mysql::Pool, branch_name: String, _location: String) -> (r: ResponseStatus)
    ensures
        create_status(branch_name@, "Branch name is empty!"@, _location@, "Location is empty!"@, r),
{
    if text_is_blank(branch_name.as_str()) {
        return ResponseStatus { status_code: 1, status_description: "Branch name is empty!".to_owned() };
    }
    if text_is_blank(_location.as_str()) {
        return ResponseStatus { status_code: 1, status_description: "Location is empty!".to_owned() };
    }
    match get_conn(pool) {
        Ok(mut conn) => {
            let res = insert_branch_data(&mut conn, branch_name.as_str(), _location.as_str());
            insert_status(res)
        },
        Err(e) => insert_status(Err(e)),
    }
}

/// Reads query rows as branch records, keeping their order.
fn branch_rows(rows: &Vec<(String, String)>) -> (r: Vec<BranchDetails>)
    ensures
        r.len() == rows.len(),
        forall|i: int|
            0 <= i < rows.len() ==> #[trigger] r[i].branch_name@ == rows[i].0@ && r[i].location@ == rows[i].1@,
{
    let mut out: Vec<BranchDetails> = Vec::new();
    let mut i: usize = 0;
    while i < rows.len()
        invariant
            i <= rows.len(),
            out.len() == i,
            forall|j: int|
                0 <= j < i ==> #[trigger] out[j].branch_name@ == rows[j].0@ && out[j].location@ == rows[j].1@,
        decreases rows.len() - i,
    {
        out.push(BranchDetails { branch_name: rows[i].0.clone(), location: rows[i].1.clone() });
        i = i + 1;
    }
    out
}

/// The query that lists the branches whose two fields hold something besides
/// spaces, in the order of their ids.
pub const BRANCH_SELECT: &'static str = "select branch_name, location from branch_details where length(trim(coalesce(branch_name,''))) > 0 and length(trim(coalesce(location,''))) > 0 order by id asc;";

/// The query that lists the branch records: `BRANCH_SELECT`.
pub fn branch_select() -> (r: &'static str)
    ensures
        r@ == BRANCH_SELECT@,
{
    BRANCH_SELECT
}

/// Runs the query `branch_select` gives; a row that does not read as two
/// strings fails the query.
fn select_branch_details(conn: &mut mysql::PooledConn) -> Result<Vec<(String, String)>, mysql::Error> {
    read_rows(query_pairs(conn, branch_select()))
}

/// Answers a listing with the status its records call for.
pub fn branch_response(data: Vec<BranchDetails>) -> (r: BranchResponseData)
    ensures
        r.branch_data == data,
        list_status(r.status_code, r.status_description@, data@.len()),
{
    if data.len() > 0 {
        BranchResponseData { status_code: 0, status_description: "Successful".to_owned(), branch_data: data }
    } else {
        BranchResponseData { status_code: 1, status_description: "Record not found".to_owned(), branch_data: data }
    }
}

/// The listing answered once the query has run: its rows as branch records in
/// order, with the status they call for; a failed query lists nothing.
pub fn branch_list_from(rows: Result<Vec<(String, String)>, mysql::Error>) -> (r: BranchResponseData)
    ensures
        list_status(r.status_code, r.status_description@, r.branch_data@.len()),
        rows is Err ==> r.branch_data@.len() == 0,
        rows matches Ok(v) ==> r.branch_data.len() == v.len() && forall|i: int|
            0 <= i < v.len() ==> #[trigger] r.branch_data[i].branch_name@ == v[i].0@ && r.branch_data[i].location@ == v[i].1@,
{
    match rows {
        Ok(v) => branch_response(branch_rows(&v)),
        Err(_) => branch_response(Vec::new()),
    }
}

/// Lists all registered branches: the query `branch_select` gives is run, and its
/// answer is given as `branch_list_from` gives it; when no connection can be had,
/// nothing is listed.
pub fn get_branch_data(pool: &mysql::Pool) -> (r: BranchResponseData)
    ensures
        list_status(r.status_code, r.status_description@, r.branch_data@.len()),
{
    match get_conn(pool) {
        Ok(mut conn) => branch_list_from(select_branch_details(&mut conn)),
        Err(e) => branch_list_from(Err(e)),
    }
}

/// One registered teller.
pub struct TellerDetails {
    pub teller_name: String,
    pub branch_name: String,
}

/// All registered tellers, with the status of the listing.
pub struct TellerResponseData {
    pub status_code: u8,
    pub status_description: String,
    pub teller_data: Vec<TellerDetails>,
}

/// The statement that stores a teller.
pub const TELLER_INSERT: &'static str = "insert into teller_details (teller_name, branch_name) values (:teller_name, :branch_name);";

/// The insert that stores a teller: `TELLER_INSERT` with the lower-cased
/// `teller_name` under `:teller_name` and the lower-cased `branch_name` under `:branch_name`.
pub fn teller_insert(teller_name: &str, branch_name: &str) -> (r: (&'static str, Vec<(String, String)>))
    ensures
        r.0@ == TELLER_INSERT@,
        params_are(r.1@, "teller_name"@, lowercase(teller_name@), "branch_name"@, lowercase(branch_name@)),
        distinct_names(r.1@),
{
    let (first, second) = stored_fields(teller_name, branch_name);
    proof {
        reveal_strlit("teller_name");
        reveal_strlit("branch_name");
        assert("teller_name"@[0] != "branch_name"@[0]);
    }
    (TELLER_INSERT, two_params("teller_name", first, "branch_name", second))
}

/// Stores a teller in `teller_details`, as `teller_insert` builds the statement.
fn insert_teller_data(conn: &mut mysql::PooledConn, my_teller_name: &str, my_branch_name: &str) -> Result<u64, mysql::Error> {
    let (stmt, params) = teller_insert(my_teller_name, my_branch_name);
    insert_row(conn, stmt, params)
}

/// Registers a teller and answers with a status.
pub fn create_teller(pool: &mysql::Pool, teller_name: String, branch_name: String) -> (r: ResponseStatus)
    ensures
        create_status(teller_name@, "Teller name is empty!"@, branch_name@, "Branch name is empty!"@, r),
{
    if text_is_blank(teller_name.as_str()) {
        return ResponseStatus { status_code: 1, status_description: "Teller name is empty!".to_owned() };
    }
    if text_is_blank(branch_name.as_str()) {
        return ResponseStatus { status_code: 1, status_description: "Branch name is empty!".to_owned() };
    }
    match get_conn(pool) {
        Ok(mut conn) => {
            let res = insert_teller_data(&mut conn, teller_name.as_str(), branch_name.as_str());
            insert_status(res)
        },
        Err(e) => insert_status(Err(e)),
    }
}

/// Reads query rows as teller records, keeping their order.
fn teller_rows(rows: &Vec<(String, String)>) -> (r: Vec<TellerDetails>)
    ensures
        r.len() == rows.len(),
        forall|i: int|
            0 <= i < rows.len() ==> #[trigger] r[i].teller_name@ == rows[i].0@ && r[i].branch_name@ == rows[i].1@,
{
    let mut out: Vec<TellerDetails> = Vec::new();
    let mut i: usize = 0;
    while i < rows.len()
        invariant
            i <= rows.len(),
            out.len() == i,
            forall|j: int|
                0 <= j < i ==> #[trigger] out[j].teller_name@ == rows[j].0@ && out[j].branch_name@ == rows[j].1@,
        decreases rows.len() - i,
    {
        out.push(TellerDetails { teller_name: rows[i].0.clone(), branch_name: rows[i].1.clone() });
        i = i + 1;
    }
    out
}

/// The query that lists the tellers whose two fields hold something besides
/// spaces, in the order of their ids.
pub const TELLER_SELECT: &'static str = "select teller_name, branch_name from teller_details where length(trim(coalesce(teller_name,''))) > 0 and length(trim(coalesce(branch_name,''))) > 0 order by id asc;";

/// The query that lists the teller records: `TELLER_SELECT`.
pub fn teller_select() -> (r: &'static str)
    ensures
        r@ == TELLER_SELECT@,
{
    TELLER_SELECT
}

/// Runs the query `teller_select` gives; a row that does not read as two
/// strings fails the query.
fn select_teller_details(conn: &mut mysql::PooledConn) -> Result<Vec<(String, String)>, mysql::Error> {
    read_rows(query_pairs(conn, teller_select()))
}

/// Answers a listing with the status its records call for.
pub fn teller_response(data: Vec<TellerDetails>) -> (r: TellerResponseData)
    ensures
        r.teller_data == data,
        list_status(r.status_code, r.status_description@, data@.len()),
{
    if data.len() > 0 {
        TellerResponseData { status_code: 0, status_description: "Successful".to_owned(), teller_data: data }
    } else {
        TellerResponseData { status_code: 1, status_description: "Record not found".to_owned(), teller_data: data }
    }
}

/// The listing answered once the query has run: its rows as teller records in
/// order, with the status they call for; a failed query lists nothing.
pub fn teller_list_from(rows: Result<Vec<(String, String)>, mysql::Error>) -> (r: TellerResponseData)
    ensures
        list_status(r.status_code, r.status_description@, r.teller_data@.len()),
        rows is Err ==> r.teller_data@.len() == 0,
        rows matches Ok(v) ==> r.teller_data.len() == v.len() && forall|i: int|
            0 <= i < v.len() ==> #[trigger] r.teller_data[i].teller_name@ == v[i].0@ && r.teller_data[i].branch_name@ == v[i].1@,
{
    match rows {
        Ok(v) => teller_response(teller_rows(&v)),
        Err(_) => teller_response(Vec::new()),
    }
}

/// Lists all registered tellers: the query `teller_select` gives is run, and its
/// answer is given as `teller_list_from` gives it; when no connection can be had,
/// nothing is listed.
pub fn get_teller_data(pool: &mysql::Pool) -> (r: TellerResponseData)
    ensures
        list_status(r.status_code, r.status_description@, r.teller_data@.len()),
{
    match get_conn(pool) {
        Ok(mut conn) => teller_list_from(select_teller_details(&mut conn)),
        Err(e) => teller_list_from(Err(e)),
    }
}

/// One registered customer.
pub struct CustomerDetails {
    pub customer_name: String,
    pub branch_name: String,
}

/// All registered customers, with the status of the listing.
pub struct CustomerResponseData {
    pub status_code: u8,
    pub status_description: String,
    pub customer_data: Vec<CustomerDetails>,
}

/// The statement that stores a customer.
pub const CUSTOMER_INSERT: &'static str = "insert into customer_details (customer_name, branch_name) values (:customer_name, :branch_name);";

/// The insert that stores a customer: `CUSTOMER_INSERT` with the lower-cased
/// `customer_name` under `:customer_name` and the lower-cased `branch_name` under `:branch_name`.
pub fn customer_insert(customer_name: &str, branch_name: &str) -> (r: (&'static str, Vec<(String, String)>))
    ensures
        r.0@ == CUSTOMER_INSERT@,
        params_are(r.1@, "customer_name"@, lowercase(customer_name@), "branch_name"@, lowercase(branch_name@)),
        distinct_names(r.1@),
{
    let (first, second) = stored_fields(customer_name, branch_name);
    proof {
        reveal_strlit("customer_name");
        reveal_strlit("branch_name");
        assert("customer_name"@[0] != "branch_name"@[0]);
    }
    (CUSTOMER_INSERT, two_params("customer_name", first, "branch_name", second))
}

/// Stores a customer in `customer_details`, as `customer_insert` builds the statement.
fn insert_customer_data(conn: &mut mysql::PooledConn, my_customer_name: &str, my_branch_name: &str) -> Result<u64, mysql::Error> {
    let (stmt, params) = customer_insert(my_customer_name, my_branch_name);
    insert_row(conn, stmt, params)
}

/// Registers a customer and answers with a status.
pub fn create_customer(pool: &mysql::Pool, customer_name: String, branch_name: String) -> (r: ResponseStatus)
    ensures
        create_status(customer_name@, "Customer name is empty!"@, branch_name@, "Branch name is empty!"@, r),
{
    if text_is_blank(customer_name.as_str()) {
        return ResponseStatus { status_code: 1, status_description: "Customer name is empty!".to_owned() };
    }
    if text_is_blank(branch_name.as_str()) {
        return ResponseStatus { status_code: 1, status_description: "Branch name is empty!".to_owned() };
    }
    match get_conn(pool) {
        Ok(mut conn) => {
            let res = insert_customer_data(&mut conn, customer_name.as_str(), branch_name.as_str());
            insert_status(res)
        },
        Err(e) => insert_status(Err(e)),
    }
}

/// Reads query rows as customer records, keeping their order.
fn customer_rows(rows: &Vec<(String, String)>) -> (r: Vec<CustomerDetails>)
    ensures
        r.len() == rows.len(),
        forall|i: int|
            0 <= i < rows.len() ==> #[trigger] r[i].customer_name@ == rows[i].0@ && r[i].branch_name@ == rows[i].1@,
{
    let mut out: Vec<CustomerDetails> = Vec::new();
    let mut i: usize = 0;
    while i < rows.len()
        invariant
            i <= rows.len(),
            out.len() == i,
            forall|j: int|
                0 <= j < i ==> #[trigger] out[j].customer_name@ == rows[j].0@ && out[j].branch_name@ == rows[j].1@,
        decreases rows.len() - i,
    {
        out.push(CustomerDetails { customer_name: rows[i].0.clone(), branch_name: rows[i].1.clone() });
        i = i + 1;
    }
    out
}

/// The query that lists the customers whose two fields hold something besides
/// spaces, in the order of their ids.
pub const CUSTOMER_SELECT: &'static str = "select customer_name, branch_name from customer_details where length(trim(coalesce(customer_name,''))) > 0 and length(trim(coalesce(branch_name,''))) > 0 order by id asc;";

/// The query that lists the customer records: `CUSTOMER_SELECT`.
pub fn customer_select() -> (r: &'static str)
    ensures
        r@ == CUSTOMER_SELECT@,
{
    CUSTOMER_SELECT
}

/// Runs the query `customer_select` gives; a row that does not read as two
/// strings fails the query.
fn select_customer_details(conn: &mut mysql::PooledConn) -> Result<Vec<(String, String)>, mysql::Error> {
    read_rows(query_pairs(conn, customer_select()))
}

/// Answers a listing with the status its records call for.
pub fn customer_response(data: Vec<CustomerDetails>) -> (r: CustomerResponseData)
    ensures
        r.customer_data == data,
        list_status(r.status_code, r.status_description@, data@.len()),
{
    if data.len() > 0 {
        CustomerResponseData { status_code: 0, status_description: "Successful".to_owned(), customer_data: data }
    } else {
        CustomerResponseData { status_code: 1, status_description: "Record not found".to_owned(), customer_data: data }
    }
}

/// The listing answered once the query has run: its rows as customer records in
/// order, with the status they call for; a failed query lists nothing.
pub fn customer_list_from(rows: Result<Vec<(String, String)>, mysql::Error>) -> (r: CustomerResponseData)
    ensures
        list_status(r.status_code, r.status_description@, r.customer_data@.len()),
        rows is Err ==> r.customer_data@.len() == 0,
        rows matches Ok(v) ==> r.customer_data.len() == v.len() && forall|i: int|
            0 <= i < v.len() ==> #[trigger] r.customer_data[i].customer_name@ == v[i].0@ && r.customer_data[i].branch_name@ == v[i].1@,
{
    match rows {
        Ok(v) => customer_response(customer_rows(&v)),
        Err(_) => customer_response(Vec::new()),
    }
}

/// Lists all registered customers: the query `customer_select` gives is run, and its
/// answer is given as `customer_list_from` gives it; when no connection can be had,
/// nothing is listed.
pub fn get_customer_data(pool: &mysql::Pool) -> (r: CustomerResponseData)
    ensures
        list_status(r.status_code, r.status_description@, r.customer_data@.len()),
{
    match get_conn(pool) {
        Ok(mut conn) => customer_list_from(select_customer_details(&mut conn)),
        Err(e) => customer_list_from(Err(e)),
    }
}

} // verus!
