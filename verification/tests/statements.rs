use actix_examples::accounts::{user_insert, user_lookup, users_select, QueryRoot, UserInput, USER_INSERT, USER_SELECT};
use actix_examples::banking::db_layer;
use actix_examples::banking::persistence::{
    bank_data_from, bank_insert, bank_select, branch_data_from, branch_insert, customer_insert, teller_insert, PersistenceError,
    BANK_INSERT, BANK_SELECT,
};
use actix_examples::banking::sql::read_rows;
use actix_examples::proxy::{forward_reqwest_url, forward_url, response_headers, Header};
use actix_examples::uploads::{upload_file_name, TempFile};

fn pairs(p: &[(String, String)]) -> Vec<(&str, &str)> {
    p.iter().map(|(a, b)| (a.as_str(), b.as_str())).collect()
}

#[test]
fn inserts_carry_lowercased_fields_under_their_names() {
    let (stmt, params) = bank_insert("Ghana Bank", "GHANA");
    assert_eq!(stmt, BANK_INSERT);
    assert_eq!(stmt, "INSERT INTO bank_details (bank_name, country) VALUES (:bank_name, :country)");
    assert_eq!(pairs(&params), vec![("bank_name", "ghana bank"), ("country", "ghana")]);
    let (_, params) = branch_insert("Accra Main", "Accra");
    assert_eq!(pairs(&params), vec![("branch_name", "accra main"), ("location", "accra")]);
    let (_, params) = teller_insert("Ama", "Accra Main");
    assert_eq!(pairs(&params), vec![("teller_name", "ama"), ("branch_name", "accra main")]);
    let (_, params) = customer_insert("Kofi", "Accra Main");
    assert_eq!(pairs(&params), vec![("customer_name", "kofi"), ("branch_name", "accra main")]);
    let (stmt, params) = db_layer::bank_insert("B", "C");
    assert_eq!(stmt, "insert into bank_details (bank_name, country) values (:bank_name, :country);");
    assert_eq!(pairs(&params), vec![("bank_name", "b"), ("country", "c")]);
}

#[test]
fn listings_follow_the_rows() {
    assert!(BANK_SELECT.contains("ORDER BY id ASC"));
    assert_eq!(bank_select(), BANK_SELECT);
    assert_eq!(db_layer::teller_select(), db_layer::TELLER_SELECT);
    assert_eq!(users_select(), "select * from user");
    let rows = vec![("a".to_owned(), "x".to_owned()), ("b".to_owned(), "y".to_owned())];
    let data = bank_data_from(Ok(rows)).unwrap();
    assert_eq!(data.bank_data.len(), 2);
    assert_eq!((data.bank_data[1].bank_name.as_str(), data.bank_data[1].country.as_str()), ("b", "y"));
    let data = branch_data_from(Ok(Vec::new())).unwrap();
    assert!(data.branch_data.is_empty());
    let listed = db_layer::bank_list_from(Ok(vec![("a".to_owned(), "x".to_owned())]));
    assert_eq!((listed.status_code, listed.bank_data.len()), (0, 1));
    let none = db_layer::bank_list_from(Ok(Vec::new()));
    assert_eq!((none.status_code, none.status_description.as_str()), (1, "Record not found"));
    let read: Result<Vec<(String, String)>, mysql::Error> = read_rows(Ok(vec![Ok(("p".to_owned(), "q".to_owned()))]));
    assert_eq!(read.unwrap(), vec![("p".to_owned(), "q".to_owned())]);
    let _ = PersistenceError::Unknown;
}

#[test]
fn user_statements_and_answers() {
    let input = UserInput { name: "Ann".to_owned(), email: "ann@x".to_owned() };
    let (stmt, params) = user_insert("abc", &input);
    assert_eq!(stmt, USER_INSERT);
    assert_eq!(pairs(&params), vec![("id", "abc"), ("name", "Ann"), ("email", "ann@x")]);
    let (stmt, params) = user_lookup("7".to_owned());
    assert_eq!(stmt, USER_SELECT);
    assert_eq!(pairs(&params), vec![("id", "7")]);
    assert!(QueryRoot::user_answer(Ok(None)).is_none());
    let found = QueryRoot::user_answer(Ok(Some(Ok(("7".to_owned(), "Ann".to_owned(), "a@x".to_owned())))));
    let user = found.unwrap().unwrap();
    assert_eq!((user.id.as_str(), user.name.as_str(), user.email.as_str()), ("7", "Ann", "a@x"));
    let all = QueryRoot::users_answer(Ok(vec![("1".to_owned(), "a".to_owned(), "e".to_owned())])).unwrap();
    assert_eq!(all[0].name, "a");
}

#[test]
fn repeated_headers_keep_the_last_value() {
    let h = |n: &str, v: &str| Header { name: n.to_owned(), value: v.as_bytes().to_vec() };
    let out = response_headers(vec![h("set-cookie", "a=1"), h("connection", "close"), h("x", "1"), h("set-cookie", "b=2")]);
    let got: Vec<(&str, &[u8])> = out.iter().map(|h| (h.name.as_str(), h.value.as_slice())).collect();
    assert_eq!(got, vec![("x", &b"1"[..]), ("set-cookie", &b"b=2"[..])]);
}

#[test]
fn upstream_urls() {
    assert_eq!(
        forward_reqwest_url("http://127.0.0.1:9000", "/using-reqwest/a/b", Some("x=1")).unwrap(),
        "http://127.0.0.1:9000/a/b?x=1"
    );
    assert_eq!(forward_url("http://127.0.0.1:9000/", "/a", None).unwrap(), "http://127.0.0.1:9000/a");
    assert_eq!(forward_url("http://example.com", "/some path", None).unwrap(), "http://example.com/some%20path");
    assert!(forward_url("not a url", "/a", None).is_none());
}

#[test]
fn plain_names_are_kept() {
    let t = TempFile::new("report.pdf");
    assert_eq!(t.name(), "report.pdf");
    assert_eq!(t.path(), "./tmp/report.pdf");
    assert_eq!(TempFile::new("a:b*c.txt").name(), "abc.txt");
    assert_eq!(upload_file_name(Some("notes.txt")), "notes.txt");
}
