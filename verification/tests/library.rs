use actix_examples::acme;
use actix_examples::accounts::{failure_message, InsertFailure, MutationRoot, QueryRoot as UserQuery, User, UserInput};
use actix_examples::banking::db_layer;
use actix_examples::banking::models::BankData;
use actix_examples::banking::persistence::{bank_details_from_rows, insert_outcome, stored_fields, PersistenceError};
use actix_examples::cache::{self, CacheInfo, RespValue};
use actix_examples::custom_error::{do_something_random, handler_status, outcome_of, random_custom_error, CustomError};
use actix_examples::json_api::{self, Info, JsonPayloadKind, SomeData};
use actix_examples::jsonrpc::{rpc_select, wait_outcome, ErrorData, ObjNetwork, RpcStep, RpcValue};
use actix_examples::payload::{read_body, BodyBuffer, PayloadError, MAX_SIZE};
use actix_examples::proxy::{forward_path, forwarded_for, response_headers, Header};
use actix_examples::records::{add_user_reply, user_not_found, NewItem, Todo, TodoRequest};
use actix_examples::starwars::{page_window, Character, Episode, QueryRoot, StarWars, StarWarsChar};
use actix_examples::text::text_is_blank;
use actix_examples::uploads::{classify_field, is_text_field, key_prefix, object_key, object_url, text_value, upload_file_name, upload_path, FieldRole, TempFile};

#[test]
fn blank_texts() {
    assert!(text_is_blank(""));
    assert!(text_is_blank("   "));
    assert!(text_is_blank(" \t\n\u{3000} "));
    assert!(!text_is_blank(" a "));
    assert!(!text_is_blank("x"));
}

#[test]
fn lowercase_is_applied() {
    let (name, country) = stored_fields("Ghana Bank", "ÉCOLE");
    assert_eq!(name, "ghana bank");
    assert_eq!(country, "école");
}

#[test]
fn insert_outcomes() {
    assert!(insert_outcome(Ok(7)).is_ok());
    assert!(matches!(insert_outcome(Ok(0)), Err(PersistenceError::Unknown)));
    assert_eq!(PersistenceError::EmptyBankName.status_code(), 400);
    assert_eq!(PersistenceError::EmptyLocation.status_code(), 400);
    assert_eq!(PersistenceError::Unknown.status_code(), 500);
}

#[test]
fn rows_become_records_in_order() {
    let rows = vec![("a".to_owned(), "x".to_owned()), ("b".to_owned(), "y".to_owned())];
    let banks = bank_details_from_rows(&rows);
    assert_eq!(banks.len(), 2);
    assert_eq!(banks[0].bank_name, "a");
    assert_eq!(banks[1].country, "y");
    let _request = BankData { bank_name: "a".to_owned(), country: "x".to_owned() };
}

#[test]
fn legacy_statuses() {
    let ok = db_layer::insert_status(Ok(3));
    assert_eq!(ok.status_code, 0);
    assert_eq!(ok.status_description, "Successful");
    let failed = db_layer::insert_status(Ok(0));
    assert_eq!(failed.status_code, 1);
    assert_eq!(failed.status_description, db_layer::ERROR_MESSAGE);
    let empty = db_layer::bank_response(Vec::new());
    assert_eq!(empty.status_code, 1);
    assert_eq!(empty.status_description, "Record not found");
    let some = db_layer::bank_response(vec![db_layer::BankDetails { bank_name: "b".to_owned(), country: "c".to_owned() }]);
    assert_eq!(some.status_code, 0);
    assert_eq!(some.status_description, "Successful");
}

fn character(id: &str, is_human: bool, friends: Vec<usize>) -> StarWarsChar {
    StarWarsChar {
        id: id.to_owned(),
        name: format!("name-{id}"),
        is_human,
        friends,
        appears_in: vec![Episode::NewHope, Episode::Empire, Episode::Jedi],
        home_planet: None,
        primary_function: None,
    }
}

fn saga() -> StarWars {
    StarWars {
        luke: 0,
        artoo: 3,
        chars: vec![
            character("1000", true, vec![1, 3]),
            character("1001", true, vec![]),
            character("1002", true, vec![0]),
            character("2001", false, vec![0, 1]),
            character("1003", true, vec![]),
            character("2000", false, vec![]),
        ],
    }
}

#[test]
fn heroes() {
    let sw = saga();
    match QueryRoot.hero(&sw, None) {
        Character::Human(h) => assert_eq!(h.id(), "1000"),
        _ => panic!("expected Luke"),
    }
    match QueryRoot.hero(&sw, Some(Episode::Empire)) {
        Character::Human(h) => assert_eq!(h.id(), "1000"),
        _ => panic!("expected Luke"),
    }
    match QueryRoot.hero(&sw, Some(Episode::Jedi)) {
        Character::Droid(d) => assert_eq!(d.id(), "2001"),
        _ => panic!("expected R2-D2"),
    }
}

#[test]
fn lookups_and_friends() {
    let sw = saga();
    assert_eq!(QueryRoot.human(&sw, &"1002".to_owned()).unwrap().name(), "name-1002");
    assert!(QueryRoot.human(&sw, &"2001".to_owned()).is_none());
    assert_eq!(QueryRoot.droid(&sw, &"2001".to_owned()).unwrap().id(), "2001");
    assert!(QueryRoot.droid(&sw, &"9999".to_owned()).is_none());
    let luke = QueryRoot.human(&sw, &"1000".to_owned()).unwrap();
    let friends = luke.friends(&sw);
    assert_eq!(friends.len(), 2);
    assert!(matches!(friends[0], Character::Human(_)));
    assert!(matches!(friends[1], Character::Droid(_)));
}

#[test]
fn pages_of_humans() {
    let sw = saga();
    // four humans: positions 0..4
    let all = QueryRoot.humans(&sw, None, None, None, None);
    assert_eq!(all.edges.len(), 4);
    assert!(!all.has_previous_page && !all.has_next_page);
    let first_two = QueryRoot.humans(&sw, None, None, Some(2), None);
    assert_eq!(first_two.edges.iter().map(|e| e.cursor).collect::<Vec<_>>(), vec![0, 1]);
    assert!(!first_two.has_previous_page && first_two.has_next_page);
    let after = QueryRoot.humans(&sw, Some(1), None, None, None);
    assert_eq!(after.edges.iter().map(|e| e.node.id().to_owned()).collect::<Vec<_>>(), vec!["1002", "1003"]);
    assert!(after.has_previous_page && !after.has_next_page);
    let last_one = QueryRoot.humans(&sw, None, None, None, Some(1));
    assert_eq!(last_one.edges[0].cursor, 3);
    assert!(last_one.has_previous_page && !last_one.has_next_page);
    let past_end = QueryRoot.humans(&sw, Some(4), None, None, None);
    assert!(past_end.edges.is_empty() && !past_end.has_previous_page && !past_end.has_next_page);
    let before_zero = QueryRoot.humans(&sw, None, Some(0), None, None);
    assert!(before_zero.edges.is_empty());
    let droids = QueryRoot.droids(&sw, None, Some(1), None, None);
    assert_eq!(droids.edges.len(), 1);
    assert_eq!(droids.edges[0].node.id(), "2001");
}

#[test]
fn page_window_reports_next_after_first_as_computed() {
    // `first` lowers the end it compares with the list length.
    let w = page_window(None, None, Some(5), None, 5);
    assert_eq!((w.from, w.to), (0, 5));
    assert!(w.has_next_page);
    let w = page_window(Some(0), Some(3), None, Some(1), 5);
    assert_eq!((w.from, w.to, w.has_previous_page, w.has_next_page), (2, 3, true, true));
}

#[test]
fn custom_errors() {
    assert_eq!(CustomError::from_draw(0), CustomError::CustomOne);
    assert_eq!(CustomError::from_draw(3), CustomError::CustomFour);
    assert_eq!(CustomError::from_draw(9), CustomError::CustomFour);
    assert_eq!(CustomError::CustomOne.status_code(), 403);
    assert_eq!(CustomError::CustomTwo.status_code(), 401);
    assert_eq!(CustomError::CustomThree.status_code(), 500);
    assert_eq!(CustomError::CustomFour.status_code(), 400);
    assert_eq!(CustomError::CustomTwo.message(), "Custom Error 2");
    assert_eq!(handler_status(Ok(())), 200);
    assert_eq!(handler_status(Err(CustomError::CustomThree)), 500);
    let mut seen = std::collections::HashSet::new();
    for _ in 0..1000 {
        seen.insert(random_custom_error().status_code());
    }
    assert_eq!(seen.len(), 4);
    let outcomes: Vec<bool> = (0..500).map(|_| do_something_random().is_ok()).collect();
    assert!(outcomes.iter().any(|ok| *ok));
    assert!(outcomes.iter().any(|ok| !*ok));
    assert_eq!(outcome_of(true, CustomError::CustomTwo), Ok(()));
    assert_eq!(outcome_of(false, CustomError::CustomTwo), Err(CustomError::CustomTwo));
}

#[test]
fn json_rpc_methods() {
    let mut net = ObjNetwork::new();
    assert!(matches!(rpc_select(&mut net, "ping", &vec![]), Ok(RpcStep::Reply(RpcValue::Str(ref s))) if s == "pong"));
    assert!(matches!(rpc_select(&mut net, "get", &vec![]), Ok(RpcStep::Reply(RpcValue::Num(0)))));
    assert!(matches!(rpc_select(&mut net, "inc", &vec![]), Ok(RpcStep::Reply(RpcValue::Null))));
    assert!(matches!(rpc_select(&mut net, "get", &vec![]), Ok(RpcStep::Reply(RpcValue::Num(1)))));
    assert!(matches!(rpc_select(&mut net, "wait", &vec![Some(2)]), Ok(RpcStep::Wait(2))));
    assert!(matches!(rpc_select(&mut net, "wait", &vec![None]), Err(ErrorData::Std(-32602))));
    assert!(matches!(rpc_select(&mut net, "wait", &vec![Some(1), Some(2)]), Err(ErrorData::Std(-32602))));
    assert!(matches!(rpc_select(&mut net, "nope", &vec![]), Err(ErrorData::Std(-32601))));
    assert!(matches!(wait_outcome(Err("boom".to_owned())), Err(ErrorData::Custom(500, ref m)) if m == "boom"));
}

#[test]
fn body_limits() {
    let mut b = BodyBuffer::new();
    assert!(b.extend(&[1, 2, 3]).is_ok());
    assert_eq!(b.as_slice(), &[1, 2, 3]);
    let big = vec![0u8; MAX_SIZE];
    assert_eq!(b.extend(&big), Err(PayloadError::Overflow));
    assert_eq!(b.len(), 3);
    let chunks = vec![vec![1u8; 100], vec![2u8; 50]];
    let body = read_body(&chunks).unwrap();
    assert_eq!(body.len(), 150);
    let too_big = vec![vec![0u8; MAX_SIZE], vec![1u8]];
    assert!(read_body(&too_big).is_err());
    assert_eq!(PayloadError::Overflow.message(), "overflow");
    assert_eq!(PayloadError::JsonDecodeFailed.status_code(), 400);
}

#[test]
fn proxy_rules() {
    assert_eq!(forward_path("/using-reqwest/a/b"), "/a/b");
    assert_eq!(forward_path("/other"), "/other");
    assert_eq!(forward_path("/using-reqwest"), "");
    assert_eq!(forwarded_for(None, "10.0.0.1"), "10.0.0.1");
    assert_eq!(forwarded_for(Some("1.2.3.4"), "10.0.0.1"), "1.2.3.4, 10.0.0.1");
    let hs = vec![
        Header { name: "content-type".to_owned(), value: b"text/plain".to_vec() },
        Header { name: "connection".to_owned(), value: b"close".to_vec() },
        Header { name: "x-a".to_owned(), value: b"1".to_vec() },
    ];
    let out = response_headers(hs);
    assert_eq!(out.iter().map(|h| h.name.as_str()).collect::<Vec<_>>(), vec!["content-type", "x-a"]);
}

#[test]
fn uploads() {
    let f = TempFile::new("../etc/pass?wd");
    assert!(!f.name().contains('/'));
    assert!(!f.name().contains('?'));
    assert_eq!(f.path(), format!("./tmp/{}", f.name()));
    assert_eq!(upload_path("a.txt"), "./tmp/a.txt");
    assert!(is_text_field("text/plain"));
    assert!(is_text_field("application/octet-stream"));
    assert!(!is_text_field("image/png"));
    assert_eq!(text_value(vec![Some("a".to_owned()), None, Some("b".to_owned()), None]), "b");
    assert_eq!(text_value(vec![None]), "");
    let generated = upload_file_name(None);
    assert_eq!(generated.len(), 36);
    assert_eq!(upload_file_name(Some("x:y.txt")), "xy.txt");
    assert!(matches!(classify_field(Some("meta"), Some("f.txt")), FieldRole::Meta));
    assert!(matches!(classify_field(Some("file"), Some("f.txt")), FieldRole::File(ref t) if t.name() == "f.txt"));
    assert!(matches!(classify_field(Some("other"), None), FieldRole::Skip));
    assert_eq!(key_prefix("ns"), "uploads/ns/");
    assert_eq!(object_key("uploads/ns/", "f.txt"), "uploads/ns/f.txt");
    assert_eq!(object_url("bkt", "eu-west-1", "k"), "https://bkt.s3.eu-west-1.amazonaws.com/k");
}

#[test]
fn cache_replies() {
    let ok = || Ok(RespValue::SimpleString("OK".to_owned()));
    let r = cache::cache_reply(&vec![ok(), ok(), ok()]);
    assert_eq!((r.status, r.body.as_str()), (200, "successfully cached values"));
    let r = cache::cache_reply(&vec![ok(), Ok(RespValue::Integer(1)), ok()]);
    assert_eq!((r.status, r.body.as_str()), (500, ""));
    let r = cache::cache_reply(&vec![ok(), Err(()), ok()]);
    assert_eq!(r.status, 500);
    assert_eq!(cache::delete_reply(&Ok(RespValue::Integer(3))).status, 200);
    assert_eq!(cache::delete_reply(&Ok(RespValue::Integer(2))).status, 500);
    assert_eq!(cache::mset_reply("OK").status, 200);
    assert_eq!(cache::del_count_reply(2).status, 500);
    let pairs = cache::cache_pairs(
        CacheInfo { one: "1".to_owned(), two: "2".to_owned(), three: "3".to_owned() },
        cache::actor_keys(),
    );
    assert_eq!(pairs[2], ("mydomain:three", "3".to_owned()));
    assert_eq!(cache::client_keys()[0], "my_domain:one");
}

#[test]
fn json_answers() {
    assert_eq!(json_api::greet(&Info { name: "Ann".to_owned() }), "Hello Ann!");
    assert_eq!(json_api::json_error_status(JsonPayloadKind::ContentType), 415);
    assert_eq!(json_api::json_error_status(JsonPayloadKind::DeserializeData), 422);
    assert_eq!(json_api::json_error_status(JsonPayloadKind::Other), 400);
    let e = json_api::index().unwrap_err();
    assert_eq!(e.status_code(), 400);
    assert_eq!(e.message(), "an example error message");
    assert!(SomeData { id: "1".to_owned(), name: "n".to_owned() }.validate().is_ok());
    let err = SomeData { id: String::new(), name: "x".repeat(101) }.validate().unwrap_err();
    assert!(err.id && err.name);
    let err = SomeData { id: "i".to_owned(), name: String::new() }.validate().unwrap_err();
    assert!(!err.id && err.name);
}

#[test]
fn records_and_accounts() {
    let r = add_user_reply(Ok(()));
    assert_eq!((r.status, r.body.as_str()), (200, "user added"));
    let r = add_user_reply(Err("dup".to_owned()));
    assert_eq!((r.status, r.body.as_str()), (500, "dup"));
    assert_eq!(user_not_found("jd"), "No user found with username jd");
    assert_eq!(NewItem::new("Test item").name, "Test item");
    let t = Todo::updated(4, TodoRequest { description: "d".to_owned(), done: true });
    assert_eq!((t.id, t.description.as_str(), t.done), (4, "d", true));
    assert!(!Todo::update_found(0));
    let u = User::from_row(("1".to_owned(), "n".to_owned(), "e".to_owned()));
    assert_eq!((u.id(), u.name(), u.email()), ("1", "n", "e"));
    assert!(UserQuery::user_from_lookup(Err(())).is_err());
    let found = UserQuery::user_from_lookup(Ok(Some(("7".to_owned(), "Ann".to_owned(), "a@x".to_owned())))).unwrap();
    assert_eq!((found.id.as_str(), found.name.as_str(), found.email.as_str()), ("7", "Ann", "a@x"));
    let all = UserQuery::users_from_rows(vec![
        ("1".to_owned(), "a".to_owned(), "a@x".to_owned()),
        ("2".to_owned(), "b".to_owned(), "b@x".to_owned()),
    ]);
    assert_eq!(all.iter().map(|u| u.id.as_str()).collect::<Vec<_>>(), vec!["1", "2"]);
    let id = MutationRoot::new_user_id();
    assert_eq!(id.len(), 32);
    let created = MutationRoot::created_user(id.clone(), UserInput { name: "n".to_owned(), email: "e".to_owned() }, Ok(())).unwrap();
    assert_eq!(created.id, id);
    let failed = MutationRoot::created_user("x".to_owned(), UserInput { name: "n".to_owned(), email: "e".to_owned() }, Err(InsertFailure::Other)).unwrap_err();
    assert_eq!(failed.message, "Failed to create new user");
    assert_eq!(failed.value, "internal error");
    assert_eq!(failure_message(InsertFailure::Server("dup key".to_owned())), "dup key");
}

#[test]
fn acme_steps() {
    assert_eq!(acme::contact("a@b.c"), vec!["mailto:a@b.c".to_owned()]);
    assert_eq!(acme::challenge_path("tok"), "acme-challenge/tok");
    assert!(matches!(acme::order_step(true, None), acme::OrderStep::Finalize));
    assert!(matches!(acme::order_step(false, None), acme::OrderStep::Fail("no HTTP challenge accessible")));
    match acme::order_step(false, Some(("t".to_owned(), "p".to_owned()))) {
        acme::OrderStep::Prove { path, proof } => {
            assert_eq!(path, "acme-challenge/t");
            assert_eq!(proof, "p");
        }
        _ => panic!("expected a proof step"),
    }
    assert_eq!(acme::restart_after_secs(), 2_419_200);
}
