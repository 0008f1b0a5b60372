use actix_examples::forms::legacy;
use std::collections::HashMap;

use actix_examples::forms::{handle_post_1, handle_post_2, handle_post_3, AppState, MyParams, TextResponse};
use actix_web::body::to_bytes;
use actix_web::http::{header::CONTENT_TYPE, StatusCode};
use actix_web::{web, App, HttpResponse};
use actix_examples::greetings;
use actix_examples::guards::{hello_for, route_hello, v1, v2, ApiVersion};

#[test]
fn test_index() {
    assert_eq!(greetings::index(), "Hello world!");
}

#[test]
fn handle_post_1_unit_test() {
    let params = MyParams { name: "John".to_owned() };
    let resp = handle_post_1(&params);
    assert_eq!(resp.status, 200);
    assert_eq!(resp.content_type, "text/plain");
    assert_eq!(resp.body, "Your name is John");
}

#[test]
fn handle_post_1_integration_test() {
    let (status, content_type, body) = post_form("/post1", "John");
    assert_eq!(status, 200);
    assert_eq!(content_type, "text/plain");
    assert_eq!(body, "Your name is John");
}

#[test]
fn handle_post_2_unit_test() {
    let state = AppState { foo: "bar".to_owned() };
    let params = MyParams { name: "John".to_owned() };
    let resp = handle_post_2(&state, &params);
    assert_eq!(resp.status, 200);
    assert_eq!(resp.content_type, "text/plain");
    assert_eq!(resp.body, "Your name is John, and in AppState I have foo: bar");
}

#[test]
fn handle_post_2_integration_test() {
    let (status, content_type, body) = post_form("/post2", "John");
    assert_eq!(status, 200);
    assert_eq!(content_type, "text/plain");
    assert_eq!(body, "Your name is John, and in AppState I have foo: bar");
}

#[test]
fn handle_post_3_unit_test() {
    let resp = handle_post_3(&MyParams { name: "John".to_owned() });
    assert_eq!(resp.status, 200);
    assert_eq!(resp.content_type, "text/plain");
    assert_eq!(resp.body, "Your name is John");
}

#[test]
fn handle_post_3_integration_test() {
    let (status, content_type, body) = post_form("/post3", "John");
    assert_eq!(status, 200);
    assert_eq!(content_type, "text/plain");
    assert_eq!(body, "Your name is John");
}

#[test]
fn legacy_form_handlers_answer_alike() {
    let params = legacy::MyParams { name: "Ann".to_owned() };
    assert_eq!(legacy::handle_post_1(&params).body, "Your name is Ann");
    assert_eq!(
        legacy::handle_post_2(&AppState::new(), &params).body,
        "Your name is Ann, and in AppState I have foo: bar"
    );
    assert_eq!(legacy::handle_post_3(&params).body, "Your name is Ann");
}

#[test]
fn api_versioning() {
    assert_eq!(get_hello("1"), (200, "Hello World from v1 API!".to_owned()));
    assert_eq!(get_hello("2"), (200, "Hello World from the awesome new v2 API!".to_owned()));
    let v = route_hello(Some(b"1")).expect("v1 routed");
    assert_eq!(v, ApiVersion::V1);
    assert_eq!(hello_for(v), "Hello World from v1 API!");
    let v = route_hello(Some(b"2")).expect("v2 routed");
    assert_eq!(v, ApiVersion::V2);
    assert_eq!(hello_for(v), "Hello World from the awesome new v2 API!");
}

#[test]
fn unknown_or_missing_version_is_not_routed() {
    assert_eq!(route_hello(Some(b"3")), None);
    assert_eq!(route_hello(Some(b"12")), None);
    assert_eq!(route_hello(Some(b"")), None);
    assert_eq!(route_hello(None), None);
    assert!(!v1::ApiGuard.check(Some(b"2")));
    assert!(!v2::ApiGuard.check(Some(b"1")));
    assert!(v1::ApiGuard.check(Some(b"1")));
    assert!(v2::ApiGuard.check(Some(b"2")));
}

#[test]
fn fixed_answers() {
    assert_eq!(greetings::again(), "Hello world again!");
    assert_eq!(greetings::https_index(), "Hello HTTPS World!");
    assert_eq!(greetings::image_status(200), 200);
    assert_eq!(greetings::image_status(204), 200);
    assert_eq!(greetings::image_status(404), 500);
    assert_eq!(greetings::handle_packet(0), greetings::PacketAction::Stop);
    assert_eq!(greetings::handle_packet(16), greetings::PacketAction::Report(16));
    assert_eq!(actix_examples::guards::vary_header(), ("Vary", "Accept-Version"));
}

fn reply(r: TextResponse) -> HttpResponse {
    HttpResponse::build(StatusCode::from_u16(r.status).unwrap()).content_type(r.content_type).body(r.body)
}

fn posted(form: &HashMap<String, String>) -> MyParams {
    MyParams { name: form.get("name").cloned().unwrap_or_default() }
}

fn form_routes(config: &mut web::ServiceConfig) {
    config.service(
        web::scope("")
            .app_data(web::Data::new(AppState::new()))
            .route(
                "/post1",
                web::post().to(|f: web::Form<HashMap<String, String>>| async move { reply(handle_post_1(&posted(&f))) }),
            )
            .route(
                "/post2",
                web::post().to(|state: web::Data<AppState>, f: web::Form<HashMap<String, String>>| async move {
                    reply(handle_post_2(state.get_ref(), &posted(&f)))
                }),
            )
            .route(
                "/post3",
                web::post().to(|f: web::Form<HashMap<String, String>>| async move { reply(handle_post_3(&posted(&f))) }),
            ),
    );
}

/// Posts a form with the given name through the routes and reads the answer.
fn post_form(uri: &str, name: &str) -> (u16, String, String) {
    actix_web::rt::System::new().block_on(async {
        let app = actix_web::test::init_service(App::new().configure(form_routes)).await;
        let req = actix_web::test::TestRequest::post().uri(uri).set_form([("name", name)]).to_request();
        let resp = actix_web::test::call_service(&app, req).await;
        let status = resp.status().as_u16();
        let content_type = resp.headers().get(CONTENT_TYPE).unwrap().to_str().unwrap().to_owned();
        let body = to_bytes(resp.into_body()).await.unwrap();
        (status, content_type, String::from_utf8(body.to_vec()).unwrap())
    })
}

fn version_header<'a>(ctx: &'a actix_web::guard::GuardContext<'_>) -> Option<&'a [u8]> {
    ctx.head().headers().get(actix_examples::guards::VERSION_HEADER).map(|h| h.as_bytes())
}

/// Sends `GET /api/hello` with the given version through guarded scopes.
fn get_hello(version: &str) -> (u16, String) {
    actix_web::rt::System::new().block_on(async {
        let app = actix_web::test::init_service(
            App::new()
                .service(
                    web::scope("/api")
                        .guard(actix_web::guard::fn_guard(|ctx| v1::ApiGuard.check(version_header(ctx))))
                        .route("/hello", web::get().to(|| async { v1::hello() })),
                )
                .service(
                    web::scope("/api")
                        .guard(actix_web::guard::fn_guard(|ctx| v2::ApiGuard.check(version_header(ctx))))
                        .route("/hello", web::get().to(|| async { v2::hello() })),
                ),
        )
        .await;
        let req = actix_web::test::TestRequest::with_uri("/api/hello").insert_header(("Accept-Version", version)).to_request();
        let resp = actix_web::test::call_service(&app, req).await;
        let status = resp.status().as_u16();
        let body = to_bytes(resp.into_body()).await.unwrap();
        (status, String::from_utf8(body.to_vec()).unwrap())
    })
}
