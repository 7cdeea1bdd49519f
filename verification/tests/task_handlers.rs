use pos_rust_local_backend::config::Config;
use pos_rust_local_backend::errors::Error;
use pos_rust_local_backend::format::{empty, empty_json, html, json, redirect, text, Body, Response};
use pos_rust_local_backend::tasks_controller::{
    create_task, delete_taks, get_task, get_tasks, update_task, CreateTask, TaskRecord, UpdateTask,
};

fn body_json(r: &Response) -> &str {
    match &r.body {
        Body::Json(s) => s.as_str(),
        _ => panic!("expected a JSON body"),
    }
}

fn record(id: u16, title: &str, description: &str) -> TaskRecord {
    TaskRecord { id, title: String::from(title), description: String::from(description) }
}

#[test]
fn listing_an_empty_store_gives_200_and_an_empty_array() {
    let r = get_tasks(Vec::new()).expect("listing never fails");
    assert_eq!(r.status, 200);
    assert_eq!(body_json(&r), "[]");
}

#[test]
fn listing_serializes_all_records_in_order() {
    let r = get_tasks(vec![record(1, "a", "b"), record(2, "x", "y")]).unwrap();
    assert_eq!(r.status, 200);
    assert_eq!(
        body_json(&r),
        "[{\"id\":1,\"title\":\"a\",\"description\":\"b\"},{\"id\":2,\"title\":\"x\",\"description\":\"y\"}]"
    );
}

#[test]
fn listing_escapes_titles_like_serde_json() {
    let r = get_tasks(vec![record(7, "say \"hi\"", "tab\there")]).unwrap();
    let expected = format!(
        "[{{\"id\":7,\"title\":{},\"description\":{}}}]",
        serde_json::to_string("say \"hi\"").unwrap(),
        serde_json::to_string("tab\there").unwrap()
    );
    assert_eq!(body_json(&r), expected);
}

#[test]
fn fetching_a_present_task_gives_a_one_element_array() {
    let r = get_task(Some(record(3, "a", "b")));
    assert_eq!(r.status, 200);
    assert_eq!(body_json(&r), "[{\"id\":3,\"title\":\"a\",\"description\":\"b\"}]");
}

#[test]
fn fetching_an_absent_task_gives_an_empty_array() {
    let r = get_task(None);
    assert_eq!(r.status, 200);
    assert_eq!(body_json(&r), "[]");
}

#[test]
fn creation_response_is_201_with_id_and_title() {
    let r = create_task(&record(12, "new task", "ignored here"));
    assert_eq!(r.status, 201);
    assert_eq!(body_json(&r), "{\"id\":12,\"title\":\"new task\"}");
}

#[test]
fn creation_renders_the_largest_id() {
    let r = create_task(&record(65535, "t", "d"));
    assert_eq!(body_json(&r), "{\"id\":65535,\"title\":\"t\"}");
}

#[test]
fn create_then_fetch_round_trip_keeps_title_and_description() {
    let body = CreateTask { title: String::from("a"), description: String::from("b") };
    // The store persists exactly the body fields and assigns the id.
    let stored = TaskRecord { id: 1, title: body.title, description: body.description };
    let created = create_task(&stored);
    assert_eq!(created.status, 201);
    assert!(body_json(&created).contains("\"id\":1"));
    let fetched = get_task(Some(stored));
    assert_eq!(fetched.status, 200);
    assert_eq!(body_json(&fetched), "[{\"id\":1,\"title\":\"a\",\"description\":\"b\"}]");
}

#[test]
fn updating_an_absent_task_is_not_found() {
    let body = UpdateTask { title: String::from("t"), description: String::from("d") };
    let r = update_task(None, body);
    assert!(matches!(r, Err(Error::NotFound)));
}

#[test]
fn updating_replaces_both_fields_and_confirms() {
    let body = UpdateTask { title: String::from("new t"), description: String::from("new d") };
    let (updated, resp) = update_task(Some(record(4, "old t", "old d")), body).unwrap();
    assert_eq!(updated.id, 4);
    assert_eq!(updated.title, "new t");
    assert_eq!(updated.description, "new d");
    assert_eq!(resp.status, 200);
    assert_eq!(body_json(&resp), "{\"message\":\"Task updated!\"}");
}

#[test]
fn deleting_an_absent_task_is_not_found_not_a_crash() {
    let r = delete_taks(None);
    let e = r.err().expect("absent id must fail");
    let resp = e.into_response();
    assert_eq!(resp.status, 404);
}

#[test]
fn deleting_a_present_task_confirms() {
    let r = delete_taks(Some(record(9, "t", "d"))).unwrap();
    assert_eq!(r.status, 200);
    assert_eq!(body_json(&r), "{\"msg\":\"Task deleted! \u{1f980}\"}");
}

#[test]
fn format_helpers_build_the_expected_responses() {
    let r = empty().unwrap();
    assert_eq!(r.status, 200);
    assert!(matches!(r.body, Body::Empty));

    let r = text("MESSAGE-RESPONSE").unwrap();
    assert_eq!(r.status, 200);
    assert!(matches!(r.body, Body::Text(ref t) if t == "MESSAGE-RESPONSE"));

    let r = json(String::from("{\"ok\":true}")).unwrap();
    assert_eq!(r.status, 200);
    assert_eq!(body_json(&r), "{\"ok\":true}");

    let r = empty_json().unwrap();
    assert_eq!(body_json(&r), "{}");

    let r = html("<p>hello</p>").unwrap();
    assert_eq!(r.status, 200);
    assert!(matches!(r.body, Body::Html(ref h) if h == "<p>hello</p>"));

    let r = redirect("/dashboard").unwrap();
    assert_eq!(r.status, 303);
    assert!(matches!(r.body, Body::Redirect(ref to) if to == "/dashboard"));
}

#[test]
fn config_keeps_the_chosen_debug_toggle() {
    assert!(Config::new(true).debug_mode);
    assert!(!Config::new(false).debug_mode);
    assert!(!Config::default().debug_mode);
}

#[test]
fn app_context_bundles_handles_and_config() {
    let ctx = pos_rust_local_backend::app_context::AppContext::new(41u32, String::from("cache"), true);
    assert_eq!(ctx.db, 41u32);
    assert_eq!(ctx.cache, "cache");
    assert!(ctx.config.debug_mode);
}
