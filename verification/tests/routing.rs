use pos_rust_local_backend::app_context::AppContext;
use pos_rust_local_backend::routes_config::{
    AppRoutes, DispatchOutcome, Method, RouteConflict, Routes,
};
use pos_rust_local_backend::tasks_controller::{routes, TaskAction};

fn ctx() -> AppContext<u8, u8> {
    AppContext::new(0u8, 0u8, false)
}

#[test]
fn prefix_concatenation_is_literal() {
    let app = AppRoutes::with_default_routes()
        .prefix("/api")
        .add_route(Routes::at("/tasks").add("/", vec![(Method::Get, 1u8)]));
    let d = app.into_router(ctx()).expect("no conflict");
    assert_eq!(d.groups.len(), 1);
    assert_eq!(d.groups[0].prefix, "/api/tasks");
}

#[test]
fn prefix_concatenation_keeps_doubled_separator() {
    let app = AppRoutes::with_default_routes()
        .prefix("/api/")
        .add_route(Routes::at("/tasks").add("/", vec![(Method::Get, 1u8)]));
    let d = app.into_router(ctx()).expect("no conflict");
    assert_eq!(d.groups[0].prefix, "/api//tasks");
}

#[test]
fn last_prefix_call_wins() {
    let app = AppRoutes::with_default_routes()
        .prefix("/v1")
        .prefix("/api")
        .add_route(Routes::new().prefix("/a").prefix("/tasks").add("/", vec![(Method::Get, 1u8)]));
    let d = app.into_router(ctx()).expect("no conflict");
    assert_eq!(d.groups[0].prefix, "/api/tasks");
}

#[test]
fn identical_mount_paths_fail_at_boot() {
    let app = AppRoutes::with_default_routes()
        .prefix("/api")
        .add_route(Routes::at("/tasks").add("/", vec![(Method::Get, 1u8)]))
        .add_route(Routes::at("/tasks").add("/x", vec![(Method::Get, 2u8)]));
    let err: RouteConflict = app.into_router(ctx()).err().expect("must conflict");
    assert_eq!(err.path, "/api/tasks");
}

#[test]
fn distinct_mount_paths_compile() {
    let app = AppRoutes::with_default_routes()
        .prefix("/api")
        .add_route(Routes::at("/tasks").add("/", vec![(Method::Get, 1u8)]))
        .add_route(Routes::at("/users").add("/", vec![(Method::Get, 2u8)]));
    assert!(app.into_router(ctx()).is_ok());
}

fn task_dispatcher(
) -> pos_rust_local_backend::routes_config::Dispatcher<TaskAction, u8, u8> {
    AppRoutes::with_default_routes()
        .add_route(routes())
        .into_router(ctx())
        .expect("no conflict")
}

#[test]
fn composed_route_tree_compiles_and_serves_the_task_group() {
    let context = ctx();
    let tree = pos_rust_local_backend::routes(&context);
    let d = tree.into_router(context).expect("no conflict");
    assert_eq!(d.groups.len(), 1);
    assert_eq!(d.groups[0].prefix, "/api/tasks");
    match d.dispatch("/api/tasks/8", Method::Get) {
        DispatchOutcome::Found { action, params } => {
            assert_eq!(action, TaskAction::GetTask);
            assert_eq!(params[0].1, "8");
        }
        _ => panic!("expected a match"),
    }
}

#[test]
fn dispatch_list_tasks() {
    let d = task_dispatcher();
    match d.dispatch("/api/tasks/", Method::Get) {
        DispatchOutcome::Found { action, params } => {
            assert_eq!(action, TaskAction::ListTasks);
            assert!(params.is_empty());
        }
        _ => panic!("expected a match"),
    }
}

#[test]
fn dispatch_create_task() {
    let d = task_dispatcher();
    match d.dispatch("/api/tasks/", Method::Post) {
        DispatchOutcome::Found { action, .. } => assert_eq!(action, TaskAction::CreateTask),
        _ => panic!("expected a match"),
    }
}

#[test]
fn dispatch_captures_id_parameter() {
    let d = task_dispatcher();
    match d.dispatch("/api/tasks/57", Method::Get) {
        DispatchOutcome::Found { action, params } => {
            assert_eq!(action, TaskAction::GetTask);
            assert_eq!(params.len(), 1);
            assert_eq!(params[0].0, "id");
            assert_eq!(params[0].1, "57");
        }
        _ => panic!("expected a match"),
    }
}

#[test]
fn dispatch_patch_and_delete() {
    let d = task_dispatcher();
    match d.dispatch("/api/tasks/3", Method::Patch) {
        DispatchOutcome::Found { action, .. } => assert_eq!(action, TaskAction::UpdateTask),
        _ => panic!("expected a match"),
    }
    match d.dispatch("/api/tasks/3", Method::Delete) {
        DispatchOutcome::Found { action, .. } => assert_eq!(action, TaskAction::DeleteTask),
        _ => panic!("expected a match"),
    }
}

#[test]
fn dispatch_unknown_path_is_not_found() {
    let d = task_dispatcher();
    assert!(matches!(d.dispatch("/api/users/", Method::Get), DispatchOutcome::NotFound));
    assert!(matches!(d.dispatch("/api/tasks", Method::Get), DispatchOutcome::NotFound));
}

#[test]
fn dispatch_wrong_method_is_method_not_allowed() {
    let d = task_dispatcher();
    assert!(matches!(
        d.dispatch("/api/tasks/", Method::Delete),
        DispatchOutcome::MethodNotAllowed
    ));
    assert!(matches!(
        d.dispatch("/api/tasks/9", Method::Post),
        DispatchOutcome::MethodNotAllowed
    ));
}

#[test]
fn parameter_does_not_match_empty_segment() {
    let d = task_dispatcher();
    // "/api/tasks/" ends in an empty segment, which `{id}` must not absorb;
    // it matches the collection pattern instead.
    match d.dispatch("/api/tasks/", Method::Get) {
        DispatchOutcome::Found { action, .. } => assert_eq!(action, TaskAction::ListTasks),
        _ => panic!("expected the collection handler"),
    }
}
