use vstd::prelude::*;
use vstd::string::*;

use crate::errors::Error;
use crate::format::{dec_rep, json_string_of, json_quote, u16_dec, Body, Response};
use crate::format::{STATUS_CREATED, STATUS_OK};
use crate::routes_config::{Method, Routes};

verus! {

/// The actions the task endpoints bind; the embedding server maps each to
/// its handler around the persistence collaborator.
#[derive(Clone, Copy, PartialEq, Eq, Structural, Debug)]
pub enum TaskAction {
    ListTasks,
    CreateTask,
    GetTask,
    UpdateTask,
    DeleteTask,
}

/// A stored task, as plain values: what the handlers read of the
/// persistence collaborator's record.
#[derive(Clone, Debug)]
pub struct TaskRecord {
    pub id: u16,
    pub title: String,
    pub description: String,
}

/// A create request's body.
#[derive(Debug)]
pub struct CreateTask {
    pub title: String,
    pub description: String,
}

/// An update request's body.
#[derive(Debug)]
pub struct UpdateTask {
    pub title: String,
    pub description: String,
}

/// The task route group, exactly: mounted at `/api/tasks`, the collection
/// pattern `/` binding list and create, the item pattern `/{id}` binding
/// fetch, update and delete.
pub open spec fn is_task_group(r: Routes<TaskAction>) -> bool {
    &&& r.prefix matches Some(p) && p@ == "/api/tasks"@
    &&& r.handlers@.len() == 2
    &&& r.handlers@[0].uri@ == "/"@
    &&& r.handlers@[0].actions@ == seq![
        (Method::Get, TaskAction::ListTasks),
        (Method::Post, TaskAction::CreateTask),
    ]
    &&& r.handlers@[1].uri@ == "/{id}"@
    &&& r.handlers@[1].actions@ == seq![
        (Method::Get, TaskAction::GetTask),
        (Method::Patch, TaskAction::UpdateTask),
        (Method::Delete, TaskAction::DeleteTask),
    ]
}

/// The route group of the task endpoints.
pub fn routes() -> (r: Routes<TaskAction>)
    ensures
        is_task_group(r),
{
    let collection_actions = vec![
        (Method::Get, TaskAction::ListTasks),
        (Method::Post, TaskAction::CreateTask),
    ];
    let item_actions = vec![
        (Method::Get, TaskAction::GetTask),
        (Method::Patch, TaskAction::UpdateTask),
        (Method::Delete, TaskAction::DeleteTask),
    ];
    let r = Routes::new().prefix("/api/tasks").add("/", collection_actions).add(
        "/{id}",
        item_actions,
    );
    proof {
        assert(r.handlers@[0].actions@ =~= seq![
            (Method::Get, TaskAction::ListTasks),
            (Method::Post, TaskAction::CreateTask),
        ]);
        assert(r.handlers@[1].actions@ =~= seq![
            (Method::Get, TaskAction::GetTask),
            (Method::Patch, TaskAction::UpdateTask),
            (Method::Delete, TaskAction::DeleteTask),
        ]);
    }
    r
}

/// The serialized JSON object for one task record.
pub open spec fn task_json(t: TaskRecord) -> Seq<char> {
    "{\"id\":"@ + dec_rep(t.id as nat) + ",\"title\":"@ + json_string_of(t.title@)
        + ",\"description\":"@ + json_string_of(t.description@) + "}"@
}

/// The comma-separated JSON objects of the records, in order.
pub open spec fn joined_tasks(ts: Seq<TaskRecord>) -> Seq<char>
    decreases ts.len(),
{
    if ts.len() == 0 {
        Seq::empty()
    } else if ts.len() == 1 {
        task_json(ts[0])
    } else {
        joined_tasks(ts.drop_last()) + ","@ + task_json(ts.last())
    }
}

/// The serialized JSON array of the records, in order.
pub open spec fn tasks_array_json(ts: Seq<TaskRecord>) -> Seq<char> {
    "["@ + joined_tasks(ts) + "]"@
}

/// Law: listing an empty store yields exactly the empty JSON array (with
/// status 200 by [`get_tasks`]'s contract), never an error.
pub proof fn lemma_empty_listing()
    ensures
        tasks_array_json(Seq::<TaskRecord>::empty()) == "[]"@,
{
    reveal_strlit("[");
    reveal_strlit("]");
    reveal_strlit("[]");
    assert(tasks_array_json(Seq::<TaskRecord>::empty()) =~= "[]"@);
}

/// Serialize one task record.
fn render_task(t: &TaskRecord) -> (b: String)
    ensures
        b@ == task_json(*t),
{
    let mut b = String::from_str("{\"id\":");
    b.append(u16_dec(t.id).as_str());
    b.append(",\"title\":");
    b.append(json_quote(t.title.as_str()).as_str());
    b.append(",\"description\":");
    b.append(json_quote(t.description.as_str()).as_str());
    b.append("}");
    proof {
        assert(b@ =~= task_json(*t));
    }
    b
}

/// List tasks: shape the records the store returned as a JSON array with
/// status 200. An empty store gives the empty array, not an error.
pub fn get_tasks(tasks: Vec<TaskRecord>) -> (r: crate::Result<Response>)
    ensures
        r matches Ok(resp) && resp.status == STATUS_OK && (resp.body matches Body::Json(b) && b@
            == tasks_array_json(tasks@)),
{
    let mut b = String::from_str("[");
    let mut i: usize = 0;
    while i < tasks.len()
        invariant
            0 <= i <= tasks@.len(),
            b@ == "["@ + joined_tasks(tasks@.take(i as int)),
        decreases tasks@.len() - i,
    {
        if i > 0 {
            b.append(",");
        }
        b.append(render_task(&tasks[i]).as_str());
        proof {
            let upto = tasks@.take(i as int + 1);
            assert(upto.drop_last() =~= tasks@.take(i as int));
            assert(upto.last() == tasks@[i as int]);
            if i == 0 {
                assert(joined_tasks(tasks@.take(0)) == Seq::<char>::empty());
                assert(b@ =~= "["@ + joined_tasks(upto));
            } else {
                assert(b@ =~= "["@ + joined_tasks(upto));
            }
        }
        i += 1;
    }
    proof {
        assert(tasks@.take(tasks@.len() as int) =~= tasks@);
    }
    b.append("]");
    proof {
        assert(b@ =~= tasks_array_json(tasks@));
    }
    crate::format::json(b)
}

/// Fetch one task: shape the store's optional record as a JSON array with
/// zero or one element, status 200.
pub fn get_task(found: Option<TaskRecord>) -> (r: Response)
    ensures
        r.status == STATUS_OK,
        r.body matches Body::Json(b) && b@ == match found {
            Some(t) => "["@ + task_json(t) + "]"@,
            None => "[]"@,
        },
{
    match found {
        Some(t) => {
            let mut b = String::from_str("[");
            b.append(render_task(&t).as_str());
            b.append("]");
            proof {
                assert(b@ =~= "["@ + task_json(t) + "]"@);
            }
            Response { status: STATUS_OK, body: Body::Json(b) }
        },
        None => {
            let b = String::from_str("[]");
            Response { status: STATUS_OK, body: Body::Json(b) }
        },
    }
}

/// Create a task: shape the record the store persisted as the creation
/// response, status 201 with the new id and title.
pub fn create_task(stored: &TaskRecord) -> (r: Response)
    ensures
        r.status == STATUS_CREATED,
        r.body matches Body::Json(b) && b@ == "{\"id\":"@ + dec_rep(stored.id as nat)
            + ",\"title\":"@ + json_string_of(stored.title@) + "}"@,
{
    let mut b = String::from_str("{\"id\":");
    b.append(u16_dec(stored.id).as_str());
    b.append(",\"title\":");
    b.append(json_quote(stored.title.as_str()).as_str());
    b.append("}");
    proof {
        assert(b@ =~= "{\"id\":"@ + dec_rep(stored.id as nat) + ",\"title\":"@ + json_string_of(
            stored.title@,
        ) + "}"@);
    }
    Response { status: STATUS_CREATED, body: Body::Json(b) }
}

/// Update a task: an absent id is a not-found failure, never a crash;
/// otherwise the record keeps its id, takes both body fields, and the
/// response is the fixed confirmation message with status 200.
pub fn update_task(found: Option<TaskRecord>, body: UpdateTask) -> (r: crate::Result<
    (TaskRecord, Response),
>)
    ensures
        found is None ==> (r matches Err(e) && e is NotFound),
        found matches Some(t) ==> (r matches Ok((u, resp)) && u.id == t.id && u.title == body.title
            && u.description == body.description && resp.status == STATUS_OK && (
        resp.body matches Body::Json(b) && b@ == "{\"message\":\"Task updated!\"}"@)),
{
    match found {
        None => Err(Error::NotFound),
        Some(t) => {
            let updated = TaskRecord { id: t.id, title: body.title, description: body.description };
            let resp = Response {
                status: STATUS_OK,
                body: Body::Json(String::from_str("{\"message\":\"Task updated!\"}")),
            };
            Ok((updated, resp))
        },
    }
}

/// Delete a task: an absent id is a not-found failure, never a crash;
/// otherwise the fixed confirmation message with status 200.
pub fn delete_taks(found: Option<TaskRecord>) -> (r: crate::Result<Response>)
    ensures
        found is None ==> (r matches Err(e) && e is NotFound),
        found is Some ==> (r matches Ok(resp) && resp.status == STATUS_OK && (
        resp.body matches Body::Json(b) && b@ == "{\"msg\":\"Task deleted! \u{1f980}\"}"@)),
{
    match found {
        None => Err(Error::NotFound),
        Some(_) => Ok(
            Response {
                status: STATUS_OK,
                body: Body::Json(String::from_str("{\"msg\":\"Task deleted! \u{1f980}\"}")),
            },
        ),
    }
}

} // verus!
