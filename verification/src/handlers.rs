//! The decisions of the todo handlers. Each handler is split where it waits
//! on the database: a step takes what the database answered and returns
//! either the reply or the next database action.

use vstd::prelude::*;
use vstd::string::StringExecFns;
use crate::ids::{is_random_uuid, new_uuid};
use crate::middleware::AuthGuard;
use crate::models::{
    ApiResponse, CreateTodoReq, CreateTodoResp, FindTodoResp, FlagDoneTodoResp, GetTodoResp,
    PaginationResp, Todo, UpdateTodoResp,
};
use crate::models::PaginationQuery;
use crate::pagination::{
    pages_for, requested_page, requested_size, resolve_page, serviceable, total_pages, PageRequest,
};
use crate::time::{now, Timestamp};
use crate::validate::{create_todo_failures, error_message, failure_message, failure_pairs};

verus! {

/// Status of a read or update that succeeded.
pub const OK: u16 = 200u16;
/// Status of a creation.
pub const CREATED: u16 = 201u16;
/// Status of a deletion.
pub const NO_CONTENT: u16 = 204u16;
/// Status of a body that fails validation.
pub const BAD_REQUEST: u16 = 400u16;
/// Status of a todo that is absent or hidden from the caller.
pub const NOT_FOUND: u16 = 404u16;
/// Status of a database failure.
pub const INTERNAL_SERVER_ERROR: u16 = 500u16;

/// The reply of a todo that is absent or hidden.
pub open spec fn is_not_found<T>(r: (u16, ApiResponse<T>), t_in: Timestamp) -> bool {
    r.0 == NOT_FOUND && r.1.is_error_of(t_in, NOT_FOUND, "data not found"@)
}

/// The reply of a database failure with message `msg`.
pub open spec fn is_db_failure<T>(r: (u16, ApiResponse<T>), t_in: Timestamp, msg: Seq<char>) -> bool {
    r.0 == INTERNAL_SERVER_ERROR && r.1.is_error_of(t_in, INTERNAL_SERVER_ERROR, msg)
}

/// The reply of a body that fails validation with these failures.
pub open spec fn is_rejected_body<T>(
    r: (u16, ApiResponse<T>),
    t_in: Timestamp,
    failures: Seq<(Seq<char>, Seq<char>)>,
) -> bool {
    r.0 == BAD_REQUEST && r.1.is_error_of(t_in, BAD_REQUEST, failure_message(failures))
}

/// A new todo of `user_id` from the body: a random (version 4) id, not
/// completed, with valid clock readings (not before 1970) as instants.
pub open spec fn is_new_todo(t: Todo, user_id: u128, body: CreateTodoReq) -> bool {
    &&& is_random_uuid(t.id)
    &&& t.created_at.secs >= 0
    &&& t.updated_at.secs >= 0
    &&& t.user_id == user_id
    &&& t.title == body.title
    &&& t.description == body.description
    &&& !t.is_completed
    &&& t.created_at.wf()
    &&& t.updated_at.wf()
}

/// `t` is `old` with the body's title, description and completion, and a
/// valid clock reading (not before 1970) as update instant.
pub open spec fn is_updated_todo(t: Todo, old: Todo, body: CreateTodoReq) -> bool {
    &&& t.updated_at.secs >= 0
    &&& t.id == old.id
    &&& t.user_id == old.user_id
    &&& t.title == body.title
    &&& t.description == body.description
    &&& t.is_completed == body.is_completed
    &&& t.created_at == old.created_at
    &&& t.updated_at.wf()
}

/// `t` is `old` marked completed, with a valid clock reading (not before
/// 1970) as update instant.
pub open spec fn is_flagged_todo(t: Todo, old: Todo) -> bool {
    &&& t.updated_at.secs >= 0
    &&& t.id == old.id
    &&& t.user_id == old.user_id
    &&& t.title == old.title
    &&& t.description == old.description
    &&& t.is_completed
    &&& t.created_at == old.created_at
    &&& t.updated_at.wf()
}

/// The reply data of a created todo.
pub open spec fn create_resp_of(d: Todo) -> CreateTodoResp {
    CreateTodoResp {
        id: d.id,
        title: d.title,
        description: d.description,
        is_completed: d.is_completed,
        created_at: d.created_at,
        updated_at: d.updated_at,
    }
}

/// The reply data of a todo looked up by id.
pub open spec fn find_resp_of(d: Todo) -> FindTodoResp {
    FindTodoResp {
        id: d.id,
        title: d.title,
        description: d.description,
        is_completed: d.is_completed,
        created_at: d.created_at,
        updated_at: d.updated_at,
    }
}

/// The listing entry of a todo.
pub open spec fn get_resp_of(d: Todo) -> GetTodoResp {
    GetTodoResp {
        id: d.id,
        title: d.title,
        description: d.description,
        is_completed: d.is_completed,
        created_at: d.created_at,
    }
}

/// The todo a create inserts: the given id and instants, the caller as
/// owner, the body's title and description, not completed.
pub fn new_todo(id: u128, user_id: u128, body: CreateTodoReq, created_at: Timestamp, updated_at: Timestamp) -> (t:
    Todo)
    ensures
        t == (Todo {
            id,
            user_id,
            title: body.title,
            description: body.description,
            is_completed: false,
            created_at,
            updated_at,
        }),
{
    Todo {
        id,
        user_id,
        title: body.title,
        description: body.description,
        is_completed: false,
        created_at,
        updated_at,
    }
}

/// The todo an update stores: `old` with the body's title, description and
/// completion, updated at `at`.
pub fn updated_todo(old: Todo, body: CreateTodoReq, at: Timestamp) -> (t: Todo)
    ensures
        t == (Todo {
            title: body.title,
            description: body.description,
            is_completed: body.is_completed,
            updated_at: at,
            ..old
        }),
{
    Todo {
        id: old.id,
        user_id: old.user_id,
        title: body.title,
        description: body.description,
        is_completed: body.is_completed,
        created_at: old.created_at,
        updated_at: at,
    }
}

/// The todo flagging as done stores: `old` completed, updated at `at`.
pub fn flagged_todo(old: Todo, at: Timestamp) -> (t: Todo)
    ensures
        t == (Todo { is_completed: true, updated_at: at, ..old }),
{
    Todo {
        id: old.id,
        user_id: old.user_id,
        title: old.title,
        description: old.description,
        is_completed: true,
        created_at: old.created_at,
        updated_at: at,
    }
}

/// The query of a listing: the caller's todos only, at the resolved page.
pub struct TodoListQuery {
    /// Only todos of this owner are listed and counted.
    pub owner_id: u128,
    /// The page to fetch.
    pub page: PageRequest,
}

/// The query of a listing for the caller: its own todos, at the page and
/// size asked for (defaults 1 and 10).
pub fn todo_list_query(auth: &AuthGuard, params: &PaginationQuery) -> (q: TodoListQuery)
    requires
        serviceable(*params),
    ensures
        q.owner_id == auth.user_id,
        q.page.page == requested_page(*params),
        q.page.size == requested_size(*params),
        q.page.index == q.page.page - 1,
        q.page.index * q.page.size <= u64::MAX,
{
    TodoListQuery { owner_id: auth.user_id, page: resolve_page(params) }
}

fn not_found<T>(t_in: Timestamp) -> (r: (u16, ApiResponse<T>))
    requires
        t_in.wf(),
    ensures
        is_not_found(r, t_in),
{
    (NOT_FOUND, ApiResponse::error(t_in, NOT_FOUND, String::from_str("data not found")))
}

fn db_failure<T>(t_in: Timestamp, err: String) -> (r: (u16, ApiResponse<T>))
    requires
        t_in.wf(),
    ensures
        is_db_failure(r, t_in, err@),
{
    (INTERNAL_SERVER_ERROR, ApiResponse::error(t_in, INTERNAL_SERVER_ERROR, err))
}

/// The reply to a todo body that fails validation, if it does.
fn rejected_body<T>(t_in: Timestamp, body: &CreateTodoReq) -> (r: Option<(u16, ApiResponse<T>)>)
    requires
        t_in.wf(),
    ensures
        create_todo_failures(*body).len() == 0 ==> r is None,
        create_todo_failures(*body).len() > 0 ==> (r matches Some(rep) && is_rejected_body(
            rep,
            t_in,
            create_todo_failures(*body),
        )),
{
    match body.validate() {
        Ok(()) => None,
        Err(errs) => {
            let msg = error_message(&errs);
            Some((BAD_REQUEST, ApiResponse::error(t_in, BAD_REQUEST, msg)))
        },
    }
}

/// The listing of a page of todos.
pub fn get_todos(t_in: Timestamp, req: PageRequest, total: u64, rows: Vec<Todo>) -> (r: (
    u16,
    ApiResponse<PaginationResp<Vec<GetTodoResp>>>,
))
    requires
        t_in.wf(),
        req.size > 0,
    ensures
        r.0 == OK,
        r.1.stamped(),
        r.1.tin == t_in,
        r.1.status == OK,
        r.1.success,
        r.1.error is None,
        r.1.data matches Some(p) && {
            &&& p.total == total
            &&& p.page == req.page
            &&& p.limit == req.size
            &&& p.total_pages == pages_for(total as int, req.size as int)
            &&& p.list@.len() == rows@.len()
            &&& forall|i: int| 0 <= i < rows@.len() ==> #[trigger] p.list@[i] == get_resp_of(rows@[i])
        },
{
    let mut list: Vec<GetTodoResp> = Vec::new();
    let n = rows.len();
    let mut i: usize = 0;
    while i < n
        invariant
            n == rows@.len(),
            i <= n,
            list@.len() == i,
            forall|j: int| 0 <= j < i ==> #[trigger] list@[j] == get_resp_of(rows@[j]),
        decreases n - i,
    {
        let d = &rows[i];
        list.push(
            GetTodoResp {
                id: d.id,
                title: d.title.clone(),
                description: d.description.clone(),
                is_completed: d.is_completed,
                created_at: d.created_at,
            },
        );
        i = i + 1;
    }
    let resp = PaginationResp {
        list,
        total,
        page: req.page,
        limit: req.size,
        total_pages: total_pages(total, req.size),
    };
    (OK, ApiResponse::success(t_in, OK, resp))
}

/// What creating a todo does next.
pub enum CreateTodoStep {
    /// Answer now.
    Reply(u16, ApiResponse<CreateTodoResp>),
    /// Insert this todo.
    Insert(Todo),
}

/// First step of creating a todo: a 400 reply for a body that fails
/// validation, else the new todo of the caller to insert.
pub fn create_todo(t_in: Timestamp, auth: &AuthGuard, body: CreateTodoReq) -> (r: CreateTodoStep)
    requires
        t_in.wf(),
    ensures
        create_todo_failures(body).len() > 0 ==> (r matches CreateTodoStep::Reply(s, rep)
            && is_rejected_body((s, rep), t_in, create_todo_failures(body))),
        create_todo_failures(body).len() == 0 ==> (r matches CreateTodoStep::Insert(t)
            && is_new_todo(t, auth.user_id, body)),
{
    if let Some(rep) = rejected_body(t_in, &body) {
        return CreateTodoStep::Reply(rep.0, rep.1);
    }
    let id = new_uuid();
    let created_at = now();
    let updated_at = now();
    CreateTodoStep::Insert(new_todo(id, auth.user_id, body, created_at, updated_at))
}

/// Last step of creating a todo, from the result of the insert: 201 with
/// the stored todo (the envelope says 200), or 500 with the database's
/// message.
pub fn create_todo_finish(t_in: Timestamp, inserted: Result<Todo, String>) -> (r: (
    u16,
    ApiResponse<CreateTodoResp>,
))
    requires
        t_in.wf(),
    ensures
        match inserted {
            Ok(d) => r.0 == CREATED && r.1.is_success_of(t_in, OK, create_resp_of(d)),
            Err(e) => is_db_failure(r, t_in, e@),
        },
{
    match inserted {
        Ok(d) => {
            let resp = CreateTodoResp {
                id: d.id,
                title: d.title,
                description: d.description,
                is_completed: d.is_completed,
                created_at: d.created_at,
                updated_at: d.updated_at,
            };
            (CREATED, ApiResponse::success(t_in, OK, resp))
        },
        Err(e) => db_failure(t_in, e),
    }
}

/// What deleting a todo does next.
pub enum DeleteTodoStep {
    /// Answer now.
    Reply(u16, ApiResponse<()>),
    /// Delete this todo.
    Delete(Todo),
}

/// First step of deleting a todo, from the lookup by id: the caller's own
/// todo is deleted; another's, or none, is answered 404; a database failure
/// 500.
pub fn delete_todo(t_in: Timestamp, auth: &AuthGuard, found: Result<Option<Todo>, String>) -> (r:
    DeleteTodoStep)
    requires
        t_in.wf(),
    ensures
        match found {
            Ok(Some(d)) => if d.user_id != auth.user_id {
                r matches DeleteTodoStep::Reply(s, rep) && is_not_found((s, rep), t_in)
            } else {
                r == DeleteTodoStep::Delete(d)
            },
            Ok(None) => r matches DeleteTodoStep::Reply(s, rep) && is_not_found((s, rep), t_in),
            Err(e) => r matches DeleteTodoStep::Reply(s, rep) && is_db_failure((s, rep), t_in, e@),
        },
{
    match found {
        Ok(Some(d)) => {
            if d.user_id != auth.user_id {
                let rep = not_found(t_in);
                DeleteTodoStep::Reply(rep.0, rep.1)
            } else {
                DeleteTodoStep::Delete(d)
            }
        },
        Ok(None) => {
            let rep = not_found(t_in);
            DeleteTodoStep::Reply(rep.0, rep.1)
        },
        Err(e) => {
            let rep = db_failure(t_in, e);
            DeleteTodoStep::Reply(rep.0, rep.1)
        },
    }
}

/// Last step of deleting a todo, from the result of the delete: 204, or
/// 500 with the database's message.
pub fn delete_todo_finish(t_in: Timestamp, deleted: Result<(), String>) -> (r: (
    u16,
    ApiResponse<()>,
))
    requires
        t_in.wf(),
    ensures
        match deleted {
            Ok(()) => r.0 == NO_CONTENT && r.1.is_success_of(t_in, NO_CONTENT, ()),
            Err(e) => is_db_failure(r, t_in, e@),
        },
{
    match deleted {
        Ok(()) => (NO_CONTENT, ApiResponse::success(t_in, NO_CONTENT, ())),
        Err(e) => db_failure(t_in, e),
    }
}

/// Looking a todo up by id, from the lookup: a todo owned by the caller is
/// answered 404, as is no todo; another owner's todo is returned with 200;
/// a database failure is answered 500.
pub fn find_todo(t_in: Timestamp, auth: &AuthGuard, found: Result<Option<Todo>, String>) -> (r: (
    u16,
    ApiResponse<FindTodoResp>,
))
    requires
        t_in.wf(),
    ensures
        match found {
            Ok(Some(d)) => if d.user_id == auth.user_id {
                is_not_found(r, t_in)
            } else {
                r.0 == OK && r.1.is_success_of(t_in, OK, find_resp_of(d))
            },
            Ok(None) => is_not_found(r, t_in),
            Err(e) => is_db_failure(r, t_in, e@),
        },
{
    match found {
        Ok(Some(d)) => {
            if d.user_id == auth.user_id {
                return not_found(t_in);
            }
            let resp = FindTodoResp {
                id: d.id,
                title: d.title,
                description: d.description,
                is_completed: d.is_completed,
                created_at: d.created_at,
                updated_at: d.updated_at,
            };
            (OK, ApiResponse::success(t_in, OK, resp))
        },
        Ok(None) => not_found(t_in),
        Err(e) => db_failure(t_in, e),
    }
}

/// What updating a todo does next.
pub enum UpdateTodoStep {
    /// Answer now.
    Reply(u16, ApiResponse<UpdateTodoResp>),
    /// Store this todo.
    Update(Todo),
}

/// First step of updating a todo: a 400 reply for a body that fails
/// validation, else `None` (look the todo up).
pub fn update_todo(t_in: Timestamp, body: &CreateTodoReq) -> (r: Option<
    (u16, ApiResponse<UpdateTodoResp>),
>)
    requires
        t_in.wf(),
    ensures
        create_todo_failures(*body).len() == 0 ==> r is None,
        create_todo_failures(*body).len() > 0 ==> (r matches Some(rep) && is_rejected_body(
            rep,
            t_in,
            create_todo_failures(*body),
        )),
{
    rejected_body(t_in, body)
}

/// Second step of updating a todo, from the lookup by id: the todo with the
/// body's title, description and completion (whoever owns it), 404 when
/// there is none, 500 on a database failure.
pub fn update_todo_found(t_in: Timestamp, body: CreateTodoReq, found: Result<Option<Todo>, String>) -> (r:
    UpdateTodoStep)
    requires
        t_in.wf(),
    ensures
        match found {
            Ok(Some(d)) => r matches UpdateTodoStep::Update(t) && is_updated_todo(t, d, body),
            Ok(None) => r matches UpdateTodoStep::Reply(s, rep) && is_not_found((s, rep), t_in),
            Err(e) => r matches UpdateTodoStep::Reply(s, rep) && is_db_failure((s, rep), t_in, e@),
        },
{
    match found {
        Ok(Some(d)) => {
            let updated_at = now();
            UpdateTodoStep::Update(updated_todo(d, body, updated_at))
        },
        Ok(None) => {
            let rep = not_found(t_in);
            UpdateTodoStep::Reply(rep.0, rep.1)
        },
        Err(e) => {
            let rep = db_failure(t_in, e);
            UpdateTodoStep::Reply(rep.0, rep.1)
        },
    }
}

/// Last step of updating a todo, from the result of the update: 200 with
/// the todo's id, or 500 with the database's message.
pub fn update_todo_finish(t_in: Timestamp, updated: Result<Todo, String>) -> (r: (
    u16,
    ApiResponse<UpdateTodoResp>,
))
    requires
        t_in.wf(),
    ensures
        match updated {
            Ok(d) => r.0 == OK && r.1.is_success_of(t_in, OK, UpdateTodoResp { id: d.id }),
            Err(e) => is_db_failure(r, t_in, e@),
        },
{
    match updated {
        Ok(d) => (OK, ApiResponse::success(t_in, OK, UpdateTodoResp { id: d.id })),
        Err(e) => db_failure(t_in, e),
    }
}

/// What flagging a todo as done does next.
pub enum FlagDoneTodoStep {
    /// Answer now.
    Reply(u16, ApiResponse<FlagDoneTodoResp>),
    /// Store this todo.
    Update(Todo),
}

/// First step of flagging a todo as done, from the lookup by id: a todo
/// owned by the caller is answered 404, as is no todo; another owner's todo
/// is marked completed; a database failure is answered 500.
pub fn flag_done_todo(t_in: Timestamp, auth: &AuthGuard, found: Result<Option<Todo>, String>) -> (r:
    FlagDoneTodoStep)
    requires
        t_in.wf(),
    ensures
        match found {
            Ok(Some(d)) => if d.user_id == auth.user_id {
                r matches FlagDoneTodoStep::Reply(s, rep) && is_not_found((s, rep), t_in)
            } else {
                r matches FlagDoneTodoStep::Update(t) && is_flagged_todo(t, d)
            },
            Ok(None) => r matches FlagDoneTodoStep::Reply(s, rep) && is_not_found((s, rep), t_in),
            Err(e) => r matches FlagDoneTodoStep::Reply(s, rep) && is_db_failure(
                (s, rep),
                t_in,
                e@,
            ),
        },
{
    match found {
        Ok(Some(d)) => {
            if d.user_id == auth.user_id {
                let rep = not_found(t_in);
                return FlagDoneTodoStep::Reply(rep.0, rep.1);
            }
            let updated_at = now();
            FlagDoneTodoStep::Update(flagged_todo(d, updated_at))
        },
        Ok(None) => {
            let rep = not_found(t_in);
            FlagDoneTodoStep::Reply(rep.0, rep.1)
        },
        Err(e) => {
            let rep = db_failure(t_in, e);
            FlagDoneTodoStep::Reply(rep.0, rep.1)
        },
    }
}

/// Last step of flagging a todo as done, from the result of the update: 200
/// with the todo's id, or 500 with the database's message.
pub fn flag_done_todo_finish(t_in: Timestamp, updated: Result<Todo, String>) -> (r: (
    u16,
    ApiResponse<FlagDoneTodoResp>,
))
    requires
        t_in.wf(),
    ensures
        match updated {
            Ok(d) => r.0 == OK && r.1.is_success_of(t_in, OK, FlagDoneTodoResp { id: d.id }),
            Err(e) => is_db_failure(r, t_in, e@),
        },
{
    match updated {
        Ok(d) => (OK, ApiResponse::success(t_in, OK, FlagDoneTodoResp { id: d.id })),
        Err(e) => db_failure(t_in, e),
    }
}

/// What a create stores reads back: a lookup or a listing that returns the
/// todo a create inserted shows the body's title and description, not
/// completed, under the todo's id.
pub proof fn lemma_created_todo_reads_back(t: Todo, owner: u128, body: CreateTodoReq)
    requires
        is_new_todo(t, owner, body),
    ensures
        find_resp_of(t) == (FindTodoResp {
            id: t.id,
            title: body.title,
            description: body.description,
            is_completed: false,
            created_at: t.created_at,
            updated_at: t.updated_at,
        }),
        get_resp_of(t) == (GetTodoResp {
            id: t.id,
            title: body.title,
            description: body.description,
            is_completed: false,
            created_at: t.created_at,
        }),
{
}

/// What an update stores reads back: a lookup that returns the todo an
/// update stored shows the body's title, description and completion under
/// the same id and creation instant.
pub proof fn lemma_updated_todo_reads_back(t: Todo, old: Todo, body: CreateTodoReq)
    requires
        is_updated_todo(t, old, body),
    ensures
        find_resp_of(t) == (FindTodoResp {
            id: old.id,
            title: body.title,
            description: body.description,
            is_completed: body.is_completed,
            created_at: old.created_at,
            updated_at: t.updated_at,
        }),
{
}

/// Flagging a todo as done twice changes nothing but the update instant
/// after the first time.
pub proof fn lemma_flag_done_idempotent(t0: Todo, t1: Todo, t2: Todo)
    requires
        is_flagged_todo(t1, t0),
        is_flagged_todo(t2, t1),
    ensures
        t2 == (Todo { updated_at: t2.updated_at, ..t1 }),
{
}

} // verus!
