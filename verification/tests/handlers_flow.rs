use todo_api::handlers::{
    create_todo, create_todo_finish, delete_todo, delete_todo_finish, find_todo, flag_done_todo,
    flag_done_todo_finish, flagged_todo, get_todos, new_todo, todo_list_query, update_todo,
    update_todo_finish, update_todo_found, updated_todo,
    CreateTodoStep, DeleteTodoStep, FlagDoneTodoStep, UpdateTodoStep,
};
use todo_api::middleware::AuthGuard;
use todo_api::models::{CreateTodoReq, FindTodoResp, GetTodoResp, PaginationQuery, Todo};
use todo_api::pagination::resolve_page;
use todo_api::store::new_store;
use todo_api::time::Timestamp;

const OWNER: u128 = 0x1111;
const OTHER: u128 = 0x2222;

fn t_in() -> Timestamp {
    Timestamp { secs: 1_750_000_000, nanos: 123 }
}

fn guard(id: u128) -> AuthGuard {
    AuthGuard { user_id: id, name: "Budi Santoso".to_string(), username: "budis".to_string() }
}

fn body(title: &str, description: &str, done: bool) -> CreateTodoReq {
    CreateTodoReq { title: title.to_string(), description: description.to_string(), is_completed: done }
}

fn stored() -> Todo {
    Todo {
        id: 0xabc,
        user_id: OWNER,
        title: "Belajar Rust".to_string(),
        description: "Buat REST API".to_string(),
        is_completed: false,
        created_at: Timestamp { secs: 1_700_000_000, nanos: 0 },
        updated_at: Timestamp { secs: 1_700_000_001, nanos: 0 },
    }
}

#[test]
fn create_rejects_invalid_body() {
    match create_todo(t_in(), &guard(OWNER), body("", "Buat REST API", false)) {
        CreateTodoStep::Reply(status, rep) => {
            assert_eq!(status, 400);
            assert_eq!(rep.status, 400);
            assert!(!rep.success);
            assert_eq!(rep.error.as_deref(), Some("title must be filled and min 5 char"));
            assert_eq!(rep.tin, t_in());
        }
        CreateTodoStep::Insert(_) => panic!("invalid body inserted"),
    }
}

#[test]
fn create_inserts_new_todo_of_caller() {
    match create_todo(t_in(), &guard(OWNER), body("Belajar Rust", "Buat REST API", true)) {
        CreateTodoStep::Insert(t) => {
            assert_eq!(t.user_id, OWNER);
            assert_eq!(t.title, "Belajar Rust");
            assert_eq!(t.description, "Buat REST API");
            assert!(!t.is_completed);
            assert!(t.created_at.secs > 1_600_000_000);
        }
        CreateTodoStep::Reply(..) => panic!("valid body refused"),
    }
}

#[test]
fn create_ids_are_fresh() {
    let a = create_todo(t_in(), &guard(OWNER), body("a", "12345", false));
    let b = create_todo(t_in(), &guard(OWNER), body("a", "12345", false));
    match (a, b) {
        (CreateTodoStep::Insert(x), CreateTodoStep::Insert(y)) => assert_ne!(x.id, y.id),
        _ => panic!("valid body refused"),
    }
}

#[test]
fn create_finish_replies() {
    let (status, rep) = create_todo_finish(t_in(), Ok(stored()));
    assert_eq!(status, 201);
    assert_eq!(rep.status, 200);
    assert!(rep.success);
    let d = rep.data.unwrap();
    assert_eq!(d.id, 0xabc);
    assert_eq!(d.title, "Belajar Rust");
    let (status, rep) = create_todo_finish(t_in(), Err("db down".to_string()));
    assert_eq!(status, 500);
    assert_eq!(rep.status, 500);
    assert_eq!(rep.error.as_deref(), Some("db down"));
}

#[test]
fn delete_own_todo() {
    match delete_todo(t_in(), &guard(OWNER), Ok(Some(stored()))) {
        DeleteTodoStep::Delete(t) => assert_eq!(t, stored()),
        DeleteTodoStep::Reply(..) => panic!("owner refused"),
    }
    let (status, rep) = delete_todo_finish(t_in(), Ok(()));
    assert_eq!(status, 204);
    assert_eq!(rep.status, 204);
    assert!(rep.success);
    assert_eq!(rep.data, Some(()));
}

#[test]
fn delete_refuses_other_owner_and_missing() {
    for found in [Ok(Some(stored())), Ok(None)] {
        let caller = OTHER;
        match delete_todo(t_in(), &guard(caller), found) {
            DeleteTodoStep::Reply(status, rep) => {
                assert_eq!(status, 404);
                assert_eq!(rep.error.as_deref(), Some("data not found"));
            }
            DeleteTodoStep::Delete(_) => panic!("deleted another's todo"),
        }
    }
    match delete_todo(t_in(), &guard(OWNER), Err("lost".to_string())) {
        DeleteTodoStep::Reply(status, rep) => {
            assert_eq!(status, 500);
            assert_eq!(rep.error.as_deref(), Some("lost"));
        }
        DeleteTodoStep::Delete(_) => panic!("deleted on failure"),
    }
    let (status, _) = delete_todo_finish(t_in(), Err("x".to_string()));
    assert_eq!(status, 500);
}

#[test]
fn find_hides_callers_own_todo() {
    let (status, rep) = find_todo(t_in(), &guard(OWNER), Ok(Some(stored())));
    assert_eq!(status, 404);
    assert_eq!(rep.error.as_deref(), Some("data not found"));
}

#[test]
fn find_shows_other_owners_todo() {
    let (status, rep) = find_todo(t_in(), &guard(OTHER), Ok(Some(stored())));
    assert_eq!(status, 200);
    let s = stored();
    assert_eq!(
        rep.data,
        Some(FindTodoResp {
            id: s.id,
            title: s.title,
            description: s.description,
            is_completed: s.is_completed,
            created_at: s.created_at,
            updated_at: s.updated_at,
        })
    );
    let (status, _) = find_todo(t_in(), &guard(OTHER), Ok(None));
    assert_eq!(status, 404);
    let (status, rep) = find_todo(t_in(), &guard(OTHER), Err("boom".to_string()));
    assert_eq!(status, 500);
    assert_eq!(rep.error.as_deref(), Some("boom"));
}

#[test]
fn create_then_find_reads_back() {
    let created = match create_todo(t_in(), &guard(OWNER), body("Belajar", "Buat REST API", false)) {
        CreateTodoStep::Insert(t) => t,
        _ => panic!("refused"),
    };
    let (status, rep) = find_todo(t_in(), &guard(OTHER), Ok(Some(created.clone())));
    assert_eq!(status, 200);
    let d = rep.data.unwrap();
    assert_eq!(d.id, created.id);
    assert_eq!(d.title, "Belajar");
    assert_eq!(d.description, "Buat REST API");
    assert!(!d.is_completed);
}

#[test]
fn update_validates_first() {
    let r = update_todo(t_in(), &body("x", "123", true));
    let (status, rep) = r.unwrap();
    assert_eq!(status, 400);
    assert_eq!(rep.error.as_deref(), Some("description must be filled and min 5 char"));
    assert!(update_todo(t_in(), &body("x", "12345", true)).is_none());
}

#[test]
fn update_replaces_fields_of_any_owner() {
    match update_todo_found(t_in(), body("Baru", "Deskripsi baru", true), Ok(Some(stored()))) {
        UpdateTodoStep::Update(t) => {
            assert_eq!(t.id, 0xabc);
            assert_eq!(t.user_id, OWNER);
            assert_eq!(t.title, "Baru");
            assert_eq!(t.description, "Deskripsi baru");
            assert!(t.is_completed);
            assert_eq!(t.created_at, stored().created_at);
        }
        UpdateTodoStep::Reply(..) => panic!("update refused"),
    }
    match update_todo_found(t_in(), body("Baru", "Deskripsi baru", true), Ok(None)) {
        UpdateTodoStep::Reply(status, _) => assert_eq!(status, 404),
        _ => panic!("updated nothing"),
    }
    let (status, rep) = update_todo_finish(t_in(), Ok(stored()));
    assert_eq!(status, 200);
    assert_eq!(rep.data.unwrap().id, 0xabc);
    let (status, _) = update_todo_finish(t_in(), Err("e".to_string()));
    assert_eq!(status, 500);
}

#[test]
fn flag_done_rules() {
    match flag_done_todo(t_in(), &guard(OWNER), Ok(Some(stored()))) {
        FlagDoneTodoStep::Reply(status, _) => assert_eq!(status, 404),
        _ => panic!("owner's todo flagged"),
    }
    match flag_done_todo(t_in(), &guard(OTHER), Ok(Some(stored()))) {
        FlagDoneTodoStep::Update(t) => {
            assert!(t.is_completed);
            assert_eq!(t.title, stored().title);
            assert_eq!(t.id, stored().id);
        }
        _ => panic!("refused"),
    }
    match flag_done_todo(t_in(), &guard(OTHER), Err("x".to_string())) {
        FlagDoneTodoStep::Reply(status, _) => assert_eq!(status, 500),
        _ => panic!("flagged on failure"),
    }
    let (status, rep) = flag_done_todo_finish(t_in(), Ok(stored()));
    assert_eq!(status, 200);
    assert_eq!(rep.data.unwrap().id, 0xabc);
}

#[test]
fn listing_page() {
    let req = resolve_page(&PaginationQuery { page: Some(2), size: Some(2) });
    let rows = vec![stored(), Todo { id: 0xdef, is_completed: true, ..stored() }];
    let (status, rep) = get_todos(t_in(), req, 5, rows);
    assert_eq!(status, 200);
    assert!(rep.success);
    let p = rep.data.unwrap();
    assert_eq!(p.total, 5);
    assert_eq!(p.page, 2);
    assert_eq!(p.limit, 2);
    assert_eq!(p.total_pages, 3);
    assert_eq!(p.list.len(), 2);
    assert_eq!(
        p.list[1],
        GetTodoResp {
            id: 0xdef,
            title: "Belajar Rust".to_string(),
            description: "Buat REST API".to_string(),
            is_completed: true,
            created_at: stored().created_at,
        }
    );
}

#[test]
fn empty_store() {
    let _s = new_store();
}

#[test]
fn flag_done_twice_keeps_fields() {
    let first = match flag_done_todo(t_in(), &guard(OTHER), Ok(Some(stored()))) {
        FlagDoneTodoStep::Update(t) => t,
        _ => panic!("refused"),
    };
    let second = match flag_done_todo(t_in(), &guard(OTHER), Ok(Some(first.clone()))) {
        FlagDoneTodoStep::Update(t) => t,
        _ => panic!("refused"),
    };
    assert_eq!(Todo { updated_at: first.updated_at, ..second }, first);
}

#[test]
fn update_then_find_reads_back() {
    let updated = match update_todo_found(t_in(), body("Baru", "Deskripsi baru", true), Ok(Some(stored()))) {
        UpdateTodoStep::Update(t) => t,
        _ => panic!("refused"),
    };
    let (status, rep) = find_todo(t_in(), &guard(OTHER), Ok(Some(updated.clone())));
    assert_eq!(status, 200);
    let d = rep.data.unwrap();
    assert_eq!(d.id, stored().id);
    assert_eq!(d.title, "Baru");
    assert_eq!(d.description, "Deskripsi baru");
    assert!(d.is_completed);
    assert_eq!(d.created_at, stored().created_at);
    assert_eq!(d.updated_at, updated.updated_at);
}

#[test]
fn record_builders() {
    let at = Timestamp { secs: 1_800_000_000, nanos: 9 };
    let t = new_todo(7, OWNER, body("a", "12345", true), at, at);
    assert_eq!(
        t,
        Todo {
            id: 7,
            user_id: OWNER,
            title: "a".to_string(),
            description: "12345".to_string(),
            is_completed: false,
            created_at: at,
            updated_at: at,
        }
    );
    let u = updated_todo(stored(), body("b", "67890", true), at);
    assert_eq!(
        u,
        Todo { title: "b".to_string(), description: "67890".to_string(), is_completed: true, updated_at: at, ..stored() }
    );
    let f = flagged_todo(stored(), at);
    assert_eq!(f, Todo { is_completed: true, updated_at: at, ..stored() });
}

#[test]
fn listing_query_is_scoped_to_caller() {
    let q = todo_list_query(&guard(OTHER), &PaginationQuery { page: Some(4), size: None });
    assert_eq!(q.owner_id, OTHER);
    assert_eq!((q.page.page, q.page.size, q.page.index), (4, 10, 3));
}
