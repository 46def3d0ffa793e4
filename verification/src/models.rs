//! The records, requests and responses of the service as plain values.
//! Identifiers are 128-bit UUID values; instants are [`Timestamp`]s.

use vstd::prelude::*;
use crate::time::Timestamp;

verus! {

/// A stored todo item.
#[derive(Clone, Debug, PartialEq)]
pub struct Todo {
    pub id: u128,
    pub user_id: u128,
    pub title: String,
    pub description: String,
    pub is_completed: bool,
    pub created_at: Timestamp,
    pub updated_at: Timestamp,
}

/// A stored account; `password` holds the bcrypt hash.
#[derive(Clone, Debug, PartialEq)]
pub struct User {
    pub id: u128,
    pub name: String,
    pub username: String,
    pub password: String,
    pub created_at: Timestamp,
    pub updated_at: Timestamp,
}

/// Body of a create or update request for a todo.
#[derive(Clone, Debug, PartialEq)]
pub struct CreateTodoReq {
    pub title: String,
    pub description: String,
    pub is_completed: bool,
}

/// Reply data of a created todo.
#[derive(Clone, Debug, PartialEq)]
pub struct CreateTodoResp {
    pub id: u128,
    pub title: String,
    pub description: String,
    pub is_completed: bool,
    pub created_at: Timestamp,
    pub updated_at: Timestamp,
}

/// Reply data of a todo looked up by id.
#[derive(Clone, Debug, PartialEq)]
pub struct FindTodoResp {
    pub id: u128,
    pub title: String,
    pub description: String,
    pub is_completed: bool,
    pub created_at: Timestamp,
    pub updated_at: Timestamp,
}

/// Reply data of an updated todo.
#[derive(Clone, Debug, PartialEq)]
pub struct UpdateTodoResp {
    pub id: u128,
}

/// Reply data of a todo flagged as done.
#[derive(Clone, Debug, PartialEq)]
pub struct FlagDoneTodoResp {
    pub id: u128,
}

/// Body of an account registration.
#[derive(Clone, Debug, PartialEq)]
pub struct RegisterUserReq {
    pub name: String,
    pub username: String,
    pub password: String,
    pub email: String,
}

/// Reply data of a registration.
#[derive(Clone, Debug, PartialEq)]
pub struct RegisterUserResp {
    pub id: u128,
    pub name: String,
    pub username: String,
}

/// Body of a login.
#[derive(Clone, Debug, PartialEq)]
pub struct LoginUserReq {
    pub username: String,
    pub password: String,
}

/// Reply data of a login: the signed token.
#[derive(Clone, Debug, PartialEq)]
pub struct LoginUserResp {
    pub token: String,
}

/// Claims carried by an access token.
#[derive(Clone, Debug, PartialEq)]
pub struct Claims {
    pub sub: String,
    pub name: String,
    pub username: String,
    pub exp: usize,
}

/// Query of a page of todos; both parts are optional.
#[derive(Clone, Copy, Debug, PartialEq, Eq)]
pub struct PaginationQuery {
    pub page: Option<u64>,
    pub size: Option<u64>,
}

/// The envelope of every todo reply.
#[derive(Clone, Debug, PartialEq)]
pub struct ApiResponse<T> {
    pub latency: String,
    pub error: Option<String>,
    pub tin: Timestamp,
    pub tout: Timestamp,
    pub success: bool,
    pub status: u16,
    pub data: Option<T>,
}

/// One page of a listing.
#[derive(Clone, Debug, PartialEq)]
pub struct PaginationResp<T> {
    pub list: T,
    pub total: u64,
    pub page: u64,
    pub limit: u64,
    pub total_pages: u64,
}

/// One todo in a listing.
#[derive(Clone, Debug, PartialEq)]
pub struct GetTodoResp {
    pub id: u128,
    pub title: String,
    pub description: String,
    pub is_completed: bool,
    pub created_at: Timestamp,
}

/// Reply data describing the authenticated account.
#[derive(Clone, Debug, PartialEq)]
pub struct AuthMeResp {
    pub user_id: u128,
    pub name: String,
    pub username: String,
}

} // verus!
