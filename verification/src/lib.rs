//! A todo-list web service's core: request validation, pagination,
//! response envelopes, authentication decisions and the per-request
//! decisions of the todo and account handlers, each with its contract.

pub mod time;
pub mod text;
pub mod models;
pub mod resp;
pub mod validate;
pub mod ids;
pub mod pagination;
pub mod middleware;
pub mod handlers;
pub mod auth;
pub mod store;
