//! The in-memory todo store.

use vstd::prelude::*;
use std::collections::HashMap;
use crate::models::Todo;

verus! {

/// Todos by id.
pub struct TodoStore {
    todos: HashMap<u128, Todo>,
}

impl View for TodoStore {
    type V = Map<u128, Todo>;

    closed spec fn view(&self) -> Map<u128, Todo> {
        self.todos@
    }
}

/// An empty store.
pub fn new_store() -> (s: TodoStore)
    ensures
        s@ == Map::<u128, Todo>::empty(),
{
    TodoStore { todos: HashMap::new() }
}

} // verus!
