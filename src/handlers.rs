use vstd::prelude::*;

use crate::error::{
    bad_request, empty_title, not_found, storage_failed, AppError, ErrorView, Failure, Operation,
    StorageError,
};
use crate::models::{CreateTodo, PatchView, Todo, TodoView, UpdateTodo};
use crate::text::{is_blank, is_blank_str};

verus! {

/// Status code of a successful delete, which carries no body.
pub const NO_CONTENT: u16 = 204;

/// What a handler answers, seen mathematically.
pub open spec fn todo_outcome(r: Result<Todo, AppError>) -> Result<TodoView, ErrorView> {
    match r {
        Ok(t) => Ok(t@),
        Err(e) => Err(e@),
    }
}

/// What the storage handed back for a statement returning one row.
pub open spec fn stored_view(s: Result<Todo, StorageError>) -> Result<TodoView, ()> {
    match s {
        Ok(t) => Ok(t@),
        Err(_) => Err(()),
    }
}

/// What a lookup by id found.
pub open spec fn found_view(f: Option<Todo>) -> Option<TodoView> {
    match f {
        Some(t) => Some(t@),
        None => None,
    }
}

/// A create request is accepted exactly when its title is not blank; the
/// title is then inserted as given.
pub open spec fn create_check(title: Seq<char>) -> Result<Seq<char>, ErrorView> {
    if is_blank(title) {
        Err(empty_title())
    } else {
        Ok(title)
    }
}

/// The answer to a statement that writes and returns one row.
pub open spec fn stored_outcome(s: Result<TodoView, ()>, op: Operation) -> Result<
    TodoView,
    ErrorView,
> {
    match s {
        Ok(t) => Ok(t),
        Err(_) => Err(storage_failed(op)),
    }
}

/// The answer to a lookup by id.
pub open spec fn found_outcome(f: Option<TodoView>) -> Result<TodoView, ErrorView> {
    match f {
        Some(t) => Ok(t),
        None => Err(not_found()),
    }
}

/// An update body is accepted when it parsed; a body that did not parse
/// answers 400 with the parser's message.
pub open spec fn update_check(payload: Result<PatchView, Seq<char>>) -> Result<
    PatchView,
    ErrorView,
> {
    match payload {
        Err(d) => Err(bad_request(d)),
        Ok(p) => Ok(p),
    }
}

/// Each field takes the patch's value where it has one, else the current one.
pub open spec fn merge(current: TodoView, p: PatchView) -> TodoView {
    TodoView {
        id: current.id,
        title: match p.title {
            Some(t) => t,
            None => current.title,
        },
        completed: match p.completed {
            Some(c) => c,
            None => current.completed,
        },
    }
}

/// The record an update writes. A missing item answers not-found; a patch
/// whose title is blank is then refused by the same rule as on create, so
/// that no stored title is ever blank.
pub open spec fn merge_outcome(f: Option<TodoView>, p: PatchView) -> Result<TodoView, ErrorView> {
    match f {
        None => Err(not_found()),
        Some(t) => match p.title {
            Some(x) => if is_blank(x) {
                Err(empty_title())
            } else {
                Ok(merge(t, p))
            },
            None => Ok(merge(t, p)),
        },
    }
}

/// The answer to a delete, from the number of rows it removed.
pub open spec fn delete_outcome(d: Result<u64, ()>) -> Result<u16, ErrorView> {
    match d {
        Err(_) => Err(storage_failed(Operation::Delete)),
        Ok(n) => if n == 0 {
            Err(not_found())
        } else {
            Ok(NO_CONTENT)
        },
    }
}

/// Answers a listing with the rows the storage read, in the storage's order.
pub fn list_todos(fetched: Result<Vec<Todo>, StorageError>) -> (r: Result<Vec<Todo>, AppError>)
    ensures
        fetched matches Ok(rows) ==> (r matches Ok(v) && v@ == rows@),
        fetched is Err ==> (r matches Err(e) && e@ == storage_failed(Operation::List)),
{
    match fetched {
        Ok(rows) => Ok(rows),
        Err(_) => Err(AppError::from_failure(Failure::StorageFailed(Operation::List))),
    }
}

/// Checks a create request; on success gives the title to insert, with
/// `completed` false.
pub fn create_todo(payload: CreateTodo) -> (r: Result<String, AppError>)
    ensures
        match r {
            Ok(t) => create_check(payload.title@) == Ok::<Seq<char>, ErrorView>(t@),
            Err(e) => create_check(payload.title@) == Err::<Seq<char>, ErrorView>(e@),
        },
{
    if is_blank_str(payload.title.as_str()) {
        Err(AppError::from_failure(Failure::EmptyTitle))
    } else {
        Ok(payload.title)
    }
}

/// Answers a create request from what the insert returned.
pub fn created_todo(inserted: Result<Todo, StorageError>) -> (r: Result<Todo, AppError>)
    ensures
        todo_outcome(r) == stored_outcome(stored_view(inserted), Operation::Create),
{
    match inserted {
        Ok(t) => Ok(t),
        Err(_) => Err(AppError::from_failure(Failure::StorageFailed(Operation::Create))),
    }
}

/// Answers a fetch by id from what the lookup found.
pub fn get_todo(found: Option<Todo>) -> (r: Result<Todo, AppError>)
    ensures
        todo_outcome(r) == found_outcome(found_view(found)),
{
    match found {
        Some(t) => Ok(t),
        None => Err(AppError::from_failure(Failure::NotFound)),
    }
}

/// Checks an update body, before anything is looked up: a body that did not
/// parse (`Err` with the parser's message) is a client error whether or not
/// the item exists; a parsed body goes on to the lookup as it is.
pub fn update_todo(payload: Result<UpdateTodo, String>) -> (r: Result<UpdateTodo, AppError>)
    ensures
        match r {
            Ok(p) => update_check(
                match payload {
                    Ok(q) => Ok(q@),
                    Err(d) => Err(d@),
                },
            ) == Ok::<PatchView, ErrorView>(p@),
            Err(e) => update_check(
                match payload {
                    Ok(q) => Ok(q@),
                    Err(d) => Err(d@),
                },
            ) == Err::<PatchView, ErrorView>(e@),
        },
{
    match payload {
        Err(d) => Err(AppError::malformed_body(d)),
        Ok(p) => Ok(p),
    }
}

/// Merges a parsed patch into the current record: not-found when there is
/// none, a client error when the patch's title is blank.
pub fn merge_update(current: Option<Todo>, patch: UpdateTodo) -> (r: Result<Todo, AppError>)
    ensures
        todo_outcome(r) == merge_outcome(found_view(current), patch@),
{
    match current {
        None => Err(AppError::from_failure(Failure::NotFound)),
        Some(todo) => {
            let blank = match &patch.title {
                Some(t) => is_blank_str(t.as_str()),
                None => false,
            };
            if blank {
                return Err(AppError::from_failure(Failure::EmptyTitle));
            }
            let title = match patch.title {
                Some(t) => t,
                None => todo.title,
            };
            let completed = match patch.completed {
                Some(c) => c,
                None => todo.completed,
            };
            Ok(Todo { id: todo.id, title, completed })
        },
    }
}

/// Answers an update from what the write of the merged record returned.
pub fn updated_todo(stored: Result<Todo, StorageError>) -> (r: Result<Todo, AppError>)
    ensures
        todo_outcome(r) == stored_outcome(stored_view(stored), Operation::Update),
{
    match stored {
        Ok(t) => Ok(t),
        Err(_) => Err(AppError::from_failure(Failure::StorageFailed(Operation::Update))),
    }
}

/// Answers a delete from the number of rows it removed: none means the item
/// did not exist.
pub fn delete_todo(deleted: Result<u64, StorageError>) -> (r: Result<u16, AppError>)
    ensures
        match r {
            Ok(s) => delete_outcome(
                match deleted {
                    Ok(n) => Ok(n),
                    Err(_) => Err(()),
                },
            ) == Ok::<u16, ErrorView>(s),
            Err(e) => delete_outcome(
                match deleted {
                    Ok(n) => Ok(n),
                    Err(_) => Err(()),
                },
            ) == Err::<u16, ErrorView>(e@),
        },
{
    match deleted {
        Err(_) => Err(AppError::from_failure(Failure::StorageFailed(Operation::Delete))),
        Ok(n) => if n == 0 {
            Err(AppError::from_failure(Failure::NotFound))
        } else {
            Ok(NO_CONTENT)
        },
    }
}

} // verus!
