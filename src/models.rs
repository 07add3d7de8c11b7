use vstd::prelude::*;

verus! {

/// A persisted todo item, as stored in the `todos` table.
pub struct Todo {
    pub id: i64,
    pub title: String,
    pub completed: bool,
}

/// Body of a create request.
pub struct CreateTodo {
    pub title: String,
}

/// Body of a partial update: an absent field leaves the stored value as it is.
pub struct UpdateTodo {
    pub title: Option<String>,
    pub completed: Option<bool>,
}

/// Mathematical view of a todo item.
pub ghost struct TodoView {
    pub id: i64,
    pub title: Seq<char>,
    pub completed: bool,
}

/// Mathematical view of a partial update.
pub ghost struct PatchView {
    pub title: Option<Seq<char>>,
    pub completed: Option<bool>,
}

impl View for Todo {
    type V = TodoView;

    open spec fn view(&self) -> TodoView {
        TodoView { id: self.id, title: self.title@, completed: self.completed }
    }
}

impl View for UpdateTodo {
    type V = PatchView;

    open spec fn view(&self) -> PatchView {
        PatchView {
            title: match self.title {
                Some(t) => Some(t@),
                None => None,
            },
            completed: self.completed,
        }
    }
}

} // verus!
