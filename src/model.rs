use vstd::prelude::*;

verus! {

/// Identifier of an entry: the 128 bits of a ULID (48 bits of milliseconds
/// followed by 80 bits of randomness), so that identifiers sort by creation time.
#[derive(Clone, Copy, PartialEq, Eq, Structural, Debug, Hash)]
pub struct EntryId {
    pub value: u128,
}

/// A timezone-aware moment: milliseconds since the Unix epoch (UTC) and the
/// offset of local time from UTC, in seconds.
#[derive(Clone, Copy, PartialEq, Eq, Structural, Debug)]
pub struct Timestamp {
    pub millis: i64,
    pub offset_seconds: i32,
}

/// Lifecycle state of an entry. Any status may be assigned directly.
#[derive(Clone, Copy, PartialEq, Eq, Structural, Debug)]
pub enum EntryStatus {
    InProgress,
    Todo,
    Done,
    Cancelled,
    OnHold,
}

/// A task or event.
#[derive(Debug)]
pub struct TodoEntry {
    pub id: EntryId,
    pub name: String,
    pub details: String,
    pub date: Timestamp,
    pub status: EntryStatus,
    /// Identifiers of the entries grouped under this one.
    pub children: Vec<EntryId>,
    pub category: String,
}

/// Mathematical value of a [`TodoEntry`].
pub struct TodoEntryView {
    pub id: EntryId,
    pub name: Seq<char>,
    pub details: Seq<char>,
    pub date: Timestamp,
    pub status: EntryStatus,
    pub children: Seq<EntryId>,
    pub category: Seq<char>,
}

impl View for TodoEntry {
    type V = TodoEntryView;

    open spec fn view(&self) -> TodoEntryView {
        TodoEntryView {
            id: self.id,
            name: self.name@,
            details: self.details@,
            date: self.date,
            status: self.status,
            children: self.children@,
            category: self.category@,
        }
    }
}

/// The application state: the entries in display order and whether the
/// entry-creation overlay is shown.
#[derive(Debug)]
pub struct Model {
    pub todos: Vec<TodoEntry>,
    pub modal_active: bool,
}

/// Mathematical value of a [`Model`].
pub struct ModelView {
    pub todos: Seq<TodoEntryView>,
    pub modal_active: bool,
}

impl View for Model {
    type V = ModelView;

    open spec fn view(&self) -> ModelView {
        ModelView { todos: self.todos@.map_values(|e: TodoEntry| e@), modal_active: self.modal_active }
    }
}

/// The children listed by the entry with identifier `id`; none where no entry
/// has that identifier.
pub open spec fn children_of(todos: Seq<TodoEntryView>, id: EntryId) -> Seq<EntryId> {
    if exists|i: int| 0 <= i < todos.len() && todos[i].id == id {
        let i = choose|i: int| 0 <= i < todos.len() && todos[i].id == id;
        todos[i].children
    } else {
        Seq::empty()
    }
}

/// `to` is reached from `from` by following `steps + 1` child links.
pub open spec fn reaches(todos: Seq<TodoEntryView>, from: EntryId, to: EntryId, steps: nat) -> bool
    decreases steps,
{
    if steps == 0 {
        children_of(todos, from).contains(to)
    } else {
        exists|mid: EntryId|
            #[trigger] reaches(todos, from, mid, (steps - 1) as nat) && children_of(todos, mid).contains(to)
    }
}

/// No two entries share an identifier.
pub open spec fn ids_unique(todos: Seq<TodoEntryView>) -> bool {
    forall|i: int, j: int|
        0 <= i < todos.len() && 0 <= j < todos.len() && i != j ==> #[trigger] todos[i].id != #[trigger] todos[j].id
}

/// No entry is among its own children, directly or through other entries.
pub open spec fn acyclic(todos: Seq<TodoEntryView>) -> bool {
    forall|id: EntryId, steps: nat| !#[trigger] reaches(todos, id, id, steps)
}

impl ModelView {
    /// Structural well-formedness of a state: identifiers are unique and the
    /// grouping of entries has no cycle. Children that name no entry are allowed.
    pub open spec fn wf(self) -> bool {
        ids_unique(self.todos) && acyclic(self.todos)
    }
}

} // verus!
