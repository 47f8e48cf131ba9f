use vstd::prelude::*;

use crate::message::Msg;
use crate::model::{EntryId, Model, ModelView, TodoEntry, TodoEntryView};

verus! {

/// One entry as shown in the list: its name as the title, its details as the body.
#[derive(Debug)]
pub struct Card {
    pub title: String,
    pub body: String,
}

pub struct CardView {
    pub title: Seq<char>,
    pub body: Seq<char>,
}

impl View for Card {
    type V = CardView;

    open spec fn view(&self) -> CardView {
        CardView { title: self.title@, body: self.body@ }
    }
}

/// The entry-creation overlay. It is always part of the page; `visible` says
/// whether it is active or hidden.
#[derive(Debug)]
pub struct Modal {
    pub visible: bool,
    pub title_placeholder: String,
    pub description_placeholder: String,
    pub save_label: String,
    pub cancel_label: String,
    /// What activating the cancel affordance emits.
    pub on_cancel: Msg,
    /// Accessible label of the close button.
    pub close_label: String,
}

pub struct ModalView {
    pub visible: bool,
    pub title_placeholder: Seq<char>,
    pub description_placeholder: Seq<char>,
    pub save_label: Seq<char>,
    pub cancel_label: Seq<char>,
    pub on_cancel: Msg,
    pub close_label: Seq<char>,
}

impl View for Modal {
    type V = ModalView;

    open spec fn view(&self) -> ModalView {
        ModalView {
            visible: self.visible,
            title_placeholder: self.title_placeholder@,
            description_placeholder: self.description_placeholder@,
            save_label: self.save_label@,
            cancel_label: self.cancel_label@,
            on_cancel: self.on_cancel,
            close_label: self.close_label@,
        }
    }
}

/// Everything the page shows: a heading, the overlay and the list of entries.
#[derive(Debug)]
pub struct Page {
    pub heading: String,
    pub modal: Modal,
    pub list: Vec<Card>,
}

pub struct PageView {
    pub heading: Seq<char>,
    pub modal: ModalView,
    pub list: Seq<CardView>,
}

impl View for Page {
    type V = PageView;

    open spec fn view(&self) -> PageView {
        PageView {
            heading: self.heading@,
            modal: self.modal@,
            list: self.list@.map_values(|c: Card| c@),
        }
    }
}

/// The overlay, active or hidden.
pub open spec fn modal_of(visible: bool) -> ModalView {
    ModalView {
        visible,
        title_placeholder: "Title"@,
        description_placeholder: "Description"@,
        save_label: "Save"@,
        cancel_label: "Cancel"@,
        on_cancel: Msg::ToggleModal(false),
        close_label: "close"@,
    }
}

/// The card of one entry: only its name and details are shown.
pub open spec fn card_of(e: TodoEntryView) -> CardView {
    CardView { title: e.name, body: e.details }
}

/// The cards of a sequence of entries, in order.
pub open spec fn cards_of(todos: Seq<TodoEntryView>) -> Seq<CardView> {
    todos.map_values(|e: TodoEntryView| card_of(e))
}

/// The page shown for a state.
pub open spec fn project(m: ModelView) -> PageView {
    PageView { heading: "Home page"@, modal: modal_of(m.modal_active), list: cards_of(m.todos) }
}

/// Builds the overlay; `visible` decides only whether it is active.
pub fn view_todo_modal(visible: bool) -> (r: Modal)
    ensures
        r@ == modal_of(visible),
{
    Modal {
        visible,
        title_placeholder: "Title".to_owned(),
        description_placeholder: "Description".to_owned(),
        save_label: "Save".to_owned(),
        cancel_label: "Cancel".to_owned(),
        on_cancel: Msg::ToggleModal(false),
        close_label: "close".to_owned(),
    }
}

/// Builds one card per entry, in the entries' order.
pub fn view_todo_list(todos: &Vec<TodoEntry>) -> (r: Vec<Card>)
    ensures
        r@.map_values(|c: Card| c@) == cards_of(todos@.map_values(|e: TodoEntry| e@)),
{
    let mut cards: Vec<Card> = Vec::new();
    let mut i: usize = 0;
    while i < todos.len()
        invariant
            i <= todos.len(),
            cards@.len() == i,
            forall|k: int| 0 <= k < i ==> #[trigger] cards@[k]@ == card_of(todos@[k]@),
        decreases todos.len() - i,
    {
        let todo = &todos[i];
        cards.push(Card { title: todo.name.clone(), body: todo.details.clone() });
        i = i + 1;
    }
    assert(cards@.map_values(|c: Card| c@) =~= cards_of(todos@.map_values(|e: TodoEntry| e@)));
    cards
}

/// Projects a state onto the page: the overlay, present whether shown or not,
/// and one card per entry.
pub fn view(model: &Model) -> (r: Page)
    ensures
        r@ == project(model@),
{
    Page {
        heading: "Home page".to_owned(),
        modal: view_todo_modal(model.modal_active),
        list: view_todo_list(&model.todos),
    }
}

/// The children of an entry do not change what is shown, so an entry whose
/// children name entries that do not exist is shown exactly as the same entry
/// with no children.
pub proof fn lemma_children_not_shown(s: ModelView, i: int, children: Seq<EntryId>)
    requires
        0 <= i < s.todos.len(),
    ensures
        project(ModelView { todos: s.todos.update(i, TodoEntryView { children, ..s.todos[i] }), ..s }) == project(s),
{
    let t = s.todos.update(i, TodoEntryView { children, ..s.todos[i] });
    assert(cards_of(t) =~= cards_of(s.todos));
}

} // verus!
