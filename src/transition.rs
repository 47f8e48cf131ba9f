use vstd::prelude::*;

use crate::message::Msg;
use crate::model::{Model, ModelView};

verus! {

/// The state that follows `m` on `msg`.
pub open spec fn transition(msg: Msg, m: ModelView) -> ModelView {
    match msg {
        Msg::CreateTodo => m,
        Msg::ToggleModal(active) => ModelView { modal_active: active, ..m },
    }
}

/// Applies one message to the state. Creating an entry is not wired yet and
/// leaves the state as it is; toggling sets the overlay flag unconditionally.
pub fn update(msg: Msg, model: &mut Model)
    ensures
        final(model)@ == transition(msg, old(model)@),
{
    match msg {
        Msg::CreateTodo => {},
        Msg::ToggleModal(active) => model.modal_active = active,
    }
}

/// Every message takes a well-formed state to a well-formed state.
pub proof fn lemma_transition_preserves_wf(msg: Msg, s: ModelView)
    requires
        s.wf(),
    ensures
        transition(msg, s).wf(),
{
}

/// Toggling the overlay twice to the same value is the same as doing it once:
/// the flag ends at that value.
pub proof fn lemma_toggle_idempotent(s: ModelView, b: bool)
    ensures
        transition(Msg::ToggleModal(b), transition(Msg::ToggleModal(b), s)) == transition(Msg::ToggleModal(b), s),
        transition(Msg::ToggleModal(b), transition(Msg::ToggleModal(b), s)).modal_active == b,
{
}

/// Toggling the overlay leaves the entries as they are, in the same order.
pub proof fn lemma_toggle_keeps_entries(s: ModelView, b: bool)
    ensures
        transition(Msg::ToggleModal(b), s).todos == s.todos,
{
}

/// The create message changes nothing.
pub proof fn lemma_create_todo_no_op(s: ModelView)
    ensures
        transition(Msg::CreateTodo, s) == s,
{
}

} // verus!
