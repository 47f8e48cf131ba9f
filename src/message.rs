use vstd::prelude::*;

verus! {

/// The events that change the state. The set is closed: every handler matches
/// on all of them.
#[derive(Clone, Copy, PartialEq, Eq, Structural, Debug)]
pub enum Msg {
    /// Intent to create a new entry; it changes nothing yet.
    CreateTodo,
    /// Show (`true`) or hide (`false`) the entry-creation overlay.
    ToggleModal(bool),
}

} // verus!
