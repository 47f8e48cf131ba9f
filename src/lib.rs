//! State machine of a single-page task and event list: the entry model, the
//! message-driven transition and the projection of a state onto what is shown.

pub mod message;
pub mod model;
pub mod projection;
pub mod startup;
pub mod transition;

pub use message::Msg;
pub use model::{EntryId, EntryStatus, Model, ModelView, Timestamp, TodoEntry, TodoEntryView};
pub use projection::{view, view_todo_list, view_todo_modal, Card, Modal, Page};
pub use startup::{init, seeded_model};
pub use transition::update;
