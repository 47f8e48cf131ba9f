use vstd::prelude::*;

use crate::model::{acyclic, children_of, reaches, EntryId, EntryStatus, Model, ModelView, Timestamp, TodoEntry, TodoEntryView};

verus! {

/// Mask of the 80 random bits at the low end of a ULID.
pub const ULID_RANDOM_MASK: u128 = 0xFFFF_FFFF_FFFF_FFFF_FFFF;

/// Relies on ulid::Ulid::new: a fresh ULID from the clock and a random source.
/// Nothing is promised of its value.
#[verifier::external_body]
fn fresh_ulid() -> (r: u128) {
    ulid::Ulid::new().0
}

/// Relies on ulid::Ulid::increment: the next ULID, unless the random part is
/// already all ones.
#[verifier::external_body]
fn next_ulid(id: u128) -> (r: Option<u128>)
    ensures
        r == if id & ULID_RANDOM_MASK == ULID_RANDOM_MASK {
            None::<u128>
        } else {
            Some((id + 1) as u128)
        },
{
    ulid::Ulid(id).increment().map(|u| u.0)
}

/// Relies on chrono::Local::now, DateTime::timestamp_millis and
/// FixedOffset::local_minus_utc: the current moment and the local offset,
/// which chrono keeps strictly within one day.
#[verifier::external_body]
fn local_now() -> (r: Timestamp)
    ensures
        -86_400 < r.offset_seconds < 86_400,
{
    let now = chrono::Local::now();
    Timestamp { millis: now.timestamp_millis(), offset_seconds: now.offset().local_minus_utc() }
}

/// A freshly seeded entry: status `Todo`, no children, category `"todo"`.
pub open spec fn seed_entry(id: EntryId, name: Seq<char>, details: Seq<char>, date: Timestamp) -> TodoEntryView {
    TodoEntryView { id, name, details, date, status: EntryStatus::Todo, children: Seq::empty(), category: "todo"@ }
}

/// The state the application starts in: two example entries and the overlay shown.
pub open spec fn seeded(first: EntryId, second: EntryId, first_date: Timestamp, second_date: Timestamp) -> ModelView {
    ModelView {
        todos: seq![
            seed_entry(first, "make todo list"@, "details1"@, first_date),
            seed_entry(second, "make calendar"@, "details2"@, second_date),
        ],
        modal_active: true,
    }
}

/// Entries that list no children form no cycle.
pub proof fn lemma_childless_acyclic(todos: Seq<TodoEntryView>)
    requires
        forall|i: int| 0 <= i < todos.len() ==> (#[trigger] todos[i]).children.len() == 0,
    ensures
        acyclic(todos),
{
    assert forall|id: EntryId, steps: nat| !#[trigger] reaches(todos, id, id, steps) by {
        assert forall|x: EntryId| (#[trigger] children_of(todos, x)).len() == 0 by {}
        if steps > 0 {
            assert forall|mid: EntryId| !children_of(todos, mid).contains(id) by {
                assert(children_of(todos, mid).len() == 0);
            }
        } else {
            assert(children_of(todos, id).len() == 0);
        }
    }
}

fn new_entry(id: EntryId, name: &str, details: &str, date: Timestamp) -> (r: TodoEntry)
    ensures
        r@ == seed_entry(id, name@, details@, date),
{
    let r = TodoEntry {
        id,
        name: name.to_owned(),
        details: details.to_owned(),
        date,
        status: EntryStatus::Todo,
        children: Vec::new(),
        category: "todo".to_owned(),
    };
    assert(r.children@ =~= Seq::<EntryId>::empty());
    r
}

/// The starting state for the given identifiers and creation moments. It is
/// well formed exactly when the two identifiers differ.
pub fn seeded_model(first: EntryId, second: EntryId, first_date: Timestamp, second_date: Timestamp) -> (r: Model)
    ensures
        r@ == seeded(first, second, first_date, second_date),
        r@.wf() <==> first != second,
{
    let a = new_entry(first, "make todo list", "details1", first_date);
    let b = new_entry(second, "make calendar", "details2", second_date);
    let r = Model { todos: vec![a, b], modal_active: true };
    assert(r@.todos =~= seeded(first, second, first_date, second_date).todos);
    proof {
        lemma_childless_acyclic(r@.todos);
        if first == second {
            assert(r@.todos[0].id == r@.todos[1].id);
        }
    }
    r
}

/// Two distinct identifiers for the example entries. Should the generator
/// repeat itself, the second becomes the successor of the first, or the nil
/// ULID where the first has no successor.
fn two_fresh_ids() -> (r: (EntryId, EntryId))
    ensures
        r.0 != r.1,
{
    let first = fresh_ulid();
    let mut second = fresh_ulid();
    if second == first {
        match next_ulid(first) {
            Some(n) => {
                assert(first & 0xFFFF_FFFF_FFFF_FFFF_FFFF != 0xFFFF_FFFF_FFFF_FFFF_FFFFu128 ==> first
                    != 0xFFFF_FFFF_FFFF_FFFF_FFFF_FFFF_FFFF_FFFFu128) by (bit_vector);
                second = n;
            },
            None => {
                assert(first != 0) by (bit_vector)
                    requires
                        first & 0xFFFF_FFFF_FFFF_FFFF_FFFF == 0xFFFF_FFFF_FFFF_FFFF_FFFFu128,
                ;
                second = 0;
            },
        }
    }
    (EntryId { value: first }, EntryId { value: second })
}

/// The state the application starts in: two example entries, both `Todo` in
/// category `"todo"`, with distinct fresh identifiers and the current local
/// time, and the overlay shown.
pub fn init() -> (r: Model)
    ensures
        r@.todos.len() == 2,
        r@ == seeded(r@.todos[0].id, r@.todos[1].id, r@.todos[0].date, r@.todos[1].date),
        r@.todos[0].id != r@.todos[1].id,
        r@.wf(),
{
    let (first, second) = two_fresh_ids();
    let first_date = local_now();
    let second_date = local_now();
    seeded_model(first, second, first_date, second_date)
}

} // verus!
