//! The messages in which the responses to tool requests are gathered, by request id.

use crate::interop::{json_members, JsonView};
use crate::message::{
    control_response, ControlNotice, Message, MessageContentView, MessageView, ToolResponseBody,
    ToolResponseProvenance, ToolResponseView,
};
use rmcp::model::JsonObject;
use vstd::prelude::*;

verus! {

/// The messages by request id, as a value.
pub type ResponsesView = Map<Seq<char>, MessageView>;

/// The messages in which the responses to tool requests are gathered, each under the id of its
/// request. No id occurs twice.
pub struct ResponseMap {
    entries: Vec<(String, Message)>,
}

/// The messages with the response that the tool of the request `id` has not run, added to the
/// message under `id` where there is one.
pub open spec fn with_control_response(
    responses: ResponsesView,
    id: Seq<char>,
    provenance: ToolResponseProvenance,
    metadata: Option<JsonView>,
) -> ResponsesView {
    if responses.contains_key(id) {
        responses.insert(
            id,
            responses[id].with_content(
                MessageContentView::ToolResponse(control_response(id, provenance, metadata)),
            ),
        )
    } else {
        responses
    }
}

/// Whether the entry at `index` is the one under `id`.
spec fn is_entry(entries: Seq<(String, Message)>, id: Seq<char>, index: int) -> bool {
    0 <= index < entries.len() && entries[index].0@ == id
}

spec fn entry_index(entries: Seq<(String, Message)>, id: Seq<char>) -> int {
    choose|index: int| is_entry(entries, id, index)
}

spec fn entries_distinct(entries: Seq<(String, Message)>) -> bool {
    forall|i: int, j: int|
        0 <= i < j < entries.len() ==> (#[trigger] entries[i]).0@ != (#[trigger] entries[j]).0@
}

spec fn entries_view(entries: Seq<(String, Message)>) -> ResponsesView {
    Map::new(
        |id: Seq<char>| exists|index: int| is_entry(entries, id, index),
        |id: Seq<char>| entries[entry_index(entries, id)].1@,
    )
}

proof fn entry_is_in_view(entries: Seq<(String, Message)>, index: int)
    requires
        entries_distinct(entries),
        0 <= index < entries.len(),
    ensures
        entries_view(entries).contains_key(entries[index].0@),
        entries_view(entries)[entries[index].0@] == entries[index].1@,
{
    let id = entries[index].0@;
    assert(is_entry(entries, id, index));
    let chosen = entry_index(entries, id);
    assert(is_entry(entries, id, chosen));
    assert(chosen == index);
}

/// Replacing the message of an entry replaces the message under its id.
proof fn update_updates_view(entries: Seq<(String, Message)>, index: int, entry: (String, Message))
    requires
        entries_distinct(entries),
        0 <= index < entries.len(),
        entry.0@ == entries[index].0@,
    ensures
        entries_distinct(entries.update(index, entry)),
        entries_view(entries.update(index, entry)) == entries_view(entries).insert(
            entry.0@,
            entry.1@,
        ),
{
    let updated = entries.update(index, entry);
    assert forall|i: int| 0 <= i < entries.len() implies updated[i].0@ == entries[i].0@ by {}
    assert(entries_distinct(updated));
    let expected = entries_view(entries).insert(entry.0@, entry.1@);
    assert forall|id: Seq<char>|
        entries_view(updated).contains_key(id) == expected.contains_key(id) by {
        if entries_view(updated).contains_key(id) {
            let i = entry_index(updated, id);
            assert(is_entry(entries, id, i));
        }
        if expected.contains_key(id) {
            if id == entry.0@ {
                assert(is_entry(updated, id, index));
            } else {
                let i = entry_index(entries, id);
                assert(is_entry(entries, id, i));
                assert(is_entry(updated, id, i));
            }
        }
    }
    assert forall|id: Seq<char>| entries_view(updated).contains_key(id) implies entries_view(
        updated,
    )[id] == expected[id] by {
        let i = entry_index(updated, id);
        assert(is_entry(updated, id, i));
        entry_is_in_view(updated, i);
        if i == index {
            assert(id == entry.0@);
        } else {
            entry_is_in_view(entries, i);
            assert(updated[i].0@ != updated[index].0@);
        }
    }
    assert(entries_view(updated) =~= expected);
}

/// A further entry under a new id adds the message under that id.
proof fn push_extends_view(entries: Seq<(String, Message)>, entry: (String, Message))
    requires
        entries_distinct(entries),
        !entries_view(entries).contains_key(entry.0@),
    ensures
        entries_distinct(entries.push(entry)),
        entries_view(entries.push(entry)) == entries_view(entries).insert(entry.0@, entry.1@),
{
    let pushed = entries.push(entry);
    assert forall|i: int| 0 <= i < entries.len() implies entries[i].0@ != entry.0@ by {
        entry_is_in_view(entries, i);
    }
    assert(entries_distinct(pushed));
    let expected = entries_view(entries).insert(entry.0@, entry.1@);
    assert forall|id: Seq<char>|
        entries_view(pushed).contains_key(id) == expected.contains_key(id) by {
        if entries_view(pushed).contains_key(id) {
            let i = entry_index(pushed, id);
            assert(is_entry(pushed, id, i));
            if i < entries.len() {
                assert(is_entry(entries, id, i));
            }
        }
        if expected.contains_key(id) {
            if id == entry.0@ {
                assert(is_entry(pushed, id, entries.len() as int));
            } else {
                let i = entry_index(entries, id);
                assert(is_entry(entries, id, i));
                assert(is_entry(pushed, id, i));
            }
        }
    }
    assert forall|id: Seq<char>| entries_view(pushed).contains_key(id) implies entries_view(
        pushed,
    )[id] == expected[id] by {
        let i = entry_index(pushed, id);
        assert(is_entry(pushed, id, i));
        entry_is_in_view(pushed, i);
        if i < entries.len() {
            entry_is_in_view(entries, i);
        }
    }
    assert(entries_view(pushed) =~= expected);
}

/// Taking an entry out takes the message under its id out.
proof fn remove_shrinks_view(entries: Seq<(String, Message)>, index: int)
    requires
        entries_distinct(entries),
        0 <= index < entries.len(),
    ensures
        entries_distinct(entries.remove(index)),
        entries_view(entries.remove(index)) == entries_view(entries).remove(entries[index].0@),
{
    let removed = entries.remove(index);
    let id = entries[index].0@;
    assert forall|i: int| 0 <= i < removed.len() implies removed[i] == entries[if i < index {
        i
    } else {
        i + 1
    }] by {}
    assert(entries_distinct(removed));
    let expected = entries_view(entries).remove(id);
    assert forall|other: Seq<char>|
        entries_view(removed).contains_key(other) == expected.contains_key(other) by {
        if entries_view(removed).contains_key(other) {
            let i = entry_index(removed, other);
            assert(is_entry(removed, other, i));
            let place = if i < index {
                i
            } else {
                i + 1
            };
            assert(is_entry(entries, other, place));
            if place < index {
                assert(entries[place].0@ != entries[index].0@);
            } else {
                assert(entries[index].0@ != entries[place].0@);
            }
        }
        if expected.contains_key(other) {
            let i = entry_index(entries, other);
            assert(is_entry(entries, other, i));
            assert(is_entry(
                removed,
                other,
                if i < index {
                    i
                } else {
                    i - 1
                },
            ));
        }
    }
    assert forall|other: Seq<char>| entries_view(removed).contains_key(other) implies entries_view(
        removed,
    )[other] == expected[other] by {
        let i = entry_index(removed, other);
        assert(is_entry(removed, other, i));
        entry_is_in_view(removed, i);
        entry_is_in_view(
            entries,
            if i < index {
                i
            } else {
                i + 1
            },
        );
    }
    assert(entries_view(removed) =~= expected);
}

impl View for ResponseMap {
    type V = ResponsesView;

    closed spec fn view(&self) -> ResponsesView {
        entries_view(self.entries@)
    }
}

impl ResponseMap {
    #[verifier::type_invariant]
    spec fn distinct(self) -> bool {
        entries_distinct(self.entries@)
    }

    /// No messages.
    pub fn new() -> (responses: ResponseMap)
        ensures
            responses@ == ResponsesView::empty(),
    {
        let responses = ResponseMap { entries: Vec::new() };
        assert(responses@ =~= ResponsesView::empty());
        responses
    }

    /// The place of the entry under `id`.
    fn position(&self, id: &String) -> (position: Option<usize>)
        ensures
            match position {
                Some(index) => index < self.entries.len() && self.entries@[index as int].0@ == id@,
                None => !self@.contains_key(id@),
            },
    {
        for i in 0..self.entries.len()
            invariant
                forall|j: int| 0 <= j < i ==> (#[trigger] self.entries@[j]).0@ != id@,
        {
            if self.entries[i].0 == *id {
                return Some(i);
            }
        }
        assert(forall|j: int| !is_entry(self.entries@, id@, j));
        None
    }

    /// The message under `id`.
    pub fn get(&self, id: &String) -> (message: Option<&Message>)
        ensures
            message is Some <==> self@.contains_key(id@),
            message matches Some(message) ==> message@ == self@[id@],
    {
        proof {
            use_type_invariant(self);
        }
        match self.position(id) {
            Some(index) => {
                proof {
                    entry_is_in_view(self.entries@, index as int);
                }
                Some(&self.entries[index].1)
            },
            None => None,
        }
    }

    /// Puts a message under `id`, in place of the one that was there.
    pub fn insert(&mut self, id: String, message: Message)
        ensures
            final(self)@ == old(self)@.insert(id@, message@),
    {
        proof {
            use_type_invariant(&*self);
        }
        let position = self.position(&id);
        let ghost before = self.entries@;
        let mut entries: Vec<(String, Message)> = Vec::new();
        std::mem::swap(&mut entries, &mut self.entries);
        match position {
            Some(index) => {
                proof {
                    update_updates_view(before, index as int, (id, message));
                }
                entries.set(index, (id, message));
            },
            None => {
                proof {
                    push_extends_view(before, (id, message));
                }
                entries.push((id, message));
            },
        }
        self.entries = entries;
    }

    /// Takes the message under `id` out.
    pub fn remove(&mut self, id: &String) -> (message: Option<Message>)
        ensures
            final(self)@ == old(self)@.remove(id@),
            message is Some <==> old(self)@.contains_key(id@),
            message matches Some(message) ==> message@ == old(self)@[id@],
    {
        proof {
            use_type_invariant(&*self);
        }
        match self.position(id) {
            Some(index) => {
                let ghost before = self.entries@;
                let mut entries: Vec<(String, Message)> = Vec::new();
                std::mem::swap(&mut entries, &mut self.entries);
                proof {
                    entry_is_in_view(before, index as int);
                    remove_shrinks_view(before, index as int);
                }
                let entry = entries.remove(index);
                self.entries = entries;
                Some(entry.1)
            },
            None => {
                assert(self@.remove(id@) =~= self@);
                None
            },
        }
    }

    /// Adds to the message under `id` the response that says that the tool of the request `id`
    /// has not run. Where there is no such message, nothing changes.
    pub fn add_control_response(
        &mut self,
        id: &String,
        provenance: ToolResponseProvenance,
        metadata: Option<&JsonObject>,
    )
        ensures
            final(self)@ == with_control_response(
                old(self)@,
                id@,
                provenance,
                match metadata {
                    Some(metadata) => Some(json_members(*metadata)),
                    None => None,
                },
            ),
    {
        proof {
            use_type_invariant(&*self);
        }
        if let Some(index) = self.position(id) {
            let ghost before = self.entries@;
            let mut entries: Vec<(String, Message)> = Vec::new();
            std::mem::swap(&mut entries, &mut self.entries);
            let entry: &mut (String, Message) = &mut entries[index];
            entry.1.add_goose_control_tool_response_with_metadata(id.clone(), provenance, metadata);
            proof {
                entry_is_in_view(before, index as int);
                update_updates_view(before, index as int, entries@[index as int]);
                assert(entries@ =~= before.update(index as int, entries@[index as int]));
            }
            self.entries = entries;
        }
    }
}

/// The response that a tool has not run goes to the end of the message under the id of its
/// request, where there is one, with that id, the reason, the metadata and the notice that fits
/// the reason. No message comes or goes, and no other message changes.
pub proof fn control_response_goes_to_its_own_message(
    responses: ResponsesView,
    id: Seq<char>,
    provenance: ToolResponseProvenance,
    metadata: Option<JsonView>,
)
    ensures
        ({
            let after = with_control_response(responses, id, provenance, metadata);
            &&& forall|other: Seq<char>| #[trigger]
                after.contains_key(other) <==> responses.contains_key(other)
            &&& forall|other: Seq<char>|
                responses.contains_key(other) && other != id ==> #[trigger] after[other]
                    == responses[other]
            &&& responses.contains_key(id) ==> {
                &&& after[id].role == responses[id].role
                &&& after[id].user_visible == responses[id].user_visible
                &&& after[id].agent_visible == responses[id].agent_visible
                &&& provenance is GooseDeniedBeforeExecution ==> after[id].content
                    == responses[id].content.push(
                    MessageContentView::ToolResponse(
                        ToolResponseView {
                            id,
                            body: ToolResponseBody::Notice(ControlNotice::Declined),
                            provenance: Some(provenance),
                            metadata,
                        },
                    ),
                )
                &&& provenance is GooseCancelledBeforeExecution ==> after[id].content
                    == responses[id].content.push(
                    MessageContentView::ToolResponse(
                        ToolResponseView {
                            id,
                            body: ToolResponseBody::Notice(ControlNotice::Cancelled),
                            provenance: Some(provenance),
                            metadata,
                        },
                    ),
                )
            }
        }),
{
}

} // verus!
