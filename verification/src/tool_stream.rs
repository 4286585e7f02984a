//! The items that a running tool gives: questions to the user and notifications while it works,
//! and its result at the end.

use crate::message::Message;
use rmcp::model::ServerNotification;
use vstd::prelude::*;

verus! {

/// An item of the stream of a running tool.
pub enum ToolStreamItem<T> {
    ActionRequired(Message),
    Message(ServerNotification),
    Result(T),
}

/// What has come from one of the sources of a running tool.
pub enum ToolStreamEvent<T> {
    ActionRequired(Message),
    Notification(ServerNotification),
    Done(T),
}

/// The stream of a running tool, which may have ended.
pub struct ToolStreamState {
    pub ended: bool,
}

/// The item that an event gives.
pub open spec fn item_of<T>(event: ToolStreamEvent<T>) -> ToolStreamItem<T> {
    match event {
        ToolStreamEvent::ActionRequired(message) => ToolStreamItem::ActionRequired(message),
        ToolStreamEvent::Notification(notification) => ToolStreamItem::Message(notification),
        ToolStreamEvent::Done(result) => ToolStreamItem::Result(result),
    }
}

impl ToolStreamState {
    /// A stream that has not ended.
    pub fn new() -> (state: ToolStreamState)
        ensures
            !state.ended,
    {
        ToolStreamState { ended: false }
    }

    /// Takes an event and gives the item to be passed on. The result of the tool ends the stream,
    /// and a stream that has ended gives nothing.
    pub fn accept<T>(&mut self, event: ToolStreamEvent<T>) -> (item: Option<ToolStreamItem<T>>)
        ensures
            item == if old(self).ended {
                None
            } else {
                Some(item_of(event))
            },
            !old(self).ended ==> match event {
                ToolStreamEvent::ActionRequired(message) => item == Some(
                    ToolStreamItem::<T>::ActionRequired(message),
                ),
                ToolStreamEvent::Notification(notification) => item == Some(
                    ToolStreamItem::<T>::Message(notification),
                ),
                ToolStreamEvent::Done(result) => item == Some(ToolStreamItem::Result(result)),
            },
            final(self).ended == (old(self).ended || event is Done),
    {
        if self.ended {
            return None;
        }
        match event {
            ToolStreamEvent::ActionRequired(message) => Some(
                ToolStreamItem::ActionRequired(message),
            ),
            ToolStreamEvent::Notification(notification) => Some(
                ToolStreamItem::Message(notification),
            ),
            ToolStreamEvent::Done(result) => {
                self.ended = true;
                Some(ToolStreamItem::Result(result))
            },
        }
    }
}

/// The items that a stream gives for a sequence of events, taken one after the other.
pub open spec fn items_for<T>(ended: bool, events: Seq<ToolStreamEvent<T>>) -> Seq<
    ToolStreamItem<T>,
>
    decreases events.len(),
{
    if ended || events.len() == 0 {
        Seq::empty()
    } else {
        seq![item_of(events[0])] + items_for(events[0] is Done, events.drop_first())
    }
}

/// Whether one of the events brought the result of the tool.
pub open spec fn has_result<T>(events: Seq<ToolStreamEvent<T>>) -> bool {
    exists|i: int| 0 <= i < events.len() && #[trigger] events[i] is Done
}

/// Taking one more event does to the items what a stream does that takes it: where the result has
/// come nothing is added, and else the item of the event is added at the end. The stream has ended
/// then if it had ended or the event brings the result.
pub proof fn each_event_extends_the_items<T>(
    events: Seq<ToolStreamEvent<T>>,
    event: ToolStreamEvent<T>,
)
    ensures
        items_for(false, events.push(event)) == if has_result(events) {
            items_for(false, events)
        } else {
            items_for(false, events).push(item_of(event))
        },
        has_result(events.push(event)) == (has_result(events) || event is Done),
        !has_result(events) ==> match event {
            ToolStreamEvent::ActionRequired(message) => items_for(false, events.push(event))
                == items_for(false, events).push(ToolStreamItem::ActionRequired(message)),
            ToolStreamEvent::Notification(notification) => items_for(false, events.push(event))
                == items_for(false, events).push(ToolStreamItem::Message(notification)),
            ToolStreamEvent::Done(result) => items_for(false, events.push(event)) == items_for(
                false,
                events,
            ).push(ToolStreamItem::Result(result)),
        },
    decreases events.len(),
{
    let extended = events.push(event);
    assert(has_result(extended) == (has_result(events) || event is Done)) by {
        assert(extended[events.len() as int] == event);
        assert forall|i: int| 0 <= i < events.len() implies extended[i] == events[i] by {}
        if has_result(events) {
            let i = choose|i: int| 0 <= i < events.len() && #[trigger] events[i] is Done;
            assert(extended[i] is Done);
        }
    }
    if events.len() == 0 {
        assert(!has_result(events));
        assert(items_for(event is Done, extended.drop_first()) =~= Seq::empty());
        assert(items_for(false, extended) =~= items_for(false, events).push(item_of(event)));
    } else {
        let rest = events.drop_first();
        assert(extended.drop_first() =~= rest.push(event));
        assert(extended[0] == events[0]);
        if events[0] is Done {
            assert(has_result(events));
            assert(items_for(true, rest.push(event)) =~= items_for(true, rest));
        } else {
            each_event_extends_the_items(rest, event);
            assert(has_result(rest) == has_result(events)) by {
                if has_result(rest) {
                    let i = choose|i: int| 0 <= i < rest.len() && #[trigger] rest[i] is Done;
                    assert(events[i + 1] is Done);
                }
                if has_result(events) {
                    let i = choose|i: int| 0 <= i < events.len() && #[trigger] events[i] is Done;
                    assert(rest[i - 1] is Done);
                }
            }
            if !has_result(events) {
                assert(items_for(false, extended) =~= items_for(false, events).push(
                    item_of(event),
                ));
            }
        }
    }
}

/// An event gives the item of its kind, with what the event brought, unchanged: the message to the
/// user, the notification or the result.
pub proof fn item_carries_what_its_event_brought<T>(
    message: Message,
    notification: ServerNotification,
    result: T,
)
    ensures
        item_of(ToolStreamEvent::<T>::ActionRequired(message)) == ToolStreamItem::<
            T,
        >::ActionRequired(message),
        item_of(ToolStreamEvent::<T>::Notification(notification)) == ToolStreamItem::<T>::Message(
            notification,
        ),
        item_of(ToolStreamEvent::Done(result)) == ToolStreamItem::Result(result),
{
}

/// Whatever comes from the tool before its result is passed on, in the order in which it came and
/// as it came: an item for each event, with what the event brought.
pub proof fn nothing_is_lost_before_the_result<T>(events: Seq<ToolStreamEvent<T>>)
    requires
        forall|i: int| 0 <= i < events.len() - 1 ==> !(#[trigger] events[i] is Done),
    ensures
        items_for(false, events) == events.map_values(|event| item_of(event)),
        items_for(false, events).len() == events.len(),
        forall|i: int|
            0 <= i < events.len() ==> match #[trigger] events[i] {
                ToolStreamEvent::ActionRequired(message) => items_for(false, events)[i]
                    == ToolStreamItem::<T>::ActionRequired(message),
                ToolStreamEvent::Notification(notification) => items_for(false, events)[i]
                    == ToolStreamItem::<T>::Message(notification),
                ToolStreamEvent::Done(result) => items_for(false, events)[i]
                    == ToolStreamItem::Result(result),
            },
    decreases events.len(),
{
    if events.len() > 0 {
        let rest = events.drop_first();
        assert forall|i: int| 0 <= i < rest.len() - 1 implies !(#[trigger] rest[i] is Done) by {
            assert(rest[i] == events[i + 1]);
        }
        if rest.len() > 0 {
            assert(!(events[0] is Done));
        }
        nothing_is_lost_before_the_result(rest);
        assert(items_for(events[0] is Done, rest) =~= rest.map_values(|event| item_of(event)));
    }
    assert(items_for(false, events) =~= events.map_values(|event| item_of(event)));
}

/// The result is the last item: where the event at `last` is the first that brings a result, the
/// stream gives the items of the events up to that one and no more.
pub proof fn result_is_last<T>(events: Seq<ToolStreamEvent<T>>, last: int)
    requires
        0 <= last < events.len(),
        events[last] is Done,
        forall|i: int| 0 <= i < last ==> !(#[trigger] events[i] is Done),
    ensures
        items_for(false, events) == items_for(false, events.take(last + 1)),
        items_for(false, events).len() == last + 1,
        items_for(false, events)[last] == ToolStreamItem::Result(events[last]->Done_0),
        forall|i: int|
            0 <= i < last ==> !(#[trigger] items_for(false, events)[i] is Result),
    decreases events.len(),
{
    let rest = events.drop_first();
    let taken = events.take(last + 1);
    if last == 0 {
        assert(items_for(true, rest) =~= Seq::empty());
        assert(items_for(true, taken.drop_first()) =~= Seq::empty());
    } else {
        assert forall|i: int| 0 <= i < last - 1 implies !(#[trigger] rest[i] is Done) by {
            assert(rest[i] == events[i + 1]);
        }
        assert(!(events[0] is Done));
        result_is_last(rest, last - 1);
        assert(taken.drop_first() =~= rest.take(last));
        let items = items_for(false, events);
        assert forall|i: int| 0 <= i < last implies !(#[trigger] items[i] is Result) by {
            if i > 0 {
                assert(items[i] == items_for(false, rest)[i - 1]);
            }
        }
    }
}

/// A stream that has ended gives no items, whatever still comes from the tool.
pub proof fn ended_stream_gives_nothing<T>(events: Seq<ToolStreamEvent<T>>)
    ensures
        items_for(true, events).len() == 0,
{
}

} // verus!
