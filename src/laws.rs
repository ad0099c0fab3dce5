//! Properties of the relay that hold across events.
use vstd::prelude::*;

use crate::model::{CollectionPath, Entry, EntryView, entries_view, messages_path, recipients_path};
use crate::protocol::{CommandView, DatasetEvent, Event, InputValue, RouterEvent, UiEvent};
use crate::relay::{HISTORY_LIMIT, RelayView, next_state, reaction};

verus! {

/// The event variants the relay accepts without acting on them.
pub open spec fn is_ignorable<O>(e: Event<O>) -> bool {
    match e {
        Event::Dataset(DatasetEvent::Other) => true,
        Event::Ui(UiEvent::Other) => true,
        Event::Router(RouterEvent::Other) => true,
        Event::Error(_) => true,
        _ => false,
    }
}

/// An ignorable event leaves the state as it was and issues no command.
pub proof fn law_ignorable_events_are_inert<O>(s: RelayView<O>, e: Event<O>)
    requires
        is_ignorable(e),
    ensures
        next_state(s, e) == s,
        reaction(s, e) == Seq::<CommandView<O>>::empty(),
{
    assert(reaction(s, e) =~= Seq::<CommandView<O>>::empty());
}

/// After a snapshot of the recipients collection, the recipients are exactly
/// the snapshot's entries, in order, and the messages are untouched.
pub proof fn law_snapshot_replaces_recipients<O>(
    s: RelayView<O>,
    path: CollectionPath,
    entries: Vec<Entry<O>>,
)
    requires
        path@ == recipients_path(),
    ensures
        next_state(s, Event::Dataset(DatasetEvent::Snapshot { path, entries })).recipients
            == entries_view(entries@),
        next_state(s, Event::Dataset(DatasetEvent::Snapshot { path, entries })).messages
            == s.messages,
{
}

/// A snapshot of the messages collection replaces the messages, and issues one
/// deletion at position 0 when it holds more than the limit, none otherwise.
pub proof fn law_bounded_history<O>(s: RelayView<O>, path: CollectionPath, entries: Vec<Entry<O>>)
    requires
        path@ == messages_path(),
    ensures
        next_state(s, Event::Dataset(DatasetEvent::Snapshot { path, entries })).messages
            == entries_view(entries@),
        entries@.len() > HISTORY_LIMIT ==> reaction(
            s,
            Event::Dataset(DatasetEvent::Snapshot { path, entries }),
        ) == seq![CommandView::<O>::DeleteElement { path: messages_path(), position: 0 }],
        entries@.len() <= HISTORY_LIMIT ==> reaction(
            s,
            Event::Dataset(DatasetEvent::Snapshot { path, entries }),
        ) == Seq::<CommandView<O>>::empty(),
{
    crate::model::lemma_paths_distinct();
    assert(Seq::<CommandView<O>>::empty() =~= seq![]);
}

/// Text entered in "Add Recp" is appended to the recipients collection, and
/// once the snapshot that holds the appended entry comes back, the recipients
/// are the earlier ones followed by that text.
pub proof fn law_add_recipient_round_trip<O>(
    s: RelayView<O>,
    element_id: String,
    dataset_ids: Vec<usize>,
    text: String,
    path: CollectionPath,
    entries: Vec<Entry<O>>,
)
    requires
        element_id@ == "Add Recp"@,
        path@ == recipients_path(),
        entries_view(entries@) == s.recipients.push(EntryView::<O>::Text(text@)),
    ensures
        ({
            let input = Event::Ui(UiEvent::Input { element_id, dataset_ids, value: InputValue::Text(text) });
            let snapshot = Event::Dataset(DatasetEvent::Snapshot { path, entries });
            &&& reaction(s, input) == seq![
                CommandView::<O>::Append { path: recipients_path(), entry: EntryView::<O>::Text(text@) },
            ]
            &&& next_state(next_state(s, input), snapshot).recipients == s.recipients.push(
                EntryView::<O>::Text(text@),
            )
        }),
{
}

} // verus!
