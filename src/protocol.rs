//! The inbound events the relay reacts to and the outbound commands it issues.
use vstd::prelude::*;

use crate::model::{CollectionPath, Entry, EntryView, PathView};
use crate::page::UiPage;

verus! {

/// A dataset-category event.
#[derive(Debug, PartialEq, Eq)]
pub enum DatasetEvent<O> {
    /// The full, ordered contents of the collection at `path`.
    Snapshot { path: CollectionPath, entries: Vec<Entry<O>> },
    /// Any other dataset notification (subscription acknowledgements and the like).
    Other,
}

/// The payload of a UI input.
#[derive(Debug, PartialEq, Eq)]
pub enum InputValue {
    Text(String),
    /// Any non-text input.
    Other,
}

/// A UI-category event.
#[derive(Debug, PartialEq, Eq)]
pub enum UiEvent {
    /// Input from the element with id `element_id`; `dataset_ids` locate the
    /// collection item the element was repeated for.
    Input { element_id: String, dataset_ids: Vec<usize>, value: InputValue },
    /// Any other UI notification (page acknowledgements, element updates, ...).
    Other,
}

/// A routing-category event.
#[derive(Debug, PartialEq, Eq)]
pub enum RouterEvent<O> {
    /// An application event `name` from `sender` (an encoded identity).
    Event { name: String, sender: String, payload: Entry<O> },
    /// Authorization, directory and topology notifications.
    Other,
}

/// An inbound protocol event.
#[derive(Debug, PartialEq, Eq)]
pub enum Event<O> {
    Dataset(DatasetEvent<O>),
    Ui(UiEvent),
    Router(RouterEvent<O>),
    /// A protocol-level error report.
    Error(String),
}

/// An outbound protocol command.
#[derive(Debug, PartialEq, Eq)]
pub enum Command<O> {
    SetIdentityProperty { name: String, value: String },
    SubscribeCollection { path: CollectionPath },
    SubscribeEvent { name: String },
    Append { path: CollectionPath, entry: Entry<O> },
    DeleteElement { path: CollectionPath, position: usize },
    /// Send event `name` to `recipients`, given as encoded identities; the
    /// transport decodes them and drops those that do not decode.
    SendEvent { name: String, recipients: Vec<String>, payload: Entry<O> },
    SetPage { page: UiPage },
}

pub enum CommandView<O> {
    SetIdentityProperty { name: Seq<char>, value: Seq<char> },
    SubscribeCollection { path: PathView },
    SubscribeEvent { name: Seq<char> },
    Append { path: PathView, entry: EntryView<O> },
    DeleteElement { path: PathView, position: nat },
    SendEvent { name: Seq<char>, recipients: Seq<Seq<char>>, payload: EntryView<O> },
    SetPage { page: UiPage },
}

impl<O> View for Command<O> {
    type V = CommandView<O>;

    open spec fn view(&self) -> CommandView<O> {
        match self {
            Command::SetIdentityProperty { name, value } => CommandView::SetIdentityProperty {
                name: name@,
                value: value@,
            },
            Command::SubscribeCollection { path } => CommandView::SubscribeCollection {
                path: path@,
            },
            Command::SubscribeEvent { name } => CommandView::SubscribeEvent { name: name@ },
            Command::Append { path, entry } => CommandView::Append { path: path@, entry: entry@ },
            Command::DeleteElement { path, position } => CommandView::DeleteElement {
                path: path@,
                position: *position as nat,
            },
            Command::SendEvent { name, recipients, payload } => CommandView::SendEvent {
                name: name@,
                recipients: recipients@.map_values(|s: String| s@),
                payload: payload@,
            },
            Command::SetPage { page } => CommandView::SetPage { page: *page },
        }
    }
}

/// The views of a sequence of commands, in order.
pub open spec fn commands_view<O>(s: Seq<Command<O>>) -> Seq<CommandView<O>> {
    s.map_values(|c: Command<O>| c@)
}

} // verus!
