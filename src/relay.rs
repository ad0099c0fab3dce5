//! The relay state machine: the two mirrored collections and the reaction to
//! each inbound event.
use vstd::prelude::*;

use crate::model::{
    CollectionPath, Entry, EntryView, PathView, entries_view, lemma_paths_distinct, messages_path, recipients_path,
};
use crate::page::{UiPage, is_relay_page};
use crate::protocol::{
    Command, CommandView, DatasetEvent, Event, InputValue, RouterEvent, UiEvent, commands_view,
};

verus! {

/// The number of messages kept before the oldest is evicted.
pub const HISTORY_LIMIT: usize = 10;

/// The session state: the last snapshot received of each collection.
#[derive(Debug, PartialEq, Eq)]
pub struct State<O> {
    pub recipients: Vec<Entry<O>>,
    pub messages: Vec<Entry<O>>,
}

pub struct RelayView<O> {
    pub recipients: Seq<EntryView<O>>,
    pub messages: Seq<EntryView<O>>,
}

impl<O> View for State<O> {
    type V = RelayView<O>;

    open spec fn view(&self) -> RelayView<O> {
        RelayView {
            recipients: entries_view(self.recipients@),
            messages: entries_view(self.messages@),
        }
    }
}

/// The texts of the text entries of `s`, in order.
pub open spec fn text_entries<O>(s: Seq<EntryView<O>>) -> Seq<Seq<char>>
    decreases s.len(),
{
    if s.len() == 0 {
        Seq::empty()
    } else {
        let init = text_entries(s.drop_last());
        match s.last() {
            EntryView::Text(t) => init.push(t),
            EntryView::Other(_) => init,
        }
    }
}

/// The commands that startup issues: announce the display name, subscribe to
/// both collections and to the application event, then send the page.
pub open spec fn is_startup<O>(cmds: Seq<CommandView<O>>) -> bool {
    &&& cmds.len() == 5
    &&& cmds[0] == CommandView::<O>::SetIdentityProperty { name: "name"@, value: "Test Router"@ }
    &&& cmds[1] == CommandView::<O>::SubscribeCollection { path: recipients_path() }
    &&& cmds[2] == CommandView::<O>::SubscribeCollection { path: messages_path() }
    &&& cmds[3] == CommandView::<O>::SubscribeEvent { name: "test_event"@ }
    &&& cmds[4] matches CommandView::<O>::SetPage { page } && is_relay_page(page)
}

/// The state after a dataset event: a snapshot replaces the collection it names.
pub open spec fn dataset_next<O>(s: RelayView<O>, d: DatasetEvent<O>) -> RelayView<O> {
    match d {
        DatasetEvent::Snapshot { path, entries } => {
            if path@ == recipients_path() {
                RelayView { recipients: entries_view(entries@), ..s }
            } else if path@ == messages_path() {
                RelayView { messages: entries_view(entries@), ..s }
            } else {
                s
            }
        },
        DatasetEvent::Other => s,
    }
}

/// The commands issued for a dataset event: one eviction of the oldest message
/// when a messages snapshot is over the limit.
pub open spec fn dataset_reaction<O>(d: DatasetEvent<O>) -> Seq<CommandView<O>> {
    match d {
        DatasetEvent::Snapshot { path, entries } => {
            if path@ == messages_path() && entries@.len() > HISTORY_LIMIT {
                seq![CommandView::<O>::DeleteElement { path: messages_path(), position: 0 }]
            } else {
                seq![]
            }
        },
        DatasetEvent::Other => seq![],
    }
}

/// The commands issued for a UI event: text from "Add Recp" is appended to the
/// recipients, text from "Send Msg" is sent to every text recipient.
pub open spec fn ui_reaction<O>(s: RelayView<O>, u: UiEvent) -> Seq<CommandView<O>> {
    match u {
        UiEvent::Input { element_id, value: InputValue::Text(t), .. } => {
            if element_id@ == "Add Recp"@ {
                seq![CommandView::<O>::Append { path: recipients_path(), entry: EntryView::Text(t@) }]
            } else if element_id@ == "Send Msg"@ {
                seq![
                    CommandView::<O>::SendEvent {
                        name: "test_event"@,
                        recipients: text_entries(s.recipients),
                        payload: EntryView::Text(t@),
                    },
                ]
            } else {
                seq![]
            }
        },
        _ => seq![],
    }
}

/// The commands issued for a routing event: an application event `test_event`
/// is relayed into the messages collection.
pub open spec fn router_reaction<O>(r: RouterEvent<O>) -> Seq<CommandView<O>> {
    match r {
        RouterEvent::Event { name, payload, .. } => {
            if name@ == "test_event"@ {
                seq![CommandView::<O>::Append { path: messages_path(), entry: payload@ }]
            } else {
                seq![]
            }
        },
        RouterEvent::Other => seq![],
    }
}

/// The state after event `e`.
pub open spec fn next_state<O>(s: RelayView<O>, e: Event<O>) -> RelayView<O> {
    match e {
        Event::Dataset(d) => dataset_next(s, d),
        _ => s,
    }
}

/// The commands issued, in order, for event `e` in state `s`.
pub open spec fn reaction<O>(s: RelayView<O>, e: Event<O>) -> Seq<CommandView<O>> {
    match e {
        Event::Dataset(d) => dataset_reaction(d),
        Event::Ui(u) => ui_reaction(s, u),
        Event::Router(r) => router_reaction(r),
        Event::Error(_) => seq![],
    }
}

impl<O> State<O> {
    /// Starts a session: the commands to send before the first event, and a
    /// state with both collections empty.
    pub fn init() -> (r: (State<O>, Vec<Command<O>>))
        ensures
            r.0@.recipients.len() == 0,
            r.0@.messages.len() == 0,
            is_startup(commands_view(r.1@)),
    {
        let mut cmds: Vec<Command<O>> = Vec::new();
        cmds.push(
            Command::SetIdentityProperty {
                name: "name".to_owned(),
                value: "Test Router".to_owned(),
            },
        );
        cmds.push(Command::SubscribeCollection { path: CollectionPath::recipients() });
        cmds.push(Command::SubscribeCollection { path: CollectionPath::messages() });
        cmds.push(Command::SubscribeEvent { name: "test_event".to_owned() });
        cmds.push(Command::SetPage { page: UiPage::relay_page() });
        let state = State { recipients: Vec::new(), messages: Vec::new() };
        (state, cmds)
    }

    /// Reacts to one inbound event.
    pub fn msg_handler(&mut self, msg: Event<O>) -> (cmds: Vec<Command<O>>)
        ensures
            final(self)@ == next_state(old(self)@, msg),
            commands_view(cmds@) == reaction(old(self)@, msg),
    {
        match msg {
            Event::Dataset(d) => self.dataset_handler(d),
            Event::Ui(u) => self.ui_handler(u),
            Event::Router(r) => self.router_handler(r),
            Event::Error(_) => {
                let cmds: Vec<Command<O>> = Vec::new();
                assert(commands_view(cmds@) =~= seq![]);
                cmds
            },
        }
    }

    pub fn dataset_handler(&mut self, msg: DatasetEvent<O>) -> (cmds: Vec<Command<O>>)
        ensures
            final(self)@ == dataset_next(old(self)@, msg),
            commands_view(cmds@) == dataset_reaction(msg),
    {
        let mut cmds: Vec<Command<O>> = Vec::new();
        if let DatasetEvent::Snapshot { path, entries } = msg {
            if path.same_as(&CollectionPath::recipients()) {
                proof {
                    lemma_paths_distinct();
                }
                self.recipients = entries;
            } else if path.same_as(&CollectionPath::messages()) {
                self.messages = entries;
                if self.messages.len() > HISTORY_LIMIT {
                    cmds.push(
                        Command::DeleteElement { path: CollectionPath::messages(), position: 0 },
                    );
                }
            }
        }
        assert(commands_view(cmds@) =~= dataset_reaction(msg));
        cmds
    }

    /// The texts of the recipient entries, in order.
    pub fn recipient_texts(&self) -> (r: Vec<String>)
        ensures
            r@.map_values(|s: String| s@) == text_entries(self@.recipients),
    {
        let mut out: Vec<String> = Vec::new();
        let n = self.recipients.len();
        let mut i: usize = 0;
        while i < n
            invariant
                n == self.recipients@.len(),
                i <= n,
                out@.map_values(|s: String| s@) == text_entries(
                    entries_view(self.recipients@.subrange(0, i as int)),
                ),
            decreases n - i,
        {
            let ghost before = entries_view(self.recipients@.subrange(0, i as int));
            let ghost after = entries_view(self.recipients@.subrange(0, i + 1));
            assert(after.drop_last() =~= before);
            assert(after.last() == self.recipients@[i as int]@);
            match &self.recipients[i] {
                Entry::Text(s) => {
                    out.push(s.clone());
                },
                Entry::Other(_) => {},
            }
            assert(out@.map_values(|s: String| s@) =~= text_entries(after));
            i = i + 1;
        }
        assert(self.recipients@.subrange(0, n as int) =~= self.recipients@);
        out
    }

    pub fn ui_handler(&self, msg: UiEvent) -> (cmds: Vec<Command<O>>)
        ensures
            commands_view(cmds@) == ui_reaction(self@, msg),
    {
        let mut cmds: Vec<Command<O>> = Vec::new();
        if let UiEvent::Input { element_id, value: InputValue::Text(text), .. } = msg {
            if element_id == "Add Recp".to_owned() {
                cmds.push(
                    Command::Append {
                        path: CollectionPath::recipients(),
                        entry: Entry::Text(text),
                    },
                );
            } else if element_id == "Send Msg".to_owned() {
                let recipients = self.recipient_texts();
                cmds.push(
                    Command::SendEvent {
                        name: "test_event".to_owned(),
                        recipients,
                        payload: Entry::Text(text),
                    },
                );
            }
        }
        assert(commands_view(cmds@) =~= ui_reaction(self@, msg));
        cmds
    }

    pub fn router_handler(&self, msg: RouterEvent<O>) -> (cmds: Vec<Command<O>>)
        ensures
            commands_view(cmds@) == router_reaction(msg),
    {
        let mut cmds: Vec<Command<O>> = Vec::new();
        if let RouterEvent::Event { name, payload, .. } = msg {
            if name == "test_event".to_owned() {
                cmds.push(Command::Append { path: CollectionPath::messages(), entry: payload });
            }
        }
        assert(commands_view(cmds@) =~= router_reaction(msg));
        cmds
    }
}

} // verus!
