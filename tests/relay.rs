use spider_relay::model::{CollectionPath, Entry};
use spider_relay::page::{ContentPart, ElementKind, UiPage};
use spider_relay::protocol::{Command, DatasetEvent, Event, InputValue, RouterEvent, UiEvent};
use spider_relay::recipients::select_recipients;
use spider_relay::relay::State;

type Value = Vec<u8>;

fn text(s: &str) -> Entry<Value> {
    Entry::Text(s.to_string())
}

fn snapshot(path: CollectionPath, entries: Vec<Entry<Value>>) -> Event<Value> {
    Event::Dataset(DatasetEvent::Snapshot { path, entries })
}

fn input(id: &str, value: InputValue) -> Event<Value> {
    Event::Ui(UiEvent::Input { element_id: id.to_string(), dataset_ids: vec![], value })
}

fn empty_state() -> State<Value> {
    State { recipients: vec![], messages: vec![] }
}

#[test]
fn startup_issues_five_commands_in_order() {
    let (state, cmds): (State<Value>, _) = State::init();
    assert_eq!(state, empty_state());
    assert_eq!(cmds.len(), 5);
    assert_eq!(
        cmds[0],
        Command::SetIdentityProperty { name: "name".to_string(), value: "Test Router".to_string() }
    );
    assert_eq!(cmds[1], Command::SubscribeCollection { path: CollectionPath::recipients() });
    assert_eq!(cmds[2], Command::SubscribeCollection { path: CollectionPath::messages() });
    assert_eq!(cmds[3], Command::SubscribeEvent { name: "test_event".to_string() });
    match &cmds[4] {
        Command::SetPage { page } => assert_eq!(*page, UiPage::relay_page()),
        other => panic!("expected a page, got {:?}", other),
    }
}

#[test]
fn startup_page_layout() {
    let page = UiPage::relay_page();
    assert_eq!(page.name, "Router Test Page");
    let root = &page.root;
    assert_eq!(root.kind, ElementKind::Rows);
    assert_eq!(root.children.len(), 4);
    let add = &root.children[0];
    assert_eq!(add.kind, ElementKind::TextEntry);
    assert!(add.selectable);
    assert_eq!(add.id.as_deref(), Some("Add Recp"));
    assert_eq!(add.content, vec![ContentPart::Text("Add Recp".to_string())]);
    let recps = &root.children[1];
    assert_eq!(recps.kind, ElementKind::Rows);
    assert_eq!(recps.dataset, Some(CollectionPath::recipients()));
    assert_eq!(recps.children.len(), 1);
    assert_eq!(recps.children[0].kind, ElementKind::Text);
    assert_eq!(recps.children[0].content, vec![ContentPart::Data(vec![])]);
    assert_eq!(root.children[2].id.as_deref(), Some("Send Msg"));
    assert_eq!(root.children[2].kind, ElementKind::TextEntry);
    assert_eq!(root.children[3].dataset, Some(CollectionPath::messages()));
}

#[test]
fn paths_compare_by_scope_and_name() {
    let recp = CollectionPath::recipients();
    assert!(recp.same_as(&CollectionPath::new_private("Recp")));
    assert!(!recp.same_as(&CollectionPath::messages()));
    let public = CollectionPath { private: false, parts: vec!["Recp".to_string()] };
    assert!(!recp.same_as(&public));
    let longer = CollectionPath { private: true, parts: vec!["Recp".to_string(), "x".to_string()] };
    assert!(!recp.same_as(&longer));
}

#[test]
fn router_event_is_relayed_into_messages() {
    let mut state = empty_state();
    for sender in ["alice", "bob"] {
        let cmds = state.msg_handler(Event::Router(RouterEvent::Event {
            name: "test_event".to_string(),
            sender: sender.to_string(),
            payload: text("hello"),
        }));
        assert_eq!(
            cmds,
            vec![Command::Append { path: CollectionPath::messages(), entry: text("hello") }]
        );
    }
    assert_eq!(state, empty_state());
}

#[test]
fn router_event_with_other_name_is_ignored() {
    let mut state = empty_state();
    let cmds = state.msg_handler(Event::Router(RouterEvent::Event {
        name: "other_event".to_string(),
        sender: "alice".to_string(),
        payload: text("hello"),
    }));
    assert!(cmds.is_empty());
}

#[test]
fn ignorable_events_change_nothing() {
    let mut state = State { recipients: vec![text("r")], messages: vec![text("m")] };
    let events = vec![
        Event::Dataset(DatasetEvent::Other),
        Event::Ui(UiEvent::Other),
        Event::Router(RouterEvent::Other),
        Event::Error("boom".to_string()),
    ];
    for e in events {
        let cmds = state.msg_handler(e);
        assert!(cmds.is_empty());
        assert_eq!(state, State { recipients: vec![text("r")], messages: vec![text("m")] });
    }
}

#[test]
fn recipients_snapshot_replaces_verbatim() {
    let mut state = State { recipients: vec![text("old")], messages: vec![text("m")] };
    let entries = vec![text("b"), Entry::Other(vec![1, 2]), text("a"), text("b")];
    let cmds = state.msg_handler(snapshot(CollectionPath::recipients(), entries.clone()));
    assert!(cmds.is_empty());
    assert_eq!(state.recipients, entries);
    assert_eq!(state.messages, vec![text("m")]);
}

#[test]
fn snapshot_of_other_path_is_ignored() {
    let mut state = empty_state();
    let cmds = state.msg_handler(snapshot(CollectionPath::new_private("Other"), vec![text("x")]));
    assert!(cmds.is_empty());
    assert_eq!(state, empty_state());
}

#[test]
fn messages_snapshot_over_limit_evicts_oldest() {
    let mut state = empty_state();
    let entries: Vec<Entry<Value>> = (0..12).map(|i| text(&i.to_string())).collect();
    let cmds = state.msg_handler(snapshot(CollectionPath::messages(), entries.clone()));
    assert_eq!(
        cmds,
        vec![Command::DeleteElement { path: CollectionPath::messages(), position: 0 }]
    );
    assert_eq!(state.messages, entries);
}

#[test]
fn messages_snapshot_at_limit_keeps_all() {
    let mut state = empty_state();
    let entries: Vec<Entry<Value>> = (0..10).map(|i| text(&i.to_string())).collect();
    let cmds = state.msg_handler(snapshot(CollectionPath::messages(), entries.clone()));
    assert!(cmds.is_empty());
    assert_eq!(state.messages, entries);
}

#[test]
fn growing_messages_delete_only_at_eleven() {
    let mut state = empty_state();
    let mut entries = vec![];
    for n in 1..=11 {
        entries.push(text(&format!("m{}", n)));
        let cmds = state.msg_handler(snapshot(CollectionPath::messages(), entries.clone()));
        if n == 11 {
            assert_eq!(
                cmds,
                vec![Command::DeleteElement { path: CollectionPath::messages(), position: 0 }]
            );
        } else {
            assert!(cmds.is_empty());
        }
    }
}

#[test]
fn add_recipient_round_trip() {
    let (mut state, _): (State<Value>, _) = State::init();
    let cmds = state.msg_handler(input("Add Recp", InputValue::Text("abc".to_string())));
    assert_eq!(
        cmds,
        vec![Command::Append { path: CollectionPath::recipients(), entry: text("abc") }]
    );
    assert!(state.recipients.is_empty());
    let cmds = state.msg_handler(snapshot(CollectionPath::recipients(), vec![text("abc")]));
    assert!(cmds.is_empty());
    assert_eq!(state.recipients, vec![text("abc")]);
}

#[test]
fn send_message_addresses_text_recipients() {
    let mut state = State {
        recipients: vec![text("id1"), Entry::Other(vec![7]), text("id2")],
        messages: vec![],
    };
    let cmds = state.msg_handler(input("Send Msg", InputValue::Text("hi".to_string())));
    assert_eq!(
        cmds,
        vec![Command::SendEvent {
            name: "test_event".to_string(),
            recipients: vec!["id1".to_string(), "id2".to_string()],
            payload: text("hi"),
        }]
    );
    assert_eq!(state.recipient_texts(), vec!["id1".to_string(), "id2".to_string()]);
}

#[test]
fn non_text_input_and_unknown_ids_are_ignored() {
    let mut state = State { recipients: vec![text("id1")], messages: vec![] };
    assert!(state.msg_handler(input("Add Recp", InputValue::Other)).is_empty());
    assert!(state.msg_handler(input("Send Msg", InputValue::Other)).is_empty());
    assert!(state.msg_handler(input("Something", InputValue::Text("x".to_string()))).is_empty());
    assert_eq!(state, State { recipients: vec![text("id1")], messages: vec![] });
}

#[test]
fn undecodable_recipients_are_dropped() {
    let decoded = vec![Some(1u32), None, Some(3), None, None, Some(6)];
    assert_eq!(select_recipients(decoded), vec![1, 3, 6]);
    let none: Vec<Option<u32>> = vec![None, None];
    assert!(select_recipients(none).is_empty());
    assert!(select_recipients(Vec::<Option<u32>>::new()).is_empty());
}

#[test]
fn non_text_router_payload_is_relayed_unchanged() {
    let mut state = empty_state();
    let cmds = state.msg_handler(Event::Router(RouterEvent::Event {
        name: "test_event".to_string(),
        sender: "alice".to_string(),
        payload: Entry::Other(vec![9, 8, 7]),
    }));
    assert_eq!(
        cmds,
        vec![Command::Append { path: CollectionPath::messages(), entry: Entry::Other(vec![9, 8, 7]) }]
    );
}

#[test]
fn handlers_by_category_match_dispatch() {
    let mut state = State { recipients: vec![text("id1")], messages: vec![] };
    let ui = state.ui_handler(UiEvent::Input {
        element_id: "Send Msg".to_string(),
        dataset_ids: vec![0, 1],
        value: InputValue::Text("yo".to_string()),
    });
    assert_eq!(
        ui,
        vec![Command::SendEvent {
            name: "test_event".to_string(),
            recipients: vec!["id1".to_string()],
            payload: text("yo"),
        }]
    );
    let routed = state.router_handler(RouterEvent::Other);
    assert!(routed.is_empty());
    let ds = state.dataset_handler(DatasetEvent::Snapshot {
        path: CollectionPath::recipients(),
        entries: vec![],
    });
    assert!(ds.is_empty());
    assert!(state.recipients.is_empty());
}

#[test]
fn send_message_with_no_recipients_sends_to_none() {
    let state: State<Value> = empty_state();
    let cmds = state.ui_handler(UiEvent::Input {
        element_id: "Send Msg".to_string(),
        dataset_ids: vec![],
        value: InputValue::Text("alone".to_string()),
    });
    assert_eq!(
        cmds,
        vec![Command::SendEvent { name: "test_event".to_string(), recipients: vec![], payload: text("alone") }]
    );
}
