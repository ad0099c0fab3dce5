//! The declarative UI page that the relay shows: a tree of typed elements.
use vstd::prelude::*;

use crate::model::{CollectionPath, PathView, recipients_path, messages_path};

verus! {

#[derive(Clone, Copy, Debug, PartialEq, Eq)]
pub enum ElementKind {
    /// A container laying out its children in rows.
    Rows,
    /// Text display.
    Text,
    /// A text-entry field.
    TextEntry,
}

/// One part of an element's content.
#[derive(Clone, Debug, PartialEq, Eq)]
pub enum ContentPart {
    /// Static text.
    Text(String),
    /// A reference into the bound collection's item (an empty path is the item itself).
    Data(Vec<usize>),
}

/// An element of the page tree.
#[derive(Debug, PartialEq, Eq)]
pub struct UiElement {
    pub kind: ElementKind,
    pub selectable: bool,
    /// The caller-visible id that input events carry.
    pub id: Option<String>,
    /// The collection this subtree is bound to; its children are then a template.
    pub dataset: Option<CollectionPath>,
    pub content: Vec<ContentPart>,
    pub children: Vec<UiElement>,
}

/// A page: its name and its root element.
#[derive(Debug, PartialEq, Eq)]
pub struct UiPage {
    pub name: String,
    pub root: UiElement,
}

/// A selectable text-entry field whose id and label are both `label`.
pub open spec fn is_entry_field(e: UiElement, label: Seq<char>) -> bool {
    &&& e.kind == ElementKind::TextEntry
    &&& e.selectable
    &&& e.id matches Some(i) && i@ == label
    &&& e.dataset matches None
    &&& e.content@.len() == 1
    &&& e.content@[0] matches ContentPart::Text(t) && t@ == label
    &&& e.children@.len() == 0
}

/// A text element that shows the whole item of the collection it is repeated for.
pub open spec fn is_item_template(e: UiElement) -> bool {
    &&& e.kind == ElementKind::Text
    &&& !e.selectable
    &&& e.id matches None
    &&& e.dataset matches None
    &&& e.content@.len() == 1
    &&& e.content@[0] matches ContentPart::Data(p) && p@.len() == 0
    &&& e.children@.len() == 0
}

/// A row container bound to `path`, holding one item template.
pub open spec fn is_bound_list(e: UiElement, path: PathView) -> bool {
    &&& e.kind == ElementKind::Rows
    &&& !e.selectable
    &&& e.id matches None
    &&& e.dataset matches Some(p) && p@ == path
    &&& e.content@.len() == 0
    &&& e.children@.len() == 1
    &&& is_item_template(e.children@[0])
}

/// The relay's page: a row container holding, in order, the "Add Recp" field,
/// the recipients list, the "Send Msg" field and the messages list.
pub open spec fn is_relay_page(p: UiPage) -> bool {
    let root = p.root;
    &&& p.name@ == "Router Test Page"@
    &&& root.kind == ElementKind::Rows
    &&& !root.selectable
    &&& root.id matches None
    &&& root.dataset matches None
    &&& root.content@.len() == 0
    &&& root.children@.len() == 4
    &&& is_entry_field(root.children@[0], "Add Recp"@)
    &&& is_bound_list(root.children@[1], recipients_path())
    &&& is_entry_field(root.children@[2], "Send Msg"@)
    &&& is_bound_list(root.children@[3], messages_path())
}

impl UiElement {
    /// An empty element of the given kind.
    pub fn new(kind: ElementKind) -> (r: UiElement)
        ensures
            r.kind == kind,
            !r.selectable,
            r.id matches None,
            r.dataset matches None,
            r.content@.len() == 0,
            r.children@.len() == 0,
    {
        UiElement {
            kind,
            selectable: false,
            id: None,
            dataset: None,
            content: Vec::new(),
            children: Vec::new(),
        }
    }

    /// A selectable text-entry field labelled and identified by `label`.
    pub fn entry_field(label: &str) -> (r: UiElement)
        ensures
            is_entry_field(r, label@),
    {
        let mut e = UiElement::new(ElementKind::TextEntry);
        e.selectable = true;
        e.id = Some(label.to_owned());
        e.content.push(ContentPart::Text(label.to_owned()));
        e
    }

    /// A row container bound to `path` whose items are shown as text.
    pub fn bound_list(path: CollectionPath) -> (r: UiElement)
        ensures
            is_bound_list(r, path@),
    {
        let mut item = UiElement::new(ElementKind::Text);
        item.content.push(ContentPart::Data(Vec::new()));
        let mut e = UiElement::new(ElementKind::Rows);
        e.dataset = Some(path);
        e.children.push(item);
        e
    }
}

impl UiPage {
    /// The page the relay sends once at startup.
    pub fn relay_page() -> (r: UiPage)
        ensures
            is_relay_page(r),
    {
        let mut root = UiElement::new(ElementKind::Rows);
        root.children.push(UiElement::entry_field("Add Recp"));
        root.children.push(UiElement::bound_list(CollectionPath::recipients()));
        root.children.push(UiElement::entry_field("Send Msg"));
        root.children.push(UiElement::bound_list(CollectionPath::messages()));
        UiPage { name: "Router Test Page".to_owned(), root }
    }
}

} // verus!
