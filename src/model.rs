//! Values exchanged with the transport: collection entries and collection paths.
use vstd::prelude::*;

verus! {

/// One value of a replicated collection.
#[derive(Clone, Debug, PartialEq, Eq)]
pub enum Entry<O> {
    /// A text value.
    Text(String),
    /// Any other value, carried as the transport gave it.
    Other(O),
}

/// What an entry holds, its text as a plain sequence.
pub enum EntryView<O> {
    Text(Seq<char>),
    Other(O),
}

impl<O> View for Entry<O> {
    type V = EntryView<O>;

    open spec fn view(&self) -> EntryView<O> {
        match self {
            Entry::Text(s) => EntryView::Text(s@),
            Entry::Other(b) => EntryView::Other(*b),
        }
    }
}

/// The views of a sequence of entries, in order.
pub open spec fn entries_view<O>(s: Seq<Entry<O>>) -> Seq<EntryView<O>> {
    s.map_values(|e: Entry<O>| e@)
}

/// The address of a synchronized collection: its scope and its name parts.
#[derive(Clone, Debug, PartialEq, Eq)]
pub struct CollectionPath {
    pub private: bool,
    pub parts: Vec<String>,
}

pub struct PathView {
    pub private: bool,
    pub parts: Seq<Seq<char>>,
}

impl View for CollectionPath {
    type V = PathView;

    open spec fn view(&self) -> PathView {
        PathView { private: self.private, parts: self.parts@.map_values(|s: String| s@) }
    }
}

/// The private collection `[name]`.
pub open spec fn private_path(name: Seq<char>) -> PathView {
    PathView { private: true, parts: seq![name] }
}

/// The collection of encoded recipient identities.
pub open spec fn recipients_path() -> PathView {
    private_path("Recp"@)
}

/// The collection of relayed messages.
pub open spec fn messages_path() -> PathView {
    private_path("Messages"@)
}

/// The two collections of the relay are distinct.
pub proof fn lemma_paths_distinct()
    ensures
        recipients_path() != messages_path(),
{
    reveal_strlit("Recp");
    reveal_strlit("Messages");
    assert(recipients_path().parts[0].len() != messages_path().parts[0].len());
}

impl CollectionPath {
    /// A private collection with a single name part.
    pub fn new_private(name: &str) -> (r: CollectionPath)
        ensures
            r@ == private_path(name@),
    {
        let r = CollectionPath { private: true, parts: vec![name.to_owned()] };
        assert(r@.parts =~= seq![name@]);
        r
    }

    pub fn recipients() -> (r: CollectionPath)
        ensures
            r@ == recipients_path(),
    {
        CollectionPath::new_private("Recp")
    }

    pub fn messages() -> (r: CollectionPath)
        ensures
            r@ == messages_path(),
    {
        CollectionPath::new_private("Messages")
    }

    /// Whether two paths name the same collection.
    pub fn same_as(&self, other: &CollectionPath) -> (r: bool)
        ensures
            r == (self@ == other@),
    {
        if self.private != other.private || self.parts.len() != other.parts.len() {
            proof {
                if self@ == other@ {
                    assert(self@.parts.len() == other@.parts.len());
                }
            }
            return false;
        }
        let n = self.parts.len();
        let mut i: usize = 0;
        while i < n
            invariant
                n == self.parts@.len(),
                n == other.parts@.len(),
                i <= n,
                forall|j: int| 0 <= j < i ==> self.parts@[j]@ == other.parts@[j]@,
            decreases n - i,
        {
            if self.parts[i] != other.parts[i] {
                proof {
                    if self@ == other@ {
                        assert(self@.parts[i as int] == other@.parts[i as int]);
                    }
                }
                return false;
            }
            i = i + 1;
        }
        assert(self@.parts =~= other@.parts);
        true
    }
}

} // verus!
