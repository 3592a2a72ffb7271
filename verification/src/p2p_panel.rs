//! State of the peer-to-peer panel: the identities and documents it lists and the
//! entries its context menu offers.

use vstd::prelude::*;

use crate::panel::{
    list_entries, lists_with_ids, numbered_name, numbered_name_string, string_views, DockPosition,
    ListEntry, MenuEntry, PanelAction, PanelIcon,
};

verus! {

/// The peer-to-peer panel's own state: the people (identities) and documents it lists,
/// and the list bookkeeping it starts with.
pub struct P2pPanel {
    people: Vec<String>,
    documents: Vec<String>,
    active: bool,
    is_scrolled_to_bottom: bool,
    last_acknowledged_message_id: Option<u64>,
}

impl P2pPanel {
    /// The names of the listed people, in order.
    pub closed spec fn people_view(&self) -> Seq<Seq<char>> {
        string_views(self.people@)
    }

    /// The names of the listed documents, in order.
    pub closed spec fn documents_view(&self) -> Seq<Seq<char>> {
        string_views(self.documents@)
    }

    /// A new panel lists `Person 1`, `Person 2` and `Document 1`, `Document 2`; it is not
    /// active, is scrolled to the bottom and has acknowledged no message.
    pub fn new() -> (panel: Self)
        ensures
            panel.people_view() == seq![
                numbered_name("Person"@, 1),
                numbered_name("Person"@, 2),
            ],
            panel.documents_view() == seq![
                numbered_name("Document"@, 1),
                numbered_name("Document"@, 2),
            ],
            !panel.is_active(),
            panel.is_scrolled_to_bottom(),
            panel.last_acknowledged_message_id() is None,
    {
        let mut people: Vec<String> = Vec::new();
        people.push(numbered_name_string("Person", 1));
        people.push(numbered_name_string("Person", 2));
        let mut documents: Vec<String> = Vec::new();
        documents.push(numbered_name_string("Document", 1));
        documents.push(numbered_name_string("Document", 2));
        let panel = P2pPanel {
            people,
            documents,
            active: false,
            is_scrolled_to_bottom: true,
            last_acknowledged_message_id: None,
        };
        assert(panel.people_view() =~= seq![numbered_name("Person"@, 1), numbered_name("Person"@, 2)]);
        assert(panel.documents_view() =~= seq![
            numbered_name("Document"@, 1),
            numbered_name("Document"@, 2),
        ]);
        panel
    }

    pub closed spec fn is_active(&self) -> bool {
        self.active
    }

    pub closed spec fn is_scrolled_to_bottom(&self) -> bool {
        self.is_scrolled_to_bottom
    }

    pub closed spec fn last_acknowledged_message_id(&self) -> Option<u64> {
        self.last_acknowledged_message_id
    }

    /// The listed people.
    pub fn people(&self) -> (people: &Vec<String>)
        ensures
            string_views(people@) == self.people_view(),
    {
        &self.people
    }

    /// The listed documents.
    pub fn documents(&self) -> (documents: &Vec<String>)
        ensures
            string_views(documents@) == self.documents_view(),
    {
        &self.documents
    }

    /// Adds a document named after the number of documents listed before it:
    /// `Document {n}`. The people stay as they were.
    pub fn create_document(&mut self)
        ensures
            final(self).documents_view() == old(self).documents_view().push(
                numbered_name("Document"@, old(self).documents_view().len()),
            ),
            final(self).people_view() == old(self).people_view(),
            final(self).is_active() == old(self).is_active(),
            final(self).is_scrolled_to_bottom() == old(self).is_scrolled_to_bottom(),
            final(self).last_acknowledged_message_id() == old(self).last_acknowledged_message_id(),
    {
        let n = self.documents.len();
        let name = numbered_name_string("Document", n);
        self.documents.push(name);
        assert(self.documents_view() =~= old(self).documents_view().push(
            numbered_name("Document"@, old(self).documents_view().len()),
        ));
    }

    /// Adds an identity named after the number of people listed before it:
    /// `Identity {n}`. The documents stay as they were.
    pub fn create_identity(&mut self)
        ensures
            final(self).people_view() == old(self).people_view().push(
                numbered_name("Identity"@, old(self).people_view().len()),
            ),
            final(self).documents_view() == old(self).documents_view(),
            final(self).is_active() == old(self).is_active(),
            final(self).is_scrolled_to_bottom() == old(self).is_scrolled_to_bottom(),
            final(self).last_acknowledged_message_id() == old(self).last_acknowledged_message_id(),
    {
        let n = self.people.len();
        let name = numbered_name_string("Identity", n);
        self.people.push(name);
        assert(self.people_view() =~= old(self).people_view().push(
            numbered_name("Identity"@, old(self).people_view().len()),
        ));
    }

    /// The rows of the people list: person `i` named `name` is shown under the id
    /// `people-{i}-{name}`.
    fn render_people(&self) -> (entries: Vec<ListEntry>)
        ensures
            lists_with_ids(entries@, "people-"@, self.people_view()),
            forall|i: int, j: int|
                0 <= i < entries.len() && 0 <= j < entries.len() && i != j
                    ==> (#[trigger] entries@[i]).id@ != (#[trigger] entries@[j]).id@,
    {
        list_entries("people-", &self.people)
    }

    /// The rows of the document list: document `i` named `name` is shown under the id
    /// `documents-{i}-{name}`.
    pub fn render_documents(&self) -> (entries: Vec<ListEntry>)
        ensures
            lists_with_ids(entries@, "documents-"@, self.documents_view()),
            forall|i: int, j: int|
                0 <= i < entries.len() && 0 <= j < entries.len() && i != j
                    ==> (#[trigger] entries@[i]).id@ != (#[trigger] entries@[j]).id@,
    {
        list_entries("documents-", &self.documents)
    }

    /// Both lists of the panel, people first.
    pub fn render(&self) -> (lists: (Vec<ListEntry>, Vec<ListEntry>))
        ensures
            lists_with_ids(lists.0@, "people-"@, self.people_view()),
            lists_with_ids(lists.1@, "documents-"@, self.documents_view()),
    {
        (self.render_people(), self.render_documents())
    }

    /// The context menu a right click on a document opens: `Create Document`, then
    /// `Create Identity`.
    pub fn deploy_context_menu(&self) -> (menu: Vec<MenuEntry>)
        ensures
            menu.len() == 2,
            menu@[0].label@ == "Create Document"@,
            menu@[0].action == PanelAction::CreateDocument,
            menu@[1].label@ == "Create Identity"@,
            menu@[1].action == PanelAction::CreateIdentity,
    {
        let mut menu: Vec<MenuEntry> = Vec::new();
        menu.push(MenuEntry { label: String::from_str("Create Document"), action: PanelAction::CreateDocument });
        menu.push(MenuEntry { label: String::from_str("Create Identity"), action: PanelAction::CreateIdentity });
        menu
    }

    /// Runs one of the panel's actions on it. Toggling focus is the workspace's business
    /// and leaves the panel as it is.
    pub fn handle_action(&mut self, action: PanelAction)
        ensures
            action == PanelAction::CreateDocument ==> {
                &&& final(self).documents_view() == old(self).documents_view().push(
                    numbered_name("Document"@, old(self).documents_view().len()),
                )
                &&& final(self).people_view() == old(self).people_view()
            },
            action == PanelAction::CreateIdentity ==> {
                &&& final(self).people_view() == old(self).people_view().push(
                    numbered_name("Identity"@, old(self).people_view().len()),
                )
                &&& final(self).documents_view() == old(self).documents_view()
            },
            action == PanelAction::ToggleFocus ==> *final(self) == *old(self),
            final(self).is_active() == old(self).is_active(),
            final(self).is_scrolled_to_bottom() == old(self).is_scrolled_to_bottom(),
            final(self).last_acknowledged_message_id() == old(self).last_acknowledged_message_id(),
    {
        match action {
            PanelAction::CreateDocument => self.create_document(),
            PanelAction::CreateIdentity => self.create_identity(),
            PanelAction::ToggleFocus => {},
        }
    }

    /// The key the panel is persisted under.
    pub fn persistent_name() -> (name: &'static str)
        ensures
            name@ == "P2p"@,
    {
        "P2p"
    }

    /// The panel always docks on the left.
    pub fn position(&self) -> (position: DockPosition)
        ensures
            position == DockPosition::Left,
    {
        DockPosition::Left
    }

    /// Only the left dock is a valid position for the panel.
    pub fn position_is_valid(&self, position: DockPosition) -> (valid: bool)
        ensures
            valid == (position == DockPosition::Left),
    {
        position == DockPosition::Left
    }

    pub fn icon(&self) -> (icon: Option<PanelIcon>)
        ensures
            icon == Some(PanelIcon::DatabaseZap),
    {
        Some(PanelIcon::DatabaseZap)
    }

    pub fn icon_tooltip(&self) -> (tooltip: Option<&'static str>)
        ensures
            tooltip matches Some(t) && t@ == "P2p"@,
    {
        Some("P2p")
    }

    pub fn toggle_action(&self) -> (action: PanelAction)
        ensures
            action == PanelAction::ToggleFocus,
    {
        PanelAction::ToggleFocus
    }

    pub fn activation_priority(&self) -> (priority: u32)
        ensures
            priority == 0,
    {
        0
    }
}

} // verus!
