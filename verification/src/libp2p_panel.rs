//! State of the libp2p panel, a placeholder panel docked on the left.

use vstd::prelude::*;

use crate::panel::{DockPosition, PanelAction, PanelIcon};

verus! {

/// The libp2p panel's own state: the list bookkeeping it starts with.
pub struct Libp2pPanel {
    active: bool,
    is_scrolled_to_bottom: bool,
    last_acknowledged_message_id: Option<u64>,
}

impl Libp2pPanel {
    pub closed spec fn is_active(&self) -> bool {
        self.active
    }

    pub closed spec fn is_scrolled_to_bottom(&self) -> bool {
        self.is_scrolled_to_bottom
    }

    pub closed spec fn last_acknowledged_message_id(&self) -> Option<u64> {
        self.last_acknowledged_message_id
    }

    /// A new panel is not active, is scrolled to the bottom and has acknowledged no message.
    pub fn new() -> (panel: Self)
        ensures
            !panel.is_active(),
            panel.is_scrolled_to_bottom(),
            panel.last_acknowledged_message_id() is None,
    {
        Libp2pPanel { active: false, is_scrolled_to_bottom: true, last_acknowledged_message_id: None }
    }

    /// The key the panel is persisted under.
    pub fn persistent_name() -> (name: &'static str)
        ensures
            name@ == "Libp2p"@,
    {
        "Libp2p"
    }

    /// The panel always docks on the left.
    pub fn position(&self) -> (position: DockPosition)
        ensures
            position == DockPosition::Left,
    {
        DockPosition::Left
    }

    /// Only the left dock is a valid position for the panel.
    pub fn position_is_valid(&self, position: DockPosition) -> (valid: bool)
        ensures
            valid == (position == DockPosition::Left),
    {
        position == DockPosition::Left
    }

    pub fn icon(&self) -> (icon: Option<PanelIcon>)
        ensures
            icon == Some(PanelIcon::FileTree),
    {
        Some(PanelIcon::FileTree)
    }

    pub fn icon_tooltip(&self) -> (tooltip: Option<&'static str>)
        ensures
            tooltip matches Some(t) && t@ == "Libp2p"@,
    {
        Some("Libp2p")
    }

    pub fn toggle_action(&self) -> (action: PanelAction)
        ensures
            action == PanelAction::ToggleFocus,
    {
        PanelAction::ToggleFocus
    }

    pub fn activation_priority(&self) -> (priority: u32)
        ensures
            priority == 0,
    {
        0
    }

    /// The text the panel shows.
    pub fn render(&self) -> (text: &'static str)
        ensures
            text@ == "Hello, world!"@,
    {
        "Hello, world!"
    }
}

} // verus!
