use zed_core::libp2p_panel::Libp2pPanel;
use zed_core::p2p_panel::P2pPanel;
use zed_core::panel::{element_id_string, numbered_name_string, DockPosition, PanelAction, PanelIcon};
use zed_core::text::decimal_string;

#[test]
fn decimal_numerals() {
    assert_eq!(decimal_string(0), "0");
    assert_eq!(decimal_string(7), "7");
    assert_eq!(decimal_string(10), "10");
    assert_eq!(decimal_string(1234567890), "1234567890");
    assert_eq!(decimal_string(usize::MAX), usize::MAX.to_string());
}

#[test]
fn element_ids_and_names() {
    assert_eq!(element_id_string("documents-", 3, "Notes"), "documents-3-Notes");
    assert_eq!(element_id_string("people-", 12, "a-b"), "people-12-a-b");
    assert_eq!(numbered_name_string("Document", 0), "Document 0");
}

#[test]
fn new_p2p_panel_lists_two_people_and_two_documents() {
    let panel = P2pPanel::new();
    assert_eq!(panel.people(), &vec!["Person 1".to_string(), "Person 2".to_string()]);
    assert_eq!(panel.documents(), &vec!["Document 1".to_string(), "Document 2".to_string()]);
}

#[test]
fn create_document_is_named_after_the_count_before_it() {
    let mut panel = P2pPanel::new();
    panel.create_document();
    panel.create_document();
    assert_eq!(
        panel.documents(),
        &vec![
            "Document 1".to_string(),
            "Document 2".to_string(),
            "Document 2".to_string(),
            "Document 3".to_string(),
        ]
    );
    assert_eq!(panel.people().len(), 2);
}

#[test]
fn create_identity_is_named_after_the_count_before_it() {
    let mut panel = P2pPanel::new();
    panel.create_identity();
    assert_eq!(
        panel.people(),
        &vec!["Person 1".to_string(), "Person 2".to_string(), "Identity 2".to_string()]
    );
    assert_eq!(panel.documents().len(), 2);
}

#[test]
fn rendered_rows_have_distinct_ids_even_for_equal_names() {
    let mut panel = P2pPanel::new();
    panel.create_document();
    let rows = panel.render_documents();
    let ids: Vec<&str> = rows.iter().map(|r| r.id.as_str()).collect();
    assert_eq!(ids, vec!["documents-0-Document 1", "documents-1-Document 2", "documents-2-Document 2"]);
    assert_eq!(rows[2].label, "Document 2");
    let (people, documents) = panel.render();
    assert_eq!(people[1].id, "people-1-Person 2");
    assert_eq!(documents.len(), 3);
}

#[test]
fn actions_and_context_menu() {
    let mut panel = P2pPanel::new();
    let menu = panel.deploy_context_menu();
    assert_eq!(menu.len(), 2);
    assert_eq!(menu[0].label, "Create Document");
    assert_eq!(menu[0].action, PanelAction::CreateDocument);
    assert_eq!(menu[1].label, "Create Identity");
    assert_eq!(menu[1].action, PanelAction::CreateIdentity);
    panel.handle_action(menu[1].action);
    panel.handle_action(PanelAction::ToggleFocus);
    assert_eq!(panel.people().len(), 3);
    assert_eq!(panel.documents().len(), 2);
}

#[test]
fn p2p_panel_docking() {
    let panel = P2pPanel::new();
    assert_eq!(P2pPanel::persistent_name(), "P2p");
    assert_eq!(panel.position(), DockPosition::Left);
    assert!(panel.position_is_valid(DockPosition::Left));
    assert!(!panel.position_is_valid(DockPosition::Right));
    assert!(!panel.position_is_valid(DockPosition::Bottom));
    assert_eq!(panel.icon(), Some(PanelIcon::DatabaseZap));
    assert_eq!(panel.icon_tooltip(), Some("P2p"));
    assert_eq!(panel.toggle_action(), PanelAction::ToggleFocus);
    assert_eq!(panel.activation_priority(), 0);
}

#[test]
fn libp2p_panel_docking() {
    let panel = Libp2pPanel::new();
    assert_eq!(Libp2pPanel::persistent_name(), "Libp2p");
    assert_eq!(panel.position(), DockPosition::Left);
    assert!(!panel.position_is_valid(DockPosition::Bottom));
    assert_eq!(panel.icon(), Some(PanelIcon::FileTree));
    assert_eq!(panel.icon_tooltip(), Some("Libp2p"));
    assert_eq!(panel.toggle_action(), PanelAction::ToggleFocus);
    assert_eq!(panel.activation_priority(), 0);
    assert_eq!(panel.render(), "Hello, world!");
}
