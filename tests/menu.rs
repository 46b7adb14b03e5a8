use looply::menu::{
    create_menu, ffmpeg_version_label, handle_menu_event, MenuAction, MenuEntry, PredefinedItem,
};

fn custom_ids(app_version: &str, ffmpeg: Option<&str>) -> Vec<String> {
    let tree = create_menu(app_version, ffmpeg);
    let mut ids = Vec::new();
    for sub in &tree.submenus {
        for entry in &sub.entries {
            if let MenuEntry::Action { id, .. } = entry {
                ids.push(id.clone());
            }
        }
    }
    ids
}

#[test]
fn ffmpeg_label_with_version() {
    assert_eq!(ffmpeg_version_label(Some("6.1")), "FFmpeg version: 6.1");
}

#[test]
fn ffmpeg_label_when_unknown() {
    assert_eq!(ffmpeg_version_label(None), "FFmpeg version: Unknown");
}

#[test]
fn about_version_combines_both_versions() {
    let tree = create_menu("1.2.3", Some("6.1"));
    assert_eq!(tree.about.version, "1.2.3\n(FFmpeg version: 6.1)");
    let tree = create_menu("0.1.0", None);
    assert_eq!(tree.about.version, "0.1.0\n(FFmpeg version: Unknown)");
    assert_eq!(tree.about.license, "MIT");
    assert_eq!(tree.about.website, "https://cavazzatommaso.com");
    assert_eq!(tree.about.copyright, "\u{c2}\u{a9} 2025");
    assert_eq!(
        tree.about.authors,
        vec!["Cavazza Tommaso <contact@cavazzatommaso.com>".to_string()]
    );
}

#[test]
fn menu_has_three_submenus() {
    let tree = create_menu("1.0.0", None);
    let labels: Vec<&str> = tree.submenus.iter().map(|s| s.label.as_str()).collect();
    assert_eq!(labels, vec!["Looply", "Edit", "Help"]);
    assert_eq!(tree.submenus[0].entries.len(), 8);
    assert_eq!(tree.submenus[0].entries[0], MenuEntry::Predefined(PredefinedItem::About));
    assert_eq!(tree.submenus[0].entries[7], MenuEntry::Predefined(PredefinedItem::Quit));
    assert_eq!(
        tree.submenus[1].entries,
        vec![
            MenuEntry::Predefined(PredefinedItem::Undo),
            MenuEntry::Predefined(PredefinedItem::Redo),
            MenuEntry::Separator,
            MenuEntry::Predefined(PredefinedItem::Cut),
            MenuEntry::Predefined(PredefinedItem::Copy),
            MenuEntry::Predefined(PredefinedItem::Paste),
            MenuEntry::Predefined(PredefinedItem::SelectAll),
        ]
    );
}

#[test]
fn menu_custom_ids_are_update_and_report() {
    assert_eq!(custom_ids("2.0.0", Some("7.0")), vec!["check_for_update", "report_issue"]);
    assert_eq!(custom_ids("", None), vec!["check_for_update", "report_issue"]);
}

#[test]
fn report_issue_shows_one_dialog() {
    assert_eq!(
        handle_menu_event("report_issue"),
        MenuAction::ShowDialog {
            title: "Report Issue".to_string(),
            message: "If you encounter any issues, please email us at contact@cavazzatommaso.com"
                .to_string(),
        }
    );
}

#[test]
fn check_for_update_emits_event() {
    assert_eq!(
        handle_menu_event("check_for_update"),
        MenuAction::Emit { event: "check-update".to_string() }
    );
}

#[test]
fn other_ids_are_ignored() {
    assert_eq!(handle_menu_event("quit"), MenuAction::Ignore);
    assert_eq!(handle_menu_event(""), MenuAction::Ignore);
    assert_eq!(handle_menu_event("report_issue "), MenuAction::Ignore);
}
