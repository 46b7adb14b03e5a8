//! The application menu, as a tree of plain values that the windowing layer
//! realises, and the routing of menu activations to the action they trigger.
use vstd::prelude::*;
use crate::opt_str_view;

verus! {

/// A menu entry whose behaviour the host platform supplies.
#[derive(Clone, Copy, PartialEq, Eq, Structural, Debug)]
pub enum PredefinedItem {
    About,
    Hide,
    HideOthers,
    ShowAll,
    Quit,
    Undo,
    Redo,
    Cut,
    Copy,
    Paste,
    SelectAll,
}

/// One entry of a submenu.
#[derive(PartialEq, Eq, Debug)]
pub enum MenuEntry {
    /// An entry of the application's own, reported by its identifier.
    Action { id: String, label: String },
    Separator,
    Predefined(PredefinedItem),
}

/// The mathematical form of a [`MenuEntry`].
pub enum EntryModel {
    Action { id: Seq<char>, label: Seq<char> },
    Separator,
    Predefined(PredefinedItem),
}

impl View for MenuEntry {
    type V = EntryModel;

    open spec fn view(&self) -> EntryModel {
        match self {
            MenuEntry::Action { id, label } => EntryModel::Action { id: id@, label: label@ },
            MenuEntry::Separator => EntryModel::Separator,
            MenuEntry::Predefined(p) => EntryModel::Predefined(*p),
        }
    }
}

/// A labelled submenu and its entries, in order.
#[derive(PartialEq, Eq, Debug)]
pub struct Submenu {
    pub label: String,
    pub entries: Vec<MenuEntry>,
}

pub struct SubmenuModel {
    pub label: Seq<char>,
    pub entries: Seq<EntryModel>,
}

impl View for Submenu {
    type V = SubmenuModel;

    open spec fn view(&self) -> SubmenuModel {
        SubmenuModel { label: self.label@, entries: self.entries@.map_values(|e: MenuEntry| e@) }
    }
}

/// What the About panel shows.
#[derive(PartialEq, Eq, Debug)]
pub struct AboutMetadata {
    pub authors: Vec<String>,
    pub comments: String,
    pub version: String,
    pub copyright: String,
    pub license: String,
    pub website: String,
}

pub struct AboutModel {
    pub authors: Seq<Seq<char>>,
    pub comments: Seq<char>,
    pub version: Seq<char>,
    pub copyright: Seq<char>,
    pub license: Seq<char>,
    pub website: Seq<char>,
}

impl View for AboutMetadata {
    type V = AboutModel;

    open spec fn view(&self) -> AboutModel {
        AboutModel {
            authors: self.authors@.map_values(|a: String| a@),
            comments: self.comments@,
            version: self.version@,
            copyright: self.copyright@,
            license: self.license@,
            website: self.website@,
        }
    }
}

/// The whole menu: its submenus in order, and the About panel's metadata.
#[derive(PartialEq, Eq, Debug)]
pub struct MenuTree {
    pub about: AboutMetadata,
    pub submenus: Vec<Submenu>,
}

pub struct MenuTreeModel {
    pub about: AboutModel,
    pub submenus: Seq<SubmenuModel>,
}

impl View for MenuTree {
    type V = MenuTreeModel;

    open spec fn view(&self) -> MenuTreeModel {
        MenuTreeModel {
            about: self.about@,
            submenus: self.submenus@.map_values(|s: Submenu| s@),
        }
    }
}

/// The line that names the bundled encoder's version, or says it is unknown.
pub open spec fn ffmpeg_label_spec(version: Option<Seq<char>>) -> Seq<char> {
    match version {
        Some(v) => "FFmpeg version: "@ + v,
        None => "FFmpeg version: Unknown"@,
    }
}

/// The About panel for the given application version and encoder version.
pub open spec fn about_spec(app_version: Seq<char>, ffmpeg_version: Option<Seq<char>>) -> AboutModel {
    AboutModel {
        authors: seq!["Cavazza Tommaso <contact@cavazzatommaso.com>"@],
        comments: "A simple cross-platform desktop app to create GIFs from image sequences"@,
        version: app_version + "\n("@ + ffmpeg_label_spec(ffmpeg_version) + ")"@,
        copyright: "\u{c2}\u{a9} 2025"@,
        license: "MIT"@,
        website: "https://cavazzatommaso.com"@,
    }
}

pub open spec fn app_submenu_spec() -> SubmenuModel {
    SubmenuModel {
        label: "Looply"@,
        entries: seq![
            EntryModel::Predefined(PredefinedItem::About),
            EntryModel::Action { id: "check_for_update"@, label: "Check for Update"@ },
            EntryModel::Separator,
            EntryModel::Predefined(PredefinedItem::Hide),
            EntryModel::Predefined(PredefinedItem::HideOthers),
            EntryModel::Predefined(PredefinedItem::ShowAll),
            EntryModel::Separator,
            EntryModel::Predefined(PredefinedItem::Quit),
        ],
    }
}

pub open spec fn edit_submenu_spec() -> SubmenuModel {
    SubmenuModel {
        label: "Edit"@,
        entries: seq![
            EntryModel::Predefined(PredefinedItem::Undo),
            EntryModel::Predefined(PredefinedItem::Redo),
            EntryModel::Separator,
            EntryModel::Predefined(PredefinedItem::Cut),
            EntryModel::Predefined(PredefinedItem::Copy),
            EntryModel::Predefined(PredefinedItem::Paste),
            EntryModel::Predefined(PredefinedItem::SelectAll),
        ],
    }
}

pub open spec fn help_submenu_spec() -> SubmenuModel {
    SubmenuModel {
        label: "Help"@,
        entries: seq![EntryModel::Action { id: "report_issue"@, label: "Report Issue"@ }],
    }
}

/// The menu: application, Edit and Help submenus.
pub open spec fn menu_spec(app_version: Seq<char>, ffmpeg_version: Option<Seq<char>>) -> MenuTreeModel {
    MenuTreeModel {
        about: about_spec(app_version, ffmpeg_version),
        submenus: seq![app_submenu_spec(), edit_submenu_spec(), help_submenu_spec()],
    }
}

/// The line that names the bundled encoder's version; `None` when its
/// descriptor was missing or could not be read.
pub fn ffmpeg_version_label(version: Option<&str>) -> (r: String)
    ensures
        r@ == ffmpeg_label_spec(opt_str_view(version)),
{
    match version {
        Some(v) => "FFmpeg version: ".to_owned().concat(v),
        None => "FFmpeg version: Unknown".to_owned(),
    }
}

fn action(id: &str, label: &str) -> (r: MenuEntry)
    ensures
        r@ == (EntryModel::Action { id: id@, label: label@ }),
{
    MenuEntry::Action { id: id.to_owned(), label: label.to_owned() }
}

/// Builds the application menu for the given application version and the
/// bundled encoder's version (`None` when unknown).
pub fn create_menu(app_version: &str, ffmpeg_version: Option<&str>) -> (r: MenuTree)
    ensures
        r@ == menu_spec(app_version@, opt_str_view(ffmpeg_version)),
{
    let ffmpeg = ffmpeg_version_label(ffmpeg_version);
    let version = app_version.to_owned().concat("\n(").concat(ffmpeg.as_str()).concat(")");
    let about = AboutMetadata {
        authors: vec!["Cavazza Tommaso <contact@cavazzatommaso.com>".to_owned()],
        comments: "A simple cross-platform desktop app to create GIFs from image sequences".to_owned(),
        version,
        copyright: "\u{c2}\u{a9} 2025".to_owned(),
        license: "MIT".to_owned(),
        website: "https://cavazzatommaso.com".to_owned(),
    };
    let app_menu = Submenu {
        label: "Looply".to_owned(),
        entries: vec![
            MenuEntry::Predefined(PredefinedItem::About),
            action("check_for_update", "Check for Update"),
            MenuEntry::Separator,
            MenuEntry::Predefined(PredefinedItem::Hide),
            MenuEntry::Predefined(PredefinedItem::HideOthers),
            MenuEntry::Predefined(PredefinedItem::ShowAll),
            MenuEntry::Separator,
            MenuEntry::Predefined(PredefinedItem::Quit),
        ],
    };
    let edit_menu = Submenu {
        label: "Edit".to_owned(),
        entries: vec![
            MenuEntry::Predefined(PredefinedItem::Undo),
            MenuEntry::Predefined(PredefinedItem::Redo),
            MenuEntry::Separator,
            MenuEntry::Predefined(PredefinedItem::Cut),
            MenuEntry::Predefined(PredefinedItem::Copy),
            MenuEntry::Predefined(PredefinedItem::Paste),
            MenuEntry::Predefined(PredefinedItem::SelectAll),
        ],
    };
    let help_menu = Submenu {
        label: "Help".to_owned(),
        entries: vec![action("report_issue", "Report Issue")],
    };
    assert(about.authors@.map_values(|a: String| a@) =~= about_spec(app_version@, opt_str_view(ffmpeg_version)).authors);
    assert(app_menu.entries@.map_values(|e: MenuEntry| e@) =~= app_submenu_spec().entries);
    assert(edit_menu.entries@.map_values(|e: MenuEntry| e@) =~= edit_submenu_spec().entries);
    assert(help_menu.entries@.map_values(|e: MenuEntry| e@) =~= help_submenu_spec().entries);
    assert(about@ =~~= about_spec(app_version@, opt_str_view(ffmpeg_version)));
    assert(app_menu@ =~~= app_submenu_spec());
    assert(edit_menu@ =~~= edit_submenu_spec());
    assert(help_menu@ =~~= help_submenu_spec());
    let r = MenuTree { about, submenus: vec![app_menu, edit_menu, help_menu] };
    assert(r@.submenus =~~= seq![app_submenu_spec(), edit_submenu_spec(), help_submenu_spec()]);
    r
}

/// The identifiers of the application's own entries of a list of entries, in order.
pub open spec fn entry_ids(es: Seq<EntryModel>) -> Seq<Seq<char>>
    decreases es.len(),
{
    if es.len() == 0 {
        seq![]
    } else {
        let rest = entry_ids(es.drop_last());
        match es.last() {
            EntryModel::Action { id, .. } => rest.push(id),
            _ => rest,
        }
    }
}

/// The identifiers of the application's own entries of a list of submenus, in order.
pub open spec fn submenu_ids(ss: Seq<SubmenuModel>) -> Seq<Seq<char>>
    decreases ss.len(),
{
    if ss.len() == 0 {
        seq![]
    } else {
        submenu_ids(ss.drop_last()) + entry_ids(ss.last().entries)
    }
}

/// The identifiers of the application's own entries of a menu, in order.
pub open spec fn custom_ids(t: MenuTreeModel) -> Seq<Seq<char>> {
    submenu_ids(t.submenus)
}

/// What a menu activation asks of the application.
#[derive(PartialEq, Eq, Debug)]
pub enum MenuAction {
    /// Show a modal informational dialog; closing it has no effect.
    ShowDialog { title: String, message: String },
    /// Broadcast the named event, with no payload, to the front-end.
    Emit { event: String },
    /// Nothing.
    Ignore,
}

pub enum MenuActionModel {
    ShowDialog { title: Seq<char>, message: Seq<char> },
    Emit { event: Seq<char> },
    Ignore,
}

impl View for MenuAction {
    type V = MenuActionModel;

    open spec fn view(&self) -> MenuActionModel {
        match self {
            MenuAction::ShowDialog { title, message } => MenuActionModel::ShowDialog {
                title: title@,
                message: message@,
            },
            MenuAction::Emit { event } => MenuActionModel::Emit { event: event@ },
            MenuAction::Ignore => MenuActionModel::Ignore,
        }
    }
}

/// The action for the entry with identifier `id`.
pub open spec fn menu_action_spec(id: Seq<char>) -> MenuActionModel {
    if id == "report_issue"@ {
        MenuActionModel::ShowDialog {
            title: "Report Issue"@,
            message: "If you encounter any issues, please email us at contact@cavazzatommaso.com"@,
        }
    } else if id == "check_for_update"@ {
        MenuActionModel::Emit { event: "check-update"@ }
    } else {
        MenuActionModel::Ignore
    }
}

/// Routes the activation of the menu entry `event_id` to its action:
/// reporting an issue shows a dialog, checking for an update broadcasts
/// `check-update`, any other identifier does nothing.
pub fn handle_menu_event(event_id: &str) -> (r: MenuAction)
    ensures
        r@ == menu_action_spec(event_id@),
{
    let id = event_id.to_owned();
    if id == "report_issue".to_owned() {
        MenuAction::ShowDialog {
            title: "Report Issue".to_owned(),
            message: "If you encounter any issues, please email us at contact@cavazzatommaso.com".to_owned(),
        }
    } else if id == "check_for_update".to_owned() {
        MenuAction::Emit { event: "check-update".to_owned() }
    } else {
        MenuAction::Ignore
    }
}

/// Each prefix of a list of entries adds the identifier of its last entry,
/// if that entry has one.
pub broadcast proof fn lemma_entry_ids_prefix(es: Seq<EntryModel>, n: int)
    requires
        0 < n <= es.len(),
    ensures
        #[trigger] entry_ids(es.subrange(0, n)) == (match es[n - 1] {
            EntryModel::Action { id, .. } => entry_ids(es.subrange(0, n - 1)).push(id),
            _ => entry_ids(es.subrange(0, n - 1)),
        }),
{
    assert(es.subrange(0, n).drop_last() =~= es.subrange(0, n - 1));
}

/// Each prefix of a list of submenus adds the identifiers of its last submenu.
pub broadcast proof fn lemma_submenu_ids_prefix(ss: Seq<SubmenuModel>, n: int)
    requires
        0 < n <= ss.len(),
    ensures
        #[trigger] submenu_ids(ss.subrange(0, n)) == submenu_ids(ss.subrange(0, n - 1))
            + entry_ids(ss[n - 1].entries),
{
    assert(ss.subrange(0, n).drop_last() =~= ss.subrange(0, n - 1));
}

/// The menu's own entries are exactly `check_for_update` then `report_issue`,
/// whatever versions it was built for.
pub proof fn lemma_menu_custom_ids(app_version: Seq<char>, ffmpeg_version: Option<Seq<char>>)
    ensures
        custom_ids(menu_spec(app_version, ffmpeg_version)) == seq![
            "check_for_update"@,
            "report_issue"@,
        ],
{
    broadcast use lemma_entry_ids_prefix, lemma_submenu_ids_prefix;

    let subs = menu_spec(app_version, ffmpeg_version).submenus;
    let a = app_submenu_spec().entries;
    let e = edit_submenu_spec().entries;
    let h = help_submenu_spec().entries;
    assert(a.subrange(0, a.len() as int) =~= a);
    assert(e.subrange(0, e.len() as int) =~= e);
    assert(h.subrange(0, h.len() as int) =~= h);
    assert(subs.subrange(0, subs.len() as int) =~= subs);
    assert(custom_ids(menu_spec(app_version, ffmpeg_version)) =~= seq![
        "check_for_update"@,
        "report_issue"@,
    ]);
}

/// An activation does something exactly when its identifier is one of the
/// menu's own entries; every other identifier is ignored.
pub proof fn lemma_routed_ids_are_menu_ids(
    app_version: Seq<char>,
    ffmpeg_version: Option<Seq<char>>,
    id: Seq<char>,
)
    ensures
        !(menu_action_spec(id) is Ignore) <==> custom_ids(
            menu_spec(app_version, ffmpeg_version),
        ).contains(id),
{
    lemma_menu_custom_ids(app_version, ffmpeg_version);
    let ids = custom_ids(menu_spec(app_version, ffmpeg_version));
    if ids.contains(id) {
        let k = choose|k: int| 0 <= k < ids.len() && ids[k] == id;
        assert(k == 0 || k == 1);
    }
    if id == "check_for_update"@ {
        assert(ids[0] == id);
    }
    if id == "report_issue"@ {
        assert(ids[1] == id);
    }
}

/// How many dialogs an action shows.
pub open spec fn dialogs_shown(a: MenuActionModel) -> nat {
    if a is ShowDialog {
        1
    } else {
        0
    }
}

/// How many events an action broadcasts.
pub open spec fn events_emitted(a: MenuActionModel) -> nat {
    if a is Emit {
        1
    } else {
        0
    }
}

/// Reporting an issue shows exactly one dialog and broadcasts nothing;
/// checking for an update broadcasts exactly one event, `check-update`, and
/// shows nothing; any other identifier does neither.
pub proof fn lemma_menu_dispatch_effects(id: Seq<char>)
    ensures
        id == "report_issue"@ ==> dialogs_shown(menu_action_spec(id)) == 1 && events_emitted(
            menu_action_spec(id),
        ) == 0,
        id == "check_for_update"@ ==> dialogs_shown(menu_action_spec(id)) == 0
            && menu_action_spec(id) == (MenuActionModel::Emit { event: "check-update"@ }),
        id != "report_issue"@ && id != "check_for_update"@ ==> dialogs_shown(
            menu_action_spec(id),
        ) == 0 && events_emitted(menu_action_spec(id)) == 0,
{
    reveal_strlit("report_issue");
    reveal_strlit("check_for_update");
    assert("report_issue"@.len() != "check_for_update"@.len());
}

} // verus!
