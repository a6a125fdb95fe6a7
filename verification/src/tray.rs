//! The tray icon's menu, tooltip and clicks, and how it reads the status
//! events of the user interface.
use vstd::prelude::*;

use crate::launch_stages::{lemma_name_round_trip, lemma_stage_name_unquoted, parse_stage, stage_name, LaunchStages};
use crate::text::{
    concat_text, lemma_remove_absent_char, lemma_remove_char_leaves_none, lemma_replace_char_concat, owned, replace, replace_all, same_text,
};

verus! {

/// A status event's payload with its quotes taken out.
pub open spec fn unquoted(payload: Seq<char>) -> Seq<char> {
    replace_all(payload, seq!['"'], Seq::empty())
}

/// The status named by the payload of a status event: the payload with every
/// double quote taken out (the user interface sends the name as a JSON string).
pub fn get_status(payload: &str) -> (r: String)
    ensures
        r@ == unquoted(payload@),
        !r@.contains('"'),
{
    proof {
        lemma_remove_char_leaves_none(payload@, '"');
        reveal_strlit("\"");
        reveal_strlit("");
        assert("\""@ =~= seq!['"']);
        assert(""@ =~= Seq::<char>::empty());
    }
    replace(payload, "\"", "")
}

/// The tooltip of the tray icon for a status name.
pub open spec fn tooltip_text(status: Seq<char>) -> Seq<char> {
    "Ghostify DPI\r\nStatus: "@ + status
}

/// Law: the tooltip is the fixed title line followed by the status itself, so
/// it ends with the status and distinct statuses give distinct tooltips.
pub proof fn lemma_tooltip_shows_status(status: Seq<char>, other: Seq<char>)
    ensures
        tooltip_text(status) == seq![
            'G', 'h', 'o', 's', 't', 'i', 'f', 'y', ' ', 'D', 'P', 'I', '\r', '\n', 'S', 't', 'a', 't',
            'u', 's', ':', ' ',
        ] + status,
        tooltip_text(status).len() == status.len() + 22,
        tooltip_text(status).skip(22) == status,
        tooltip_text(status) == tooltip_text(other) ==> status == other,
{
    reveal_strlit("Ghostify DPI\r\nStatus: ");
    let prefix = seq![
        'G', 'h', 'o', 's', 't', 'i', 'f', 'y', ' ', 'D', 'P', 'I', '\r', '\n', 'S', 't', 'a', 't',
        'u', 's', ':', ' ',
    ];
    assert("Ghostify DPI\r\nStatus: "@ =~= prefix);
    assert(tooltip_text(status).skip(22) =~= status);
    assert(tooltip_text(other).skip(22) =~= other);
}

/// The tooltip of the tray icon while the status is `status`.
pub fn get_tooltip(status: &str) -> (r: String)
    ensures
        r@ == tooltip_text(status@),
{
    concat_text("Ghostify DPI\r\nStatus: ", status)
}

/// Which menu items can be chosen.
#[derive(Clone, Copy, Debug, PartialEq, Eq, Structural)]
pub struct MenuStates {
    pub start_enabled: bool,
    pub stop_enabled: bool,
}

/// Which menu items can be chosen in a stage: "Start" only when stopped, "Stop"
/// only when running; while starting or stopping, neither.
pub fn menu_item_states(stage: LaunchStages) -> (r: MenuStates)
    ensures
        r.start_enabled == (stage == LaunchStages::Stopped),
        r.stop_enabled == (stage == LaunchStages::Started),
        !(r.start_enabled && r.stop_enabled),
{
    MenuStates {
        start_enabled: stage == LaunchStages::Stopped,
        stop_enabled: stage == LaunchStages::Started,
    }
}

/// What a menu item asks for.
#[derive(Clone, Copy, Debug, PartialEq, Eq, Structural)]
pub enum MenuAction {
    Start,
    Stop,
    Hide,
    Quit,
}

/// The action of the menu item with identifier `id`, if it has one.
pub open spec fn menu_action_for(id: Seq<char>) -> Option<MenuAction> {
    if id == "start"@ {
        Some(MenuAction::Start)
    } else if id == "stop"@ {
        Some(MenuAction::Stop)
    } else if id == "hide"@ {
        Some(MenuAction::Hide)
    } else if id == "quit"@ {
        Some(MenuAction::Quit)
    } else {
        None
    }
}

/// The action of the chosen menu item; an unknown identifier asks for nothing.
pub fn menu_action(id: &str) -> (r: Option<MenuAction>)
    ensures
        r == menu_action_for(id@),
{
    if same_text(id, "start") {
        Some(MenuAction::Start)
    } else if same_text(id, "stop") {
        Some(MenuAction::Stop)
    } else if same_text(id, "hide") {
        Some(MenuAction::Hide)
    } else if same_text(id, "quit") {
        Some(MenuAction::Quit)
    } else {
        None
    }
}

/// An entry of the tray menu.
pub enum MenuEntry {
    Item { id: String, label: String, enabled: bool },
    Separator,
}

/// What an entry of the tray menu holds.
pub enum MenuEntryView {
    Item { id: Seq<char>, label: Seq<char>, enabled: bool },
    Separator,
}

impl View for MenuEntry {
    type V = MenuEntryView;

    open spec fn view(&self) -> MenuEntryView {
        match self {
            MenuEntry::Item { id, label, enabled } => MenuEntryView::Item {
                id: id@,
                label: label@,
                enabled: *enabled,
            },
            MenuEntry::Separator => MenuEntryView::Separator,
        }
    }
}

/// The tray menu as it is first shown, while the process is stopped.
pub open spec fn menu_layout() -> Seq<MenuEntryView> {
    seq![
        MenuEntryView::Item { id: "start"@, label: "Start"@, enabled: true },
        MenuEntryView::Item { id: "stop"@, label: "Stop"@, enabled: false },
        MenuEntryView::Separator,
        MenuEntryView::Item { id: "hide"@, label: "Hide"@, enabled: true },
        MenuEntryView::Item { id: "quit"@, label: "Quit"@, enabled: true },
    ]
}

/// An item of the tray menu.
fn item(id: &str, label: &str, enabled: bool) -> (r: MenuEntry)
    ensures
        r@ == (MenuEntryView::Item { id: id@, label: label@, enabled }),
{
    MenuEntry::Item { id: owned(id), label: owned(label), enabled }
}

/// The entries of the tray menu, in order.
pub fn tray_menu() -> (r: Vec<MenuEntry>)
    ensures
        r@.map_values(|e: MenuEntry| e@) == menu_layout(),
{
    let mut r: Vec<MenuEntry> = Vec::new();
    r.push(item("start", "Start", true));
    r.push(item("stop", "Stop", false));
    r.push(MenuEntry::Separator);
    r.push(item("hide", "Hide", true));
    r.push(item("quit", "Quit", true));
    assert(r@.map_values(|e: MenuEntry| e@) =~= menu_layout());
    r
}

/// The buttons of a pointer.
#[derive(Clone, Copy, Debug, PartialEq, Eq, Structural)]
pub enum PointerButton {
    Left,
    Right,
    Middle,
}

/// Whether a click on the tray icon shows the window: only the release of
/// the left button does.
pub fn click_shows_window(button: PointerButton, released: bool) -> (r: bool)
    ensures
        r == (button == PointerButton::Left && released),
{
    button == PointerButton::Left && released
}

/// Law: the payload of a status event, the stage's name in quotes, is read
/// back as that stage.
pub proof fn lemma_status_event_round_trip(stage: LaunchStages)
    ensures
        parse_stage(unquoted(seq!['"'] + stage_name(stage) + seq!['"'])) == Some(stage),
{
    let q = seq!['"'];
    let name = stage_name(stage);
    lemma_replace_char_concat(q + name, q, '"', Seq::empty());
    lemma_replace_char_concat(q, name, '"', Seq::empty());
    assert(q.subrange(0, 1) =~= q);
    assert(q.skip(1) =~= Seq::<char>::empty());
    assert(replace_all(q, q, Seq::empty()) == Seq::<char>::empty() + replace_all(
        q.skip(1),
        q,
        Seq::empty(),
    ));
    assert(replace_all(q, q, Seq::empty()) =~= Seq::<char>::empty());
    lemma_stage_name_unquoted(stage);
    lemma_remove_absent_char(name, '"');
    assert(unquoted(q + name + q) =~= name);
    lemma_name_round_trip(stage);
}

/// Law: every item of the tray menu asks for the action that its name says.
pub proof fn lemma_menu_items_have_actions()
    ensures
        menu_action_for("start"@) == Some(MenuAction::Start),
        menu_action_for("stop"@) == Some(MenuAction::Stop),
        menu_action_for("hide"@) == Some(MenuAction::Hide),
        menu_action_for("quit"@) == Some(MenuAction::Quit),
{
    reveal_strlit("start");
    reveal_strlit("stop");
    reveal_strlit("hide");
    reveal_strlit("quit");
    assert("stop"@ != "start"@) by {
        assert("stop"@.len() != "start"@.len());
    }
    assert("hide"@ != "start"@) by {
        assert("hide"@.len() != "start"@.len());
    }
    assert("hide"@ != "stop"@) by {
        assert("hide"@[0] != "stop"@[0]);
    }
    assert("quit"@ != "start"@) by {
        assert("quit"@.len() != "start"@.len());
    }
    assert("quit"@ != "stop"@) by {
        assert("quit"@[0] != "stop"@[0]);
    }
    assert("quit"@ != "hide"@) by {
        assert("quit"@[0] != "hide"@[0]);
    }
}

} // verus!
