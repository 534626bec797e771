//! What the front end's commands decide: the entries of the context menu,
//! the window's maximise toggle, and the command line that opens a terminal.
use vstd::prelude::*;

verus! {

/// One entry of the context menu: an action the front end is told of by
/// `id`, or a separator.
#[derive(Debug)]
pub enum MenuEntry {
    Item { id: String, label: String, accelerator: Option<String>, enabled: bool },
    Separator,
}

pub enum EntryView {
    Item { id: Seq<char>, label: Seq<char>, accelerator: Option<Seq<char>>, enabled: bool },
    Separator,
}

impl View for MenuEntry {
    type V = EntryView;

    open spec fn view(&self) -> EntryView {
        match self {
            MenuEntry::Item { id, label, accelerator, enabled } => EntryView::Item {
                id: id@,
                label: label@,
                accelerator: match accelerator {
                    Some(a) => Some(a@),
                    None => None,
                },
                enabled: *enabled,
            },
            MenuEntry::Separator => EntryView::Separator,
        }
    }
}

pub open spec fn item_spec(id: &str, label: &str, accel: Option<&str>, enabled: bool) -> EntryView {
    EntryView::Item {
        id: id@,
        label: label@,
        accelerator: match accel {
            Some(a) => Some(a@),
            None => None,
        },
        enabled,
    }
}

/// The context menu for a right click on an item (`has_path`), which may be
/// a file (`is_file`), with or without something to paste.
pub open spec fn context_menu_spec(has_path: bool, is_file: bool, has_clipboard: bool) -> Seq<
    EntryView,
> {
    let head = if has_path && is_file {
        seq![item_spec("open", "Open", None, true), EntryView::Separator]
    } else {
        Seq::empty()
    };
    let body = seq![
        item_spec("cut", "Cut", Some("Ctrl+X"), has_path),
        item_spec("copy", "Copy", Some("Ctrl+C"), has_path),
        item_spec("paste", "Paste", Some("Ctrl+V"), has_clipboard),
        EntryView::Separator,
        item_spec("open_terminal", "Open in Terminal", None, true),
        EntryView::Separator,
        item_spec("new_folder", "New folder", Some("Ctrl+Shift+N"), true),
        item_spec("rename", "Rename", Some("F2"), has_path),
        item_spec("delete", "Delete", Some("Delete"), has_path),
    ];
    let tail = if has_path {
        seq![EntryView::Separator, item_spec("properties", "Properties", None, true)]
    } else {
        Seq::empty()
    };
    head + body + tail
}

fn item(id: &str, label: &str, accel: Option<&str>, enabled: bool) -> (r: MenuEntry)
    ensures
        r@ == item_spec(id, label, accel, enabled),
{
    MenuEntry::Item {
        id: String::from_str(id),
        label: String::from_str(label),
        accelerator: match accel {
            Some(a) => Some(String::from_str(a)),
            None => None,
        },
        enabled,
    }
}

/// The entries of the context menu, in order.
pub fn context_menu(has_path: bool, is_file: bool, has_clipboard: bool) -> (r: Vec<MenuEntry>)
    ensures
        r@.map_values(|e: MenuEntry| e@) == context_menu_spec(has_path, is_file, has_clipboard),
{
    let mut r: Vec<MenuEntry> = Vec::new();
    if has_path && is_file {
        r.push(item("open", "Open", None, true));
        r.push(MenuEntry::Separator);
    }
    r.push(item("cut", "Cut", Some("Ctrl+X"), has_path));
    r.push(item("copy", "Copy", Some("Ctrl+C"), has_path));
    r.push(item("paste", "Paste", Some("Ctrl+V"), has_clipboard));
    r.push(MenuEntry::Separator);
    r.push(item("open_terminal", "Open in Terminal", None, true));
    r.push(MenuEntry::Separator);
    r.push(item("new_folder", "New folder", Some("Ctrl+Shift+N"), true));
    r.push(item("rename", "Rename", Some("F2"), has_path));
    r.push(item("delete", "Delete", Some("Delete"), has_path));
    if has_path {
        r.push(MenuEntry::Separator);
        r.push(item("properties", "Properties", None, true));
    }
    assert(r@.map_values(|e: MenuEntry| e@) =~= context_menu_spec(has_path, is_file, has_clipboard));
    r
}

/// What the maximise button does to the window.
#[derive(Clone, Copy, Debug, PartialEq, Eq, Structural)]
pub enum WindowAction {
    Maximize,
    Unmaximize,
}

/// A maximised window is restored; any other is maximised.
pub fn toggle_maximize(is_maximized: bool) -> (r: WindowAction)
    ensures
        r == (if is_maximized {
            WindowAction::Unmaximize
        } else {
            WindowAction::Maximize
        }),
{
    if is_maximized {
        WindowAction::Unmaximize
    } else {
        WindowAction::Maximize
    }
}

/// The arguments given to `cmd` to open PowerShell in `path`.
pub open spec fn terminal_args_spec(path: Seq<char>) -> Seq<Seq<char>> {
    seq!["/C"@, "start"@, "powershell"@, "-NoExit"@, "-Command"@, "cd '"@ + path + "'"@]
}

/// The arguments given to `cmd` to open PowerShell in `path`.
pub fn terminal_args(path: &str) -> (r: Vec<String>)
    ensures
        r@.map_values(|s: String| s@) == terminal_args_spec(path@),
{
    let mut cd = String::from_str("cd '");
    cd.append(path);
    cd.append("'");
    let mut r: Vec<String> = Vec::new();
    r.push(String::from_str("/C"));
    r.push(String::from_str("start"));
    r.push(String::from_str("powershell"));
    r.push(String::from_str("-NoExit"));
    r.push(String::from_str("-Command"));
    r.push(cd);
    assert(r@.map_values(|s: String| s@) =~= terminal_args_spec(path@));
    r
}

} // verus!
