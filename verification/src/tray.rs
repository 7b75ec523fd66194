//! The tray icon and its menu.
//!
//! A double click on the icon shows the main window. The menu shows it too, switches start at
//! logon, and quits.
use vstd::prelude::*;

use crate::events::{AppEvent, AppEventView};
use crate::text;

verus! {

/// Menu entry that shows the main window.
pub const MENU_SHOW: &'static str = "show";

/// Menu entry that switches start at logon.
pub const MENU_AUTOSTART: &'static str = "autostart";

/// Menu entry that quits.
pub const MENU_QUIT: &'static str = "quit";

/// Words over the icon.
pub const TOOLTIP: &'static str = "自动关机守护：心跳失联自动关机";

/// An entry of the menu.
#[derive(Clone, Copy, Debug, PartialEq, Eq)]
pub enum MenuEntry {
    /// An entry to click.
    Item { id: &'static str, label: &'static str },
    /// An entry with a check mark.
    Check { id: &'static str, label: &'static str, checked: bool },
    /// A line between entries.
    Separator,
}

/// An entry of the menu in terms of plain values.
pub enum MenuEntryView {
    Item { id: Seq<char>, label: Seq<char> },
    Check { id: Seq<char>, label: Seq<char>, checked: bool },
    Separator,
}

impl View for MenuEntry {
    type V = MenuEntryView;

    open spec fn view(&self) -> MenuEntryView {
        match self {
            MenuEntry::Item { id, label } => MenuEntryView::Item { id: id@, label: label@ },
            MenuEntry::Check { id, label, checked } => MenuEntryView::Check {
                id: id@,
                label: label@,
                checked: *checked,
            },
            MenuEntry::Separator => MenuEntryView::Separator,
        }
    }
}

/// The entries of the menu, from top to bottom.
pub fn menu(autostart: bool) -> (r: Vec<MenuEntry>)
    ensures
        r@.map_values(|e: MenuEntry| e@) == seq![
            MenuEntryView::Item { id: "show"@, label: "显示主窗口"@ },
            MenuEntryView::Separator,
            MenuEntryView::Check { id: "autostart"@, label: "开机启动"@, checked: autostart },
            MenuEntryView::Separator,
            MenuEntryView::Item { id: "quit"@, label: "退出程序"@ },
        ],
{
    let entries: Vec<MenuEntry> = vec![
        MenuEntry::Item { id: MENU_SHOW, label: "显示主窗口" },
        MenuEntry::Separator,
        MenuEntry::Check { id: MENU_AUTOSTART, label: "开机启动", checked: autostart },
        MenuEntry::Separator,
        MenuEntry::Item { id: MENU_QUIT, label: "退出程序" },
    ];
    assert(entries@.map_values(|e: MenuEntry| e@) =~= seq![
        MenuEntryView::Item { id: "show"@, label: "显示主窗口"@ },
        MenuEntryView::Separator,
        MenuEntryView::Check { id: "autostart"@, label: "开机启动"@, checked: autostart },
        MenuEntryView::Separator,
        MenuEntryView::Item { id: "quit"@, label: "退出程序"@ },
    ]);
    entries
}

/// What a click in the menu asks for.
#[derive(Debug)]
pub enum MenuAction {
    /// Send this event.
    Send(AppEvent),
    /// Switch start at logon, then call [`autostart_switched`].
    SwitchAutostart(bool),
    /// Nothing.
    Ignore,
}

/// What a click in the menu asks for, in terms of plain values.
pub enum MenuActionView {
    Send(AppEventView),
    SwitchAutostart(bool),
    Ignore,
}

impl View for MenuAction {
    type V = MenuActionView;

    open spec fn view(&self) -> MenuActionView {
        match self {
            MenuAction::Send(event) => MenuActionView::Send(event@),
            MenuAction::SwitchAutostart(on) => MenuActionView::SwitchAutostart(*on),
            MenuAction::Ignore => MenuActionView::Ignore,
        }
    }
}

/// What a click on the entry `id` asks for, while start at logon is marked as `checked`.
pub open spec fn clicked(id: Seq<char>, checked: bool) -> MenuActionView {
    if id == "show"@ {
        MenuActionView::Send(AppEventView::TrayShow)
    } else if id == "autostart"@ {
        MenuActionView::SwitchAutostart(!checked)
    } else if id == "quit"@ {
        MenuActionView::Send(AppEventView::Quit)
    } else {
        MenuActionView::Ignore
    }
}

/// Handles a click on the entry `id`, while start at logon is marked as `checked`.
pub fn menu_event(id: &str, checked: bool) -> (r: MenuAction)
    ensures
        r@ == clicked(id@, checked),
{
    if text::same(id, MENU_SHOW) {
        MenuAction::Send(AppEvent::TrayShow)
    } else if text::same(id, MENU_AUTOSTART) {
        MenuAction::SwitchAutostart(!checked)
    } else if text::same(id, MENU_QUIT) {
        MenuAction::Send(AppEvent::Quit)
    } else {
        MenuAction::Ignore
    }
}

/// An event of the icon itself.
#[derive(Clone, Copy, Debug, PartialEq, Eq, Structural)]
pub enum IconEvent {
    DoubleClick,
    Other,
}

/// Handles an event of the icon: a double click shows the main window.
pub fn icon_event(event: IconEvent) -> (r: Option<AppEvent>)
    ensures
        match event {
            IconEvent::DoubleClick => r matches Some(e) && e@ == AppEventView::TrayShow,
            IconEvent::Other => r is None,
        },
{
    match event {
        IconEvent::DoubleClick => Some(AppEvent::TrayShow),
        IconEvent::Other => None,
    }
}

/// The tray, as far as the rest of the program can change it.
#[derive(Debug)]
pub struct Tray {
    /// The check mark for start at logon; `None` before the menu is there.
    pub autostart_item: Option<bool>,
}

/// The check mark after it was set.
pub open spec fn marked(item: Option<bool>, checked: bool) -> Option<bool> {
    match item {
        Some(_) => Some(checked),
        None => None,
    }
}

/// Brings the check mark for start at logon in line.
pub fn sync_autostart_checked(tray: &mut Tray, checked: bool)
    ensures
        final(tray).autostart_item == marked(old(tray).autostart_item, checked),
{
    if tray.autostart_item.is_some() {
        tray.autostart_item = Some(checked);
    }
}

/// Start at logon was switched to `target` from the menu, or that failed and everything stays as it
/// is. Returns the event to send, or the words for the log.
pub fn autostart_switched(tray: &mut Tray, target: bool, result: Result<(), String>) -> (r: Result<
    AppEvent,
    String,
>)
    ensures
        match result {
            Ok(_) => {
                &&& r matches Ok(event) && event@ == AppEventView::AutostartChanged(target)
                &&& final(tray).autostart_item == marked(old(tray).autostart_item, target)
            },
            Err(e) => {
                &&& r matches Err(line) && line@ == "[tray] 切换开机启动失败: "@ + e@
                &&& final(tray).autostart_item == old(tray).autostart_item
            },
        },
{
    match result {
        Ok(_) => {
            sync_autostart_checked(tray, target);
            Ok(AppEvent::AutostartChanged(target))
        },
        Err(e) => Err(text::join("[tray] 切换开机启动失败: ", e.as_str())),
    }
}

/// Every entry that can be clicked does something.
pub proof fn law_every_entry_does_something(checked: bool)
    ensures
        clicked("show"@, checked) == MenuActionView::Send(AppEventView::TrayShow),
        clicked("autostart"@, checked) == MenuActionView::SwitchAutostart(!checked),
        clicked("quit"@, checked) == MenuActionView::Send(AppEventView::Quit),
{
    reveal_strlit("show");
    reveal_strlit("autostart");
    reveal_strlit("quit");
    assert("show"@.len() != "autostart"@.len());
    assert("show"@[0] != "quit"@[0]);
    assert("quit"@.len() != "autostart"@.len());
}

/// Two clicks on the switch come back to where they started.
pub proof fn law_switching_twice_changes_nothing(checked: bool)
    ensures
        clicked("autostart"@, !checked) == MenuActionView::SwitchAutostart(checked),
        marked(marked(Some(checked), !checked), checked) == Some(checked),
{
    law_every_entry_does_something(!checked);
}

} // verus!
