//! The menu presenter: from a snapshot of the tray state to the lines of the
//! tray menu and the tooltip.

use crate::model::{ConnectionStatus, HealthStatus, TokenUsage};
use crate::tokens::{decimal_text, format_tokens, push_decimal, token_text};
use vstd::prelude::*;

verus! {

/// One row of the tray menu.
#[derive(Debug, Clone, PartialEq, Eq)]
pub enum MenuEntry {
    /// A labelled item. Informational lines are disabled; actions are enabled
    /// and some carry a keyboard accelerator.
    Item { id: String, text: String, enabled: bool, accelerator: Option<String> },
    /// A dividing line.
    Separator,
}

/// What a `MenuEntry` holds, as mathematical values.
pub enum MenuEntryView {
    Item { id: Seq<char>, text: Seq<char>, enabled: bool, accelerator: Option<Seq<char>> },
    Separator,
}

impl View for MenuEntry {
    type V = MenuEntryView;

    open spec fn view(&self) -> MenuEntryView {
        match self {
            MenuEntry::Item { id, text, enabled, accelerator } => MenuEntryView::Item {
                id: id@,
                text: text@,
                enabled: *enabled,
                accelerator: match accelerator {
                    Some(keys) => Some(keys@),
                    None => None,
                },
            },
            MenuEntry::Separator => MenuEntryView::Separator,
        }
    }
}

/// The rows of a menu, each as its view.
pub open spec fn menu_view(entries: Seq<MenuEntry>) -> Seq<MenuEntryView> {
    Seq::new(entries.len(), |i: int| entries[i]@)
}

/// The status line for each connection status.
pub open spec fn status_text(status: ConnectionStatus) -> Seq<char> {
    match status {
        ConnectionStatus::Connected => "● Connected"@,
        ConnectionStatus::Connecting => "○ Connecting..."@,
        ConnectionStatus::Disconnected => "○ Disconnected"@,
        ConnectionStatus::Error => "✕ Connection Error"@,
    }
}

/// The health line. A latency is shown only while the assistant is healthy or
/// degraded; in the other two states it is left out.
pub open spec fn health_text(health: HealthStatus, latency: Option<u64>) -> Seq<char> {
    match health {
        HealthStatus::Healthy => match latency {
            Some(ms) => "♥ Healthy ("@ + decimal_text(ms as nat) + "ms)"@,
            None => "♥ Healthy"@,
        },
        HealthStatus::Degraded => match latency {
            Some(ms) => "◐ Degraded ("@ + decimal_text(ms as nat) + "ms)"@,
            None => "◐ Degraded"@,
        },
        HealthStatus::Unhealthy => "✕ Unhealthy"@,
        HealthStatus::Unknown => "? Unknown"@,
    }
}

/// The usage line: the total with the input and output counts once the total
/// is positive, a dash before that.
pub open spec fn usage_text(usage: TokenUsage) -> Seq<char> {
    if usage.total_tokens > 0 {
        "Tokens: "@ + token_text(usage.total_tokens as nat) + " (↓"@ + token_text(
            usage.input_tokens as nat,
        ) + " ↑"@ + token_text(usage.output_tokens as nat) + ")"@
    } else {
        "Tokens: —"@
    }
}

/// The tooltip for each connection status.
pub open spec fn tooltip_text(status: ConnectionStatus) -> Seq<char> {
    match status {
        ConnectionStatus::Connected => "Clawdis - Connected"@,
        ConnectionStatus::Connecting => "Clawdis - Connecting..."@,
        ConnectionStatus::Disconnected => "Clawdis - Disconnected"@,
        ConnectionStatus::Error => "Clawdis - Connection Error"@,
    }
}

/// The status line of the menu.
pub fn status_label(status: ConnectionStatus) -> (label: &'static str)
    ensures
        label@ == status_text(status),
{
    match status {
        ConnectionStatus::Connected => "● Connected",
        ConnectionStatus::Connecting => "○ Connecting...",
        ConnectionStatus::Disconnected => "○ Disconnected",
        ConnectionStatus::Error => "✕ Connection Error",
    }
}

/// The tray tooltip.
pub fn tray_tooltip(status: ConnectionStatus) -> (tooltip: &'static str)
    ensures
        tooltip@ == tooltip_text(status),
{
    match status {
        ConnectionStatus::Connected => "Clawdis - Connected",
        ConnectionStatus::Connecting => "Clawdis - Connecting...",
        ConnectionStatus::Disconnected => "Clawdis - Disconnected",
        ConnectionStatus::Error => "Clawdis - Connection Error",
    }
}

/// `name` followed by the latency in brackets, as in "♥ Healthy (42ms)".
fn with_latency(name: &str, opening: &str, latency: Option<u64>) -> (label: String)
    ensures
        label@ == match latency {
            Some(ms) => opening@ + decimal_text(ms as nat) + "ms)"@,
            None => name@,
        },
{
    match latency {
        Some(ms) => {
            let mut label = String::from_str(opening);
            push_decimal(&mut label, ms);
            label.append("ms)");
            label
        },
        None => String::from_str(name),
    }
}

/// The health line of the menu.
pub fn health_label(health: HealthStatus, latency: Option<u64>) -> (label: String)
    ensures
        label@ == health_text(health, latency),
{
    match health {
        HealthStatus::Healthy => with_latency("♥ Healthy", "♥ Healthy (", latency),
        HealthStatus::Degraded => with_latency("◐ Degraded", "◐ Degraded (", latency),
        HealthStatus::Unhealthy => String::from_str("✕ Unhealthy"),
        HealthStatus::Unknown => String::from_str("? Unknown"),
    }
}

/// The usage line of the menu.
pub fn usage_label(usage: &TokenUsage) -> (label: String)
    ensures
        label@ == usage_text(*usage),
{
    if usage.total_tokens > 0 {
        let mut label = String::from_str("Tokens: ");
        label.append(format_tokens(usage.total_tokens).as_str());
        label.append(" (↓");
        label.append(format_tokens(usage.input_tokens).as_str());
        label.append(" ↑");
        label.append(format_tokens(usage.output_tokens).as_str());
        label.append(")");
        label
    } else {
        String::from_str("Tokens: —")
    }
}

/// A disabled line that only informs.
pub open spec fn info_row(id: Seq<char>, text: Seq<char>) -> MenuEntryView {
    MenuEntryView::Item { id, text, enabled: false, accelerator: None }
}

/// An enabled item that triggers an action.
pub open spec fn action_row(
    id: Seq<char>,
    text: Seq<char>,
    accelerator: Option<Seq<char>>,
) -> MenuEntryView {
    MenuEntryView::Item { id, text, enabled: true, accelerator }
}

/// The whole tray menu for one snapshot of the state: the status, health and
/// usage lines, a divider, then the actions in their fixed order.
pub open spec fn tray_menu(
    status: ConnectionStatus,
    usage: TokenUsage,
    health: HealthStatus,
    latency: Option<u64>,
) -> Seq<MenuEntryView> {
    seq![
        info_row("status"@, status_text(status)),
        info_row("health"@, health_text(health, latency)),
        info_row("usage"@, usage_text(usage)),
        MenuEntryView::Separator,
        action_row("new_chat"@, "New Chat"@, None),
        MenuEntryView::Separator,
        action_row("show"@, "Show Clawdis"@, None),
        action_row("settings"@, "Settings..."@, Some("CmdOrCtrl+,"@)),
        MenuEntryView::Separator,
        action_row("quit"@, "Quit Clawdis"@, Some("CmdOrCtrl+Q"@)),
    ]
}

/// A disabled line that only informs.
fn info_item(id: &str, text: String) -> (entry: MenuEntry)
    ensures
        entry@ == info_row(id@, text@),
{
    MenuEntry::Item { id: String::from_str(id), text, enabled: false, accelerator: None }
}

/// An enabled item that triggers an action.
fn action_item(id: &str, text: &str, accelerator: Option<&str>) -> (entry: MenuEntry)
    ensures
        entry@ == action_row(
            id@,
            text@,
            match accelerator {
                Some(keys) => Some(keys@),
                None => None,
            },
        ),
{
    let accelerator = match accelerator {
        Some(keys) => Some(String::from_str(keys)),
        None => None,
    };
    MenuEntry::Item {
        id: String::from_str(id),
        text: String::from_str(text),
        enabled: true,
        accelerator,
    }
}

/// Builds the tray menu for the given status, usage and health.
pub fn build_tray_menu(
    status: &ConnectionStatus,
    usage: &TokenUsage,
    health: &HealthStatus,
    latency: Option<u64>,
) -> (menu: Vec<MenuEntry>)
    ensures
        menu_view(menu@) == tray_menu(*status, *usage, *health, latency),
{
    let mut menu: Vec<MenuEntry> = Vec::new();
    menu.push(info_item("status", String::from_str(status_label(*status))));
    menu.push(info_item("health", health_label(*health, latency)));
    menu.push(info_item("usage", usage_label(usage)));
    menu.push(MenuEntry::Separator);
    menu.push(action_item("new_chat", "New Chat", None));
    menu.push(MenuEntry::Separator);
    menu.push(action_item("show", "Show Clawdis", None));
    menu.push(action_item("settings", "Settings...", Some("CmdOrCtrl+,")));
    menu.push(MenuEntry::Separator);
    menu.push(action_item("quit", "Quit Clawdis", Some("CmdOrCtrl+Q")));
    assert(menu_view(menu@) =~= tray_menu(*status, *usage, *health, latency));
    menu
}

} // verus!
