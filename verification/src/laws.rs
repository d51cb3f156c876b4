//! What holds of the tray state store under any sequence of updates.

use crate::events::{
    icon_action, menu_action, MouseButton, MouseButtonState, TrayActionView, TrayIconEvent,
};
use crate::menu::{health_text, tooltip_text, tray_menu, usage_text, MenuEntryView};
use crate::model::{ConnectionStatus, HealthInfo, HealthStatus, TokenUsage};
use crate::tray::{rendering, with_health, with_status, with_tray, with_usage, TraySnapshot};
use vstd::prelude::*;

verus! {

/// One update of the store, as a value.
pub enum TrayCommand {
    SetStatus(ConnectionStatus),
    SetUsage(TokenUsage),
    SetHealth(HealthInfo),
}

/// The state after one update.
pub open spec fn apply(snapshot: TraySnapshot, command: TrayCommand) -> TraySnapshot {
    match command {
        TrayCommand::SetStatus(status) => with_status(snapshot, status),
        TrayCommand::SetUsage(usage) => with_usage(snapshot, usage),
        TrayCommand::SetHealth(health) => with_health(snapshot, health),
    }
}

/// The state after a sequence of updates, applied first to last.
pub open spec fn apply_all(snapshot: TraySnapshot, commands: Seq<TrayCommand>) -> TraySnapshot
    decreases commands.len(),
{
    if commands.len() == 0 {
        snapshot
    } else {
        apply(apply_all(snapshot, commands.drop_last()), commands.last())
    }
}

/// The status of the last status update in `commands`, or `initial` if there
/// is none.
pub open spec fn last_status(
    initial: ConnectionStatus,
    commands: Seq<TrayCommand>,
) -> ConnectionStatus
    decreases commands.len(),
{
    if commands.len() == 0 {
        initial
    } else {
        match commands.last() {
            TrayCommand::SetStatus(status) => status,
            _ => last_status(initial, commands.drop_last()),
        }
    }
}

/// The usage of the last usage update in `commands`, or `initial` if there is
/// none.
pub open spec fn last_usage(initial: TokenUsage, commands: Seq<TrayCommand>) -> TokenUsage
    decreases commands.len(),
{
    if commands.len() == 0 {
        initial
    } else {
        match commands.last() {
            TrayCommand::SetUsage(usage) => usage,
            _ => last_usage(initial, commands.drop_last()),
        }
    }
}

/// The report of the last health update in `commands`, or `initial` if there
/// is none.
pub open spec fn last_health(initial: HealthInfo, commands: Seq<TrayCommand>) -> HealthInfo
    decreases commands.len(),
{
    if commands.len() == 0 {
        initial
    } else {
        match commands.last() {
            TrayCommand::SetHealth(health) => health,
            _ => last_health(initial, commands.drop_last()),
        }
    }
}

/// Updates to different fields commute. A status, a usage and a health update
/// applied in any of the six orders leave the same state, and the tooltip and
/// menu rendered from it show all three new values.
pub proof fn lemma_updates_commute(
    snapshot: TraySnapshot,
    status: ConnectionStatus,
    usage: TokenUsage,
    health: HealthInfo,
)
    ensures
        ({
            let end = with_usage(with_health(with_status(snapshot, status), health), usage);
            &&& with_health(with_usage(with_status(snapshot, status), usage), health) == end
            &&& with_usage(with_status(with_health(snapshot, health), status), usage) == end
            &&& with_status(with_usage(with_health(snapshot, health), usage), status) == end
            &&& with_health(with_status(with_usage(snapshot, usage), status), health) == end
            &&& with_status(with_health(with_usage(snapshot, usage), health), status) == end
            &&& end == (TraySnapshot {
                tray_ready: snapshot.tray_ready,
                status,
                usage,
                health: health.status,
                latency: health.latency,
            })
            &&& rendering(end).tooltip == tooltip_text(status)
            &&& rendering(end).menu == tray_menu(status, usage, health.status, health.latency)
        }),
{
}

/// An update overwrites: of two updates to the same field only the later
/// counts, and repeating an update changes nothing.
pub proof fn lemma_update_overwrites(
    snapshot: TraySnapshot,
    first: TrayCommand,
    second: TrayCommand,
)
    ensures
        apply(apply(snapshot, second), second) == apply(snapshot, second),
        (first is SetStatus && second is SetStatus) || (first is SetUsage && second is SetUsage)
            || (first is SetHealth && second is SetHealth) ==> apply(
            apply(snapshot, first),
            second,
        ) == apply(snapshot, second),
{
}

/// Before the tray icon exists an update still takes effect on the state,
/// and what it renders is marked as not displayed. Once the tray is set up,
/// the next rendering shows what was reported in the meantime.
pub proof fn lemma_updates_before_setup(snapshot: TraySnapshot, command: TrayCommand)
    requires
        !snapshot.tray_ready,
    ensures
        !rendering(apply(snapshot, command)).visible,
        command matches TrayCommand::SetStatus(status) ==> apply(snapshot, command).status
            == status,
        command matches TrayCommand::SetUsage(usage) ==> apply(snapshot, command).usage == usage,
        command matches TrayCommand::SetHealth(health) ==> apply(snapshot, command).health
            == health.status && apply(snapshot, command).latency == health.latency,
        with_tray(apply(snapshot, command)).usage == apply(snapshot, command).usage,
        with_tray(apply(snapshot, command)).health == apply(snapshot, command).health,
        with_tray(apply(snapshot, command)).latency == apply(snapshot, command).latency,
        rendering(with_tray(apply(snapshot, command))).visible,
{
}

/// After any sequence of updates, in whatever order the updates of several
/// callers arrived, each field holds exactly what the last update addressed
/// to it assigned, and a field that no update addressed holds what it held
/// before. No field is ever a mixture of two updates.
pub proof fn lemma_last_update_wins(snapshot: TraySnapshot, commands: Seq<TrayCommand>)
    ensures
        apply_all(snapshot, commands) == (TraySnapshot {
            tray_ready: snapshot.tray_ready,
            status: last_status(snapshot.status, commands),
            usage: last_usage(snapshot.usage, commands),
            health: last_health(
                HealthInfo { status: snapshot.health, latency: snapshot.latency },
                commands,
            ).status,
            latency: last_health(
                HealthInfo { status: snapshot.health, latency: snapshot.latency },
                commands,
            ).latency,
        }),
    decreases commands.len(),
{
    if commands.len() > 0 {
        lemma_last_update_wins(snapshot, commands.drop_last());
    }
}

/// The usage line shows a dash while the total is zero, whatever the other
/// two counters hold, and the formatted total, input and output otherwise;
/// the menu carries it as its third row.
pub proof fn lemma_usage_line(snapshot: TraySnapshot, usage: TokenUsage)
    ensures
        rendering(with_usage(snapshot, usage)).menu[2] == (MenuEntryView::Item {
            id: "usage"@,
            text: usage_text(usage),
            enabled: false,
            accelerator: None,
        }),
        usage.total_tokens == 0 ==> usage_text(usage) == "Tokens: —"@,
        usage.total_tokens > 0 ==> usage_text(usage) != "Tokens: —"@,
{
    if usage.total_tokens > 0 {
        reveal_strlit("Tokens: —");
        reveal_strlit("Tokens: ");
        reveal_strlit(")");
        let text = usage_text(usage);
        assert(text.last() == ')');
        assert("Tokens: —"@.last() == '—');
    }
}

/// The health line shows a latency only while the assistant is healthy or
/// degraded. When it is unhealthy or its health is unknown, the line is the
/// same whatever latency was reported.
pub proof fn lemma_latency_shown_only_when_reachable(health: HealthStatus, latency: Option<u64>)
    ensures
        health == HealthStatus::Unhealthy ==> health_text(health, latency) == "✕ Unhealthy"@,
        health == HealthStatus::Unknown ==> health_text(health, latency) == "? Unknown"@,
        health_text(HealthStatus::Healthy, None) == "♥ Healthy"@,
        health_text(HealthStatus::Degraded, None) == "◐ Degraded"@,
{
}

/// The ids of the menu's rows lead to their actions: each of the four action
/// rows has its own, a left click on the icon does what "show" does, and the
/// three informational rows have none.
pub proof fn lemma_menu_rows_and_actions()
    ensures
        menu_action("new_chat"@) == (TrayActionView::Emit { event: "tray-new-chat"@ }),
        menu_action("show"@) == TrayActionView::ShowWindow,
        menu_action("settings"@) == (TrayActionView::Emit { event: "tray-settings"@ }),
        menu_action("quit"@) == (TrayActionView::Exit { code: 0 }),
        menu_action("status"@) == TrayActionView::Ignore,
        menu_action("health"@) == TrayActionView::Ignore,
        menu_action("usage"@) == TrayActionView::Ignore,
        icon_action(
            TrayIconEvent::Click { button: MouseButton::Left, button_state: MouseButtonState::Up },
        ) == menu_action("show"@),
{
    reveal_strlit("new_chat");
    reveal_strlit("show");
    reveal_strlit("settings");
    reveal_strlit("quit");
    reveal_strlit("status");
    reveal_strlit("health");
    reveal_strlit("usage");
    assert("new_chat"@[0] == 'n');
    assert("show"@[1] == 'h');
    assert("settings"@[1] == 'e');
    assert("quit"@[0] == 'q');
    assert("status"@[1] == 't');
    assert("health"@[0] == 'h');
    assert("usage"@[0] == 'u');
}

} // verus!
