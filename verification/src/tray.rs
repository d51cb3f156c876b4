//! The tray state store: the last known status, usage and health, and the
//! three updates that replace them.
//!
//! A `TrayState` is an owned value. Every update replaces one field as a
//! whole and answers with the tray's new tooltip and menu, rendered from all
//! fields as they stand after the update; the host applies that to the live
//! tray icon when there is one.

use crate::menu::{
    build_tray_menu, menu_view, tooltip_text, tray_menu, tray_tooltip, MenuEntry, MenuEntryView,
};
use crate::model::{ConnectionStatus, HealthInfo, HealthStatus, TokenUsage};
use vstd::prelude::*;

verus! {

/// A copy of all state fields taken at one instant.
#[derive(Debug, Clone, Copy, PartialEq, Eq, Structural)]
pub struct TraySnapshot {
    /// Whether the tray icon has been created.
    pub tray_ready: bool,
    pub status: ConnectionStatus,
    pub usage: TokenUsage,
    pub health: HealthStatus,
    /// Latency in milliseconds, as last reported together with `health`.
    pub latency: Option<u64>,
}

/// State kept for the tray. No field constrains another: any combination of
/// status, usage and health is valid.
#[derive(Debug, Clone, Copy)]
pub struct TrayState {
    tray_ready: bool,
    status: ConnectionStatus,
    usage: TokenUsage,
    health: HealthStatus,
    latency: Option<u64>,
}

/// What the tray is to show: the tooltip and the menu, and whether there is a
/// tray icon to show them on.
#[derive(Debug, Clone, PartialEq, Eq)]
pub struct TrayUpdate {
    pub tooltip: String,
    pub menu: Vec<MenuEntry>,
    /// False before the tray icon exists: the update is then not displayed.
    pub visible: bool,
}

/// What a `TrayUpdate` holds, as mathematical values.
pub struct TrayUpdateView {
    pub tooltip: Seq<char>,
    pub menu: Seq<MenuEntryView>,
    pub visible: bool,
}

impl View for TrayUpdate {
    type V = TrayUpdateView;

    open spec fn view(&self) -> TrayUpdateView {
        TrayUpdateView { tooltip: self.tooltip@, menu: menu_view(self.menu@), visible: self.visible }
    }
}

/// The state before anything was reported and before the tray exists.
pub open spec fn initial_snapshot() -> TraySnapshot {
    TraySnapshot {
        tray_ready: false,
        status: ConnectionStatus::Disconnected,
        usage: TokenUsage { input_tokens: 0, output_tokens: 0, total_tokens: 0 },
        health: HealthStatus::Unknown,
        latency: None,
    }
}

/// The tooltip and menu for a snapshot. The tooltip depends on the connection
/// status alone.
pub open spec fn rendering(snapshot: TraySnapshot) -> TrayUpdateView {
    TrayUpdateView {
        tooltip: tooltip_text(snapshot.status),
        menu: tray_menu(snapshot.status, snapshot.usage, snapshot.health, snapshot.latency),
        visible: snapshot.tray_ready,
    }
}

/// `snapshot` with the connection status replaced.
pub open spec fn with_status(snapshot: TraySnapshot, status: ConnectionStatus) -> TraySnapshot {
    TraySnapshot { status, ..snapshot }
}

/// `snapshot` with the token usage replaced.
pub open spec fn with_usage(snapshot: TraySnapshot, usage: TokenUsage) -> TraySnapshot {
    TraySnapshot { usage, ..snapshot }
}

/// `snapshot` with health status and latency replaced together.
pub open spec fn with_health(snapshot: TraySnapshot, health: HealthInfo) -> TraySnapshot {
    TraySnapshot { health: health.status, latency: health.latency, ..snapshot }
}

/// `snapshot` once the tray icon has been created: the tray is ready and the
/// status starts over as disconnected; usage and health stay as they are.
pub open spec fn with_tray(snapshot: TraySnapshot) -> TraySnapshot {
    TraySnapshot { tray_ready: true, status: ConnectionStatus::Disconnected, ..snapshot }
}

impl View for TrayState {
    type V = TraySnapshot;

    closed spec fn view(&self) -> TraySnapshot {
        TraySnapshot {
            tray_ready: self.tray_ready,
            status: self.status,
            usage: self.usage,
            health: self.health,
            latency: self.latency,
        }
    }
}

impl Default for TrayState {
    fn default() -> (state: Self)
        ensures
            state@ == initial_snapshot(),
    {
        TrayState {
            tray_ready: false,
            status: ConnectionStatus::Disconnected,
            usage: TokenUsage { input_tokens: 0, output_tokens: 0, total_tokens: 0 },
            health: HealthStatus::Unknown,
            latency: None,
        }
    }
}

impl TrayState {
    /// A copy of all fields as they stand.
    pub fn snapshot(&self) -> (snapshot: TraySnapshot)
        ensures
            snapshot == self@,
    {
        TraySnapshot {
            tray_ready: self.tray_ready,
            status: self.status,
            usage: self.usage,
            health: self.health,
            latency: self.latency,
        }
    }
}

/// Renders tooltip and menu from the current state.
pub fn rebuild_tray_menu(state: &TrayState) -> (update: TrayUpdate)
    ensures
        update@ == rendering(state@),
{
    let tooltip = String::from_str(tray_tooltip(state.status));
    let menu = build_tray_menu(&state.status, &state.usage, &state.health, state.latency);
    TrayUpdate { tooltip, menu, visible: state.tray_ready }
}

/// Sets up the tray: answers with the tooltip and menu the new tray icon
/// starts with, and records in `state` that the tray exists.
///
/// The first menu is the one of a fresh state, whatever was reported before
/// the tray existed; what was reported shows with the next update.
pub fn create_tray(state: &mut TrayState) -> (setup: TrayUpdate)
    ensures
        final(state)@ == with_tray(old(state)@),
        setup@ == rendering(with_tray(initial_snapshot())),
{
    let status = ConnectionStatus::Disconnected;
    let usage = TokenUsage::default();
    let health = HealthStatus::Unknown;
    let menu = build_tray_menu(&status, &usage, &health, None);
    let tooltip = String::from_str("Clawdis - Disconnected");
    state.tray_ready = true;
    state.status = status;
    TrayUpdate { tooltip, menu, visible: true }
}

/// Replaces the connection status and renders the tray anew.
pub fn set_tray_status(state: &mut TrayState, status: ConnectionStatus) -> (update: TrayUpdate)
    ensures
        final(state)@ == with_status(old(state)@, status),
        update@ == rendering(final(state)@),
{
    state.status = status;
    rebuild_tray_menu(state)
}

/// Replaces the token usage and renders the tray anew.
pub fn set_tray_usage(state: &mut TrayState, usage: TokenUsage) -> (update: TrayUpdate)
    ensures
        final(state)@ == with_usage(old(state)@, usage),
        update@ == rendering(final(state)@),
{
    state.usage = usage;
    rebuild_tray_menu(state)
}

/// Replaces health status and latency and renders the tray anew.
pub fn set_tray_health(state: &mut TrayState, health: HealthInfo) -> (update: TrayUpdate)
    ensures
        final(state)@ == with_health(old(state)@, health),
        update@ == rendering(final(state)@),
{
    state.health = health.status;
    state.latency = health.latency;
    rebuild_tray_menu(state)
}

} // verus!
