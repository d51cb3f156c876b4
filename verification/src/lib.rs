//! Tray state and menu presentation for the Clawdis desktop shell.
//!
//! The crate keeps the last known connection status, token usage and health
//! of the assistant, and renders them into the text of a system-tray menu and
//! its tooltip. Everything here works on plain values; the host application
//! owns the live tray icon and applies what these functions return.

pub mod events;
pub mod laws;
pub mod menu;
pub mod model;
pub mod tokens;
pub mod tray;

pub use events::{
    on_menu_event, on_tray_icon_event, MouseButton, MouseButtonState, TrayAction, TrayIconEvent,
};
pub use menu::{
    build_tray_menu, health_label, status_label, tray_tooltip, usage_label, MenuEntry,
};
pub use model::{ConnectionStatus, HealthInfo, HealthStatus, TokenUsage};
pub use tokens::format_tokens;
pub use tray::{
    create_tray, rebuild_tray_menu, set_tray_health, set_tray_status, set_tray_usage,
    TraySnapshot, TrayState, TrayUpdate,
};
