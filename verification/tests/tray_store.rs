use clawdis::{
    build_tray_menu, create_tray, rebuild_tray_menu, set_tray_health, set_tray_status,
    set_tray_usage, ConnectionStatus, HealthInfo, HealthStatus, MenuEntry, TokenUsage,
    TraySnapshot, TrayState,
};

fn row_text(entry: &MenuEntry) -> String {
    match entry {
        MenuEntry::Item { text, .. } => text.clone(),
        MenuEntry::Separator => String::new(),
    }
}

#[test]
fn token_usage_defaults_to_zero() {
    assert_eq!(
        TokenUsage::default(),
        TokenUsage { input_tokens: 0, output_tokens: 0, total_tokens: 0 }
    );
}

#[test]
fn state_starts_with_defaults() {
    let state = TrayState::default();
    assert_eq!(
        state.snapshot(),
        TraySnapshot {
            tray_ready: false,
            status: ConnectionStatus::Disconnected,
            usage: TokenUsage::default(),
            health: HealthStatus::Unknown,
            latency: None,
        }
    );
}

#[test]
fn independent_states_do_not_share_anything() {
    let mut first = TrayState::default();
    let second = TrayState::default();
    set_tray_status(&mut first, ConnectionStatus::Connected);
    assert_eq!(first.snapshot().status, ConnectionStatus::Connected);
    assert_eq!(second.snapshot().status, ConnectionStatus::Disconnected);
}

#[test]
fn rebuild_renders_the_current_state() {
    let state = TrayState::default();
    let update = rebuild_tray_menu(&state);
    assert_eq!(update.tooltip, "Clawdis - Disconnected");
    assert_eq!(
        update.menu,
        build_tray_menu(
            &ConnectionStatus::Disconnected,
            &TokenUsage::default(),
            &HealthStatus::Unknown,
            None
        )
    );
    assert!(!update.visible);
}

#[test]
fn set_status_replaces_status_only() {
    let mut state = TrayState::default();
    let before = state.snapshot();
    let update = set_tray_status(&mut state, ConnectionStatus::Connecting);
    assert_eq!(
        state.snapshot(),
        TraySnapshot { status: ConnectionStatus::Connecting, ..before }
    );
    assert_eq!(update.tooltip, "Clawdis - Connecting...");
    assert_eq!(row_text(&update.menu[0]), "○ Connecting...");
    assert_eq!(row_text(&update.menu[1]), "? Unknown");
    assert_eq!(row_text(&update.menu[2]), "Tokens: —");
}

#[test]
fn set_usage_replaces_usage_only() {
    let mut state = TrayState::default();
    let before = state.snapshot();
    let usage = TokenUsage { input_tokens: 1_000, output_tokens: 500, total_tokens: 1_500 };
    let update = set_tray_usage(&mut state, usage);
    assert_eq!(state.snapshot(), TraySnapshot { usage, ..before });
    assert_eq!(update.tooltip, "Clawdis - Disconnected");
    assert_eq!(row_text(&update.menu[2]), "Tokens: 1.5k (↓1.0k ↑500)");
}

#[test]
fn set_usage_with_zero_counters_shows_a_dash() {
    let mut state = TrayState::default();
    set_tray_usage(
        &mut state,
        TokenUsage { input_tokens: 5, output_tokens: 6, total_tokens: 11 },
    );
    let update = set_tray_usage(&mut state, TokenUsage::default());
    assert_eq!(row_text(&update.menu[2]), "Tokens: —");
}

#[test]
fn set_usage_overwrites_and_does_not_add() {
    let mut state = TrayState::default();
    let first = TokenUsage { input_tokens: 10, output_tokens: 20, total_tokens: 30 };
    let second = TokenUsage { input_tokens: 1, output_tokens: 2, total_tokens: 3 };
    set_tray_usage(&mut state, first);
    let update = set_tray_usage(&mut state, second);
    assert_eq!(state.snapshot().usage, second);
    assert_eq!(row_text(&update.menu[2]), "Tokens: 3 (↓1 ↑2)");
}

#[test]
fn set_health_replaces_status_and_latency_together() {
    let mut state = TrayState::default();
    let before = state.snapshot();
    let update = set_tray_health(
        &mut state,
        HealthInfo { status: HealthStatus::Healthy, latency: Some(42) },
    );
    assert_eq!(
        state.snapshot(),
        TraySnapshot { health: HealthStatus::Healthy, latency: Some(42), ..before }
    );
    assert_eq!(row_text(&update.menu[1]), "♥ Healthy (42ms)");

    let update = set_tray_health(
        &mut state,
        HealthInfo { status: HealthStatus::Degraded, latency: None },
    );
    assert_eq!(state.snapshot().latency, None);
    assert_eq!(row_text(&update.menu[1]), "◐ Degraded");
}

#[test]
fn unhealthy_keeps_the_latency_but_does_not_show_it() {
    let mut state = TrayState::default();
    let update = set_tray_health(
        &mut state,
        HealthInfo { status: HealthStatus::Unhealthy, latency: Some(900) },
    );
    assert_eq!(state.snapshot().latency, Some(900));
    assert_eq!(row_text(&update.menu[1]), "✕ Unhealthy");
}

#[test]
fn repeating_an_update_changes_nothing() {
    let mut state = TrayState::default();
    let first = set_tray_status(&mut state, ConnectionStatus::Error);
    let after_first = state.snapshot();
    let second = set_tray_status(&mut state, ConnectionStatus::Error);
    assert_eq!(state.snapshot(), after_first);
    assert_eq!(first, second);
}

#[test]
fn updates_in_any_order_converge() {
    let status = ConnectionStatus::Connected;
    let usage = TokenUsage { input_tokens: 2_000, output_tokens: 500, total_tokens: 2_500 };
    let health = HealthInfo { status: HealthStatus::Degraded, latency: Some(310) };
    let orders: [[u8; 3]; 6] =
        [[0, 1, 2], [0, 2, 1], [1, 0, 2], [1, 2, 0], [2, 0, 1], [2, 1, 0]];
    let expected_menu =
        build_tray_menu(&status, &usage, &health.status, health.latency);
    for order in orders {
        let mut state = TrayState::default();
        let mut last = rebuild_tray_menu(&state);
        for step in order {
            last = match step {
                0 => set_tray_status(&mut state, status),
                1 => set_tray_usage(&mut state, usage),
                _ => set_tray_health(&mut state, health),
            };
        }
        assert_eq!(
            state.snapshot(),
            TraySnapshot {
                tray_ready: false,
                status,
                usage,
                health: health.status,
                latency: health.latency,
            }
        );
        assert_eq!(last.tooltip, "Clawdis - Connected");
        assert_eq!(last.menu, expected_menu);
    }
}

#[test]
fn interleaved_updates_end_with_the_last_value_of_each_field() {
    let mut state = TrayState::default();
    let usage_a = TokenUsage { input_tokens: 1, output_tokens: 1, total_tokens: 2 };
    let usage_b = TokenUsage { input_tokens: 7, output_tokens: 8, total_tokens: 15 };
    set_tray_status(&mut state, ConnectionStatus::Connecting);
    set_tray_usage(&mut state, usage_a);
    set_tray_status(&mut state, ConnectionStatus::Error);
    set_tray_usage(&mut state, usage_b);
    set_tray_status(&mut state, ConnectionStatus::Connected);
    let snapshot = state.snapshot();
    assert_eq!(snapshot.status, ConnectionStatus::Connected);
    assert_eq!(snapshot.usage, usage_b);
    assert_eq!(snapshot.health, HealthStatus::Unknown);
    assert_eq!(snapshot.latency, None);
}

#[test]
fn updates_before_setup_take_effect_but_are_not_displayed() {
    let mut state = TrayState::default();
    let usage = TokenUsage { input_tokens: 40, output_tokens: 2, total_tokens: 42 };
    let first = set_tray_status(&mut state, ConnectionStatus::Connected);
    let second = set_tray_usage(&mut state, usage);
    let third = set_tray_health(
        &mut state,
        HealthInfo { status: HealthStatus::Healthy, latency: Some(12) },
    );
    assert!(!first.visible);
    assert!(!second.visible);
    assert!(!third.visible);
    assert_eq!(
        state.snapshot(),
        TraySnapshot {
            tray_ready: false,
            status: ConnectionStatus::Connected,
            usage,
            health: HealthStatus::Healthy,
            latency: Some(12),
        }
    );
}

#[test]
fn setup_starts_from_a_fresh_menu() {
    let mut state = TrayState::default();
    let usage = TokenUsage { input_tokens: 40, output_tokens: 2, total_tokens: 42 };
    set_tray_status(&mut state, ConnectionStatus::Connected);
    set_tray_usage(&mut state, usage);
    let setup = create_tray(&mut state);
    assert!(setup.visible);
    assert_eq!(setup.tooltip, "Clawdis - Disconnected");
    assert_eq!(
        setup.menu,
        build_tray_menu(
            &ConnectionStatus::Disconnected,
            &TokenUsage::default(),
            &HealthStatus::Unknown,
            None
        )
    );
    assert_eq!(
        state.snapshot(),
        TraySnapshot {
            tray_ready: true,
            status: ConnectionStatus::Disconnected,
            usage,
            health: HealthStatus::Unknown,
            latency: None,
        }
    );
}

#[test]
fn updates_after_setup_are_displayed() {
    let mut state = TrayState::default();
    let usage = TokenUsage { input_tokens: 40, output_tokens: 2, total_tokens: 42 };
    set_tray_usage(&mut state, usage);
    create_tray(&mut state);
    let update = set_tray_status(&mut state, ConnectionStatus::Connected);
    assert!(update.visible);
    assert_eq!(update.tooltip, "Clawdis - Connected");
    assert_eq!(row_text(&update.menu[0]), "● Connected");
    assert_eq!(row_text(&update.menu[2]), "Tokens: 42 (↓40 ↑2)");
}
