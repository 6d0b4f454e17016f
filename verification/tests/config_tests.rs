use interceptor::config::{
    checked_batch_size, checked_hold_value, checked_release_delay, HoldWindow,
    InterceptorSettings, ReleasePacing, SettingsError, TrafficKind, TrafficRule, VK_F9,
};
use interceptor::saved::{parse_saved_config, SavedSettingsError, SettingKey};
use interceptor::updater::UpdateStatus;

#[test]
fn traffic_rule_targets_the_remote_port_in_both_directions() {
    let rule = TrafficRule {
        port: Some(7777),
        protocol: TrafficKind::Udp,
    };

    assert_eq!(
        rule.compile_for_windivert().as_str(),
        "((outbound and (udp and udp.DstPort == 7777)) or (inbound and (udp and udp.SrcPort == 7777)))"
    );
}

#[test]
fn port_zero_is_not_a_usable_capture_rule() {
    let mut rule = TrafficRule::default();

    assert!(matches!(
        rule.set_port_from_text("0"),
        Err(SettingsError::PortZero)
    ));
}

#[test]
fn factory_defaults_require_a_port_and_use_f9() {
    let settings = InterceptorSettings::with_update_status(UpdateStatus::UpToDate);

    assert!(!settings.traffic_rule.has_port());
    assert_eq!(settings.trigger_key, VK_F9);
    assert_eq!(settings.trigger_name, "f9");
}

#[test]
fn custom_hold_window_does_not_silently_clamp_bad_input() {
    let mut settings = InterceptorSettings::default();

    assert!(matches!(
        settings.change_custom_minimum("99"),
        Err(SettingsError::HoldOutsideLimits)
    ));
}

#[test]
fn choosing_default_does_not_forget_custom_timing() {
    let mut settings = InterceptorSettings::default();
    settings.change_custom_minimum("1200").unwrap();
    settings.change_custom_maximum("1600").unwrap();

    settings.switch_hold_window();
    assert!(matches!(settings.hold_window, HoldWindow::StockRandomized));

    settings.switch_hold_window();
    assert!(matches!(
        settings.hold_window,
        HoldWindow::Custom {
            min_ms: 1200,
            max_ms: 1600
        }
    ));
}

#[test]
fn choosing_default_does_not_forget_custom_release_pacing() {
    let mut settings = InterceptorSettings::default();
    settings.change_custom_batch_size("20").unwrap();
    settings.change_custom_release_delay("8").unwrap();

    settings.switch_release_pacing();
    assert!(matches!(settings.release_pacing, ReleasePacing::Default));

    settings.switch_release_pacing();
    assert!(matches!(
        settings.release_pacing,
        ReleasePacing::Custom {
            packets_per_batch: 20,
            pause_ms: 8
        }
    ));
}

#[test]
fn saved_preferences_round_trip_without_update_state() {
    let mut settings = InterceptorSettings::with_update_status(UpdateStatus::UpToDate);
    settings.traffic_rule.protocol = TrafficKind::Udp;
    settings.traffic_rule.port = Some(7788);
    settings.always_on_top = true;
    settings.change_custom_minimum("1300").unwrap();
    settings.change_custom_maximum("1700").unwrap();
    settings.change_custom_batch_size("18").unwrap();
    settings.change_custom_release_delay("6").unwrap();

    let saved = parse_saved_config(&settings.saved_values()).unwrap();
    let mut restored = InterceptorSettings::with_update_status(UpdateStatus::UpToDate);
    restored.apply_saved_values(&saved).unwrap();

    assert_eq!(restored.traffic_rule.port, Some(7788));
    assert!(matches!(restored.traffic_rule.protocol, TrafficKind::Udp));
    assert!(restored.always_on_top);
    assert!(matches!(
        restored.hold_window,
        HoldWindow::Custom {
            min_ms: 1300,
            max_ms: 1700
        }
    ));
    assert!(matches!(
        restored.release_pacing,
        ReleasePacing::Custom {
            packets_per_batch: 18,
            pause_ms: 6
        }
    ));
}

#[test]
fn saved_text_is_one_line_per_setting() {
    let mut settings = InterceptorSettings::with_update_status(UpdateStatus::UpToDate);
    settings.trigger_key = -5;
    settings.trigger_name = "left mouse button".to_string();
    settings.traffic_rule.port = Some(27015);
    assert_eq!(
        settings.saved_values(),
        "trigger_key=-5\ntrigger_name=left mouse button\nport=27015\nprotocol=both\n\
         always_on_top=false\nhold_window=default\ncustom_hold_min_ms=1800\n\
         custom_hold_max_ms=2500\nrelease_pacing=default\ncustom_batch_size=30\n\
         custom_batch_delay_ms=4\n"
    );
}

#[test]
fn round_trip_keeps_negative_keys_and_names_with_equals_signs() {
    let mut settings = InterceptorSettings::with_update_status(UpdateStatus::Checking);
    settings.trigger_key = i32::MIN;
    settings.trigger_name = "a=b".to_string();
    let saved = parse_saved_config(&settings.saved_values()).unwrap();
    let mut restored = InterceptorSettings::with_update_status(UpdateStatus::UpToDate);
    restored.trigger_key = 1;
    restored.apply_saved_values(&saved).unwrap();
    assert_eq!(restored.trigger_key, i32::MIN);
    assert_eq!(restored.trigger_name, "a=b");
    assert_eq!(restored.traffic_rule.port, None);
    assert!(matches!(restored.update_status, UpdateStatus::UpToDate));
}

#[test]
fn saved_text_allows_comments_blank_lines_and_spaces() {
    let text = "# settings\n\n  trigger_key = 65 \r\ntrigger_name=A\nport=\nprotocol=tcp\n\
                always_on_top=false\nhold_window=custom\ncustom_hold_min_ms=+150\n\
                custom_hold_max_ms=0300\nrelease_pacing=default\ncustom_batch_size=1\n\
                custom_batch_delay_ms=0";
    let saved = parse_saved_config(text).unwrap();
    let mut settings = InterceptorSettings::default();
    settings.apply_saved_values(&saved).unwrap();
    assert_eq!(settings.trigger_key, 65);
    assert_eq!(settings.trigger_name, "A");
    assert!(matches!(settings.traffic_rule.protocol, TrafficKind::Tcp));
    assert!(matches!(
        settings.hold_window,
        HoldWindow::Custom {
            min_ms: 150,
            max_ms: 300
        }
    ));
    assert_eq!(settings.custom_batch_size(), 1);
    assert_eq!(settings.custom_release_delay_ms(), 0);
}

#[test]
fn later_lines_win_over_earlier_ones() {
    let saved = parse_saved_config("port=1\nport=2\n").unwrap();
    let key: Vec<char> = "port".chars().collect();
    let value: String = saved.lookup(&key).unwrap().iter().collect();
    assert_eq!(value, "2");
}

#[test]
fn a_line_without_equals_sign_is_reported_by_number() {
    let problem = parse_saved_config("# ok\n\nport=1\nnonsense\n").err().unwrap();
    assert_eq!(problem, SavedSettingsError::LineWithoutEquals { line: 4 });
    assert_eq!(problem.message(), "saved settings line 4 has no '='");
}

#[test]
fn a_missing_setting_stops_at_what_was_applied() {
    let saved = parse_saved_config("trigger_key=70\n").unwrap();
    let mut settings = InterceptorSettings::default();
    let problem = settings.apply_saved_values(&saved).err().unwrap();
    assert_eq!(problem, SavedSettingsError::Missing(SettingKey::TriggerName));
    assert_eq!(problem.message(), "saved setting 'trigger_name' is missing");
    assert_eq!(settings.trigger_key, 70);
}

#[test]
fn saved_errors_name_the_problem() {
    let base = "trigger_key=1\ntrigger_name=x\nport=0\n";
    let saved = parse_saved_config(base).unwrap();
    let mut settings = InterceptorSettings::default();
    let problem = settings.apply_saved_values(&saved).err().unwrap();
    assert_eq!(problem, SavedSettingsError::InvalidPort(SettingsError::PortZero));
    assert_eq!(
        problem.message(),
        "saved port is invalid: port 0 cannot carry intercepted traffic"
    );

    let full = |hold: &str, pacing: &str, min: &str, max: &str, batch: &str, delay: &str, protocol: &str, on_top: &str| {
        format!(
            "trigger_key=1\ntrigger_name=x\nport=5\nprotocol={protocol}\nalways_on_top={on_top}\n\
             hold_window={hold}\ncustom_hold_min_ms={min}\ncustom_hold_max_ms={max}\n\
             release_pacing={pacing}\ncustom_batch_size={batch}\ncustom_batch_delay_ms={delay}\n"
        )
    };
    let cases = [
        (full("default", "default", "100", "200", "5", "5", "sctp", "true"), SavedSettingsError::InvalidProtocol),
        (full("default", "default", "100", "200", "5", "5", "udp", "yes"), SavedSettingsError::Invalid(SettingKey::AlwaysOnTop)),
        (full("default", "default", "99", "200", "5", "5", "udp", "true"), SavedSettingsError::HoldMinimumOutOfRange),
        (full("default", "default", "100", "10001", "5", "5", "udp", "true"), SavedSettingsError::HoldMaximumOutOfRange),
        (full("default", "default", "300", "200", "5", "5", "udp", "true"), SavedSettingsError::HoldMinimumAboveMaximum),
        (full("sometimes", "default", "100", "200", "5", "5", "udp", "true"), SavedSettingsError::InvalidHoldMode),
        (full("default", "default", "100", "200", "251", "5", "udp", "true"), SavedSettingsError::BatchSizeOutOfRange),
        (full("default", "default", "100", "200", "5", "101", "udp", "true"), SavedSettingsError::BatchDelayOutOfRange),
        (full("default", "slow", "100", "200", "5", "5", "udp", "true"), SavedSettingsError::InvalidPacingMode),
        (full("default", "default", "1e2", "200", "5", "5", "udp", "true"), SavedSettingsError::Invalid(SettingKey::CustomHoldMin)),
    ];
    for (text, expected) in cases.iter() {
        let saved = parse_saved_config(text).unwrap();
        let mut settings = InterceptorSettings::default();
        assert_eq!(settings.apply_saved_values(&saved).err().unwrap(), *expected);
    }
    assert_eq!(SavedSettingsError::HoldMinimumAboveMaximum.message(), "saved custom hold minimum is above its maximum");
    assert_eq!(SavedSettingsError::InvalidPacingMode.message(), "saved release pacing mode is invalid");
}

#[test]
fn typed_values_are_checked_against_their_limits() {
    assert_eq!(checked_hold_value("100"), Ok(100));
    assert_eq!(checked_hold_value("10000"), Ok(10000));
    assert_eq!(checked_hold_value("+250"), Ok(250));
    assert_eq!(checked_hold_value("10001"), Err(SettingsError::HoldOutsideLimits));
    assert_eq!(checked_hold_value(""), Err(SettingsError::HoldNotANumber));
    assert_eq!(checked_hold_value(" 100"), Err(SettingsError::HoldNotANumber));
    assert_eq!(checked_hold_value("18446744073709551616"), Err(SettingsError::HoldNotANumber));
    assert_eq!(checked_batch_size("0"), Err(SettingsError::BatchOutsideLimits));
    assert_eq!(checked_batch_size("250"), Ok(250));
    assert_eq!(checked_batch_size("-1"), Err(SettingsError::BatchNotANumber));
    assert_eq!(checked_release_delay("0"), Ok(0));
    assert_eq!(checked_release_delay("101"), Err(SettingsError::DelayOutsideLimits));
    assert_eq!(checked_release_delay("x"), Err(SettingsError::DelayNotANumber));
    let mut rule = TrafficRule::default();
    assert_eq!(rule.set_port_from_text("65536"), Err(SettingsError::PortNotANumber));
    assert_eq!(rule.port, None);
    assert_eq!(rule.set_port_from_text("65535"), Ok(()));
    assert_eq!(rule.port, Some(65535));
    assert_eq!(SettingsError::DelayOutsideLimits.message(), "release delay must be between 0 and 100 ms");
}

#[test]
fn custom_values_move_the_other_end_of_the_window() {
    let mut settings = InterceptorSettings::default();
    settings.change_custom_minimum("3000").unwrap();
    assert!(matches!(settings.hold_window, HoldWindow::Custom { min_ms: 3000, max_ms: 3000 }));
    settings.change_custom_maximum("200").unwrap();
    assert!(matches!(settings.hold_window, HoldWindow::Custom { min_ms: 200, max_ms: 200 }));
    assert_eq!(settings.custom_min_ms(), 200);
    assert_eq!(settings.custom_max_ms(), 200);
    assert!(settings.change_custom_maximum("abc").is_err());
    assert_eq!(settings.custom_max_ms(), 200);
}

#[test]
fn descriptions_and_names() {
    let rule = TrafficRule { port: None, protocol: TrafficKind::Both };
    assert_eq!(rule.summary(), "tcp + udp port not set");
    assert_eq!(rule.port_name(), "not set");
    let rule = TrafficRule { port: Some(80), protocol: TrafficKind::Tcp };
    assert_eq!(rule.summary(), "tcp port 80");
    assert_eq!(
        rule.compile_for_windivert(),
        "((outbound and (tcp and tcp.DstPort == 80)) or (inbound and (tcp and tcp.SrcPort == 80)))"
    );
    let rule = TrafficRule { port: Some(9), protocol: TrafficKind::Both };
    assert_eq!(
        rule.compile_for_windivert(),
        "((outbound and ((udp and udp.DstPort == 9) or (tcp and tcp.DstPort == 9))) or (inbound and ((udp and udp.SrcPort == 9) or (tcp and tcp.SrcPort == 9))))"
    );
    assert_eq!(HoldWindow::StockRandomized.description(), "default (1800-2500ms)");
    assert_eq!(HoldWindow::Custom { min_ms: 100, max_ms: 900 }.description(), "custom (100-900ms)");
    assert_eq!(HoldWindow::StockRandomized.min_ms(), 1800);
    assert_eq!(HoldWindow::StockRandomized.max_ms(), 2500);
    assert_eq!(ReleasePacing::Default.description(), "default (30 packets / 4ms)");
    assert_eq!(
        ReleasePacing::Custom { packets_per_batch: 7, pause_ms: 0 }.description(),
        "custom (7 packets / 0ms)"
    );
    assert_eq!(ReleasePacing::Default.packet_batch_size(), 30);
    assert_eq!(ReleasePacing::Default.batch_pause_ms(), 4);
    assert_eq!(ReleasePacing::Default.option_name(), "default");
    assert_eq!(HoldWindow::StockRandomized.option_name(), "default");
    let mut settings = InterceptorSettings::default();
    assert_eq!(settings.always_on_top_name(), "off");
    settings.always_on_top = true;
    assert_eq!(settings.always_on_top_name(), "on");
}

#[test]
fn protocol_choice_cycles_through_all_three() {
    let kind = TrafficKind::Both;
    assert_eq!(kind.next_protocol(), TrafficKind::Udp);
    assert_eq!(kind.next_protocol().next_protocol(), TrafficKind::Tcp);
    assert_eq!(kind.next_protocol().next_protocol().next_protocol(), TrafficKind::Both);
    assert_eq!(TrafficKind::Both.menu_name(), "tcp + udp");
    assert_eq!(TrafficKind::Udp.menu_name(), "udp");
    assert_eq!(TrafficKind::Tcp.saved_name(), "tcp");
}

#[test]
fn restoring_defaults_keeps_the_update_status() {
    let mut settings = InterceptorSettings::with_update_status(UpdateStatus::Failed("offline".to_string()));
    settings.traffic_rule.port = Some(4000);
    settings.change_custom_batch_size("9").unwrap();
    settings.restore_defaults();
    assert_eq!(settings.traffic_rule.port, None);
    assert!(matches!(settings.release_pacing, ReleasePacing::Default));
    assert_eq!(settings.custom_batch_size(), 30);
    assert!(matches!(settings.update_status, UpdateStatus::Failed(ref m) if m == "offline"));
}

#[test]
fn saved_text_is_read_and_applied_in_one_step() {
    let mut settings = InterceptorSettings::with_update_status(UpdateStatus::UpToDate);
    settings.traffic_rule.port = Some(3074);
    settings.change_custom_minimum("900").unwrap();
    let text = settings.saved_values();

    let mut restored = InterceptorSettings::default();
    restored.apply_saved_text(&text).unwrap();
    assert_eq!(restored.traffic_rule.port, Some(3074));
    assert!(matches!(
        restored.hold_window,
        HoldWindow::Custom { min_ms: 900, .. }
    ));
    assert!(matches!(restored.update_status, UpdateStatus::Checking));

    let mut untouched = InterceptorSettings::default();
    let problem = untouched.apply_saved_text("port=5\nnonsense\n").err().unwrap();
    assert_eq!(problem, SavedSettingsError::LineWithoutEquals { line: 2 });
    assert_eq!(untouched.traffic_rule.port, None);
}
