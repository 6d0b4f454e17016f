use interceptor::config::{HoldWindow, InterceptorSettings, ReleasePacing, SettingsError, TrafficKind};
use interceptor::elevation::quote_arg;
use interceptor::menu::{
    app_panel_layout, centered_rect_with_min, dashboard_action_for_key, expire_notice,
    finish_always_on_top, finish_restore, finish_save, handle_hold_input, handle_keybind_key,
    handle_keybind_mouse, handle_main_key, handle_port_input, handle_release_input,
    handle_settings_key, help_text, key_code_to_virtual_key, main_menu_labels,
    mouse_button_to_virtual_key, move_settings_selection, setting_hotkey, settings_actions, settings_shortcut_index,
    DashboardAction, Key, KeyEvent, MainOutcome, MenuView, MouseButton, Notice, NoticeTone,
    Rect, SettingAction, SettingEffect, SettingsMode, TrafficActivity,
};
use interceptor::updater::UpdateStatus;

#[test]
fn ctrl_c_force_exits_the_runtime_dashboard() {
    assert!(matches!(
        dashboard_action_for_key(KeyEvent::new(Key::Char('c'), true)),
        Some(DashboardAction::ForceExit)
    ));
}

#[test]
fn q_and_escape_return_to_the_menu() {
    assert!(matches!(
        dashboard_action_for_key(KeyEvent::new(Key::Char('q'), false)),
        Some(DashboardAction::BackToMenu)
    ));
    assert!(matches!(
        dashboard_action_for_key(KeyEvent::new(Key::Esc, false)),
        Some(DashboardAction::BackToMenu)
    ));
}

#[test]
fn other_dashboard_keys_do_nothing() {
    assert_eq!(dashboard_action_for_key(KeyEvent::new(Key::Char('c'), false)), None);
    assert_eq!(dashboard_action_for_key(KeyEvent::new(Key::Enter, true)), None);
    let mut release = KeyEvent::new(Key::Esc, false);
    release.is_press = false;
    assert_eq!(dashboard_action_for_key(release), None);
}

fn labels(mode: SettingsMode, settings: &InterceptorSettings) -> Vec<String> {
    settings_actions(mode, settings).into_iter().map(|(label, _)| label).collect()
}

#[test]
fn easy_settings_menu_lists_the_basics() {
    let settings = InterceptorSettings::default();
    assert_eq!(
        labels(SettingsMode::Easy, &settings),
        vec![
            "protocol: tcp + udp",
            "port: not set",
            "change trigger: f9",
            "always on top: off",
            "advanced mode",
            "",
            "save settings",
            "restore defaults",
            "back",
        ]
    );
}

#[test]
fn advanced_settings_menu_shows_custom_values() {
    let mut settings = InterceptorSettings::default();
    settings.change_custom_minimum("1200").unwrap();
    settings.change_custom_batch_size("12").unwrap();
    assert_eq!(
        labels(SettingsMode::Advanced, &settings),
        vec![
            "protocol: tcp + udp",
            "port: not set",
            "change trigger: f9",
            "always on top: off",
            "hold window: custom",
            "custom hold minimum: 1200ms",
            "custom hold maximum: 2500ms",
            "release pacing: custom",
            "custom batch size: 12 packets",
            "custom batch delay: 4ms",
            "ez mode",
            "",
            "save settings",
            "restore defaults",
            "back",
        ]
    );
}

#[test]
fn selection_skips_the_divider() {
    let settings = InterceptorSettings::default();
    let actions = settings_actions(SettingsMode::Easy, &settings);
    let mut selected = 4;
    move_settings_selection(&mut selected, &actions, true);
    assert_eq!(selected, 6);
    move_settings_selection(&mut selected, &actions, false);
    assert_eq!(selected, 4);
    let mut last = actions.len() - 1;
    move_settings_selection(&mut last, &actions, true);
    assert_eq!(last, actions.len() - 1);
    let mut first = 0;
    move_settings_selection(&mut first, &actions, false);
    assert_eq!(first, 0);
}

#[test]
fn shortcuts_number_the_entries() {
    let settings = InterceptorSettings::default();
    let actions = settings_actions(SettingsMode::Advanced, &settings);
    assert_eq!(settings_shortcut_index(Key::Char('2'), &actions), Some(0));
    assert_eq!(settings_shortcut_index(Key::Char('8'), &actions), Some(6));
    assert_eq!(settings_shortcut_index(Key::Char('9'), &actions), Some(8));
    assert_eq!(settings_shortcut_index(Key::Char('0'), &actions), Some(9));
    assert_eq!(settings_shortcut_index(Key::Char('A'), &actions), None);
    assert_eq!(settings_shortcut_index(Key::Enter, &actions), None);
    assert_eq!(setting_hotkey(0, SettingAction::Protocol, &actions), "2");
    assert_eq!(setting_hotkey(8, SettingAction::Save, &actions), "9");
    assert_eq!(setting_hotkey(9, SettingAction::RestoreDefaults, &actions), "0");
    assert_eq!(setting_hotkey(10, SettingAction::Back, &actions), "1");
    let mut custom = InterceptorSettings::default();
    custom.switch_hold_window();
    custom.switch_release_pacing();
    let many = settings_actions(SettingsMode::Advanced, &custom);
    assert_eq!(settings_shortcut_index(Key::Char('a'), &many), Some(9));
    assert_eq!(settings_shortcut_index(Key::Char('B'), &many), Some(10));
    assert_eq!(setting_hotkey(9, SettingAction::CustomDelay, &many), "A");
    assert_eq!(setting_hotkey(13, SettingAction::RestoreDefaults, &many), "D");
}

#[test]
fn keys_become_trigger_bindings() {
    let (vk, name) = key_code_to_virtual_key(Key::Char('g')).unwrap();
    assert_eq!((vk, name.as_str()), (0x47, "G"));
    let (vk, name) = key_code_to_virtual_key(Key::Char('7')).unwrap();
    assert_eq!((vk, name.as_str()), (0x37, "7"));
    let (vk, name) = key_code_to_virtual_key(Key::F(12)).unwrap();
    assert_eq!((vk, name.as_str()), (0x7B, "f12"));
    let (vk, name) = key_code_to_virtual_key(Key::PageDown).unwrap();
    assert_eq!((vk, name.as_str()), (0x22, "page down"));
    assert!(key_code_to_virtual_key(Key::F(13)).is_none());
    assert!(key_code_to_virtual_key(Key::Char('!')).is_none());
    assert!(key_code_to_virtual_key(Key::Esc).is_none());
    let (vk, name) = mouse_button_to_virtual_key(MouseButton::Middle);
    assert_eq!((vk, name.as_str()), (0x04, "middle mouse button"));
}

#[test]
fn main_menu_asks_for_a_port_before_starting() {
    let mut settings = InterceptorSettings::with_update_status(UpdateStatus::UpToDate);
    let mut selected = 0;
    let mut view = MenuView::Main;
    let mut notice = None;
    let outcome = handle_main_key(Key::Enter, &mut selected, &mut view, &mut settings, &mut notice, 42);
    assert_eq!(outcome, MainOutcome::Stay);
    assert_eq!(view, MenuView::Settings);
    let shown = notice.as_ref().unwrap();
    assert_eq!(shown.message, "set a port before starting interceptor");
    assert_eq!(shown.tone, NoticeTone::Warning);
    assert_eq!(shown.shown_at_ms, 42);
    settings.traffic_rule.port = Some(5000);
    let mut view = MenuView::Main;
    assert_eq!(
        handle_main_key(Key::Char('1'), &mut selected, &mut view, &mut settings, &mut notice, 50),
        MainOutcome::Start
    );
    assert_eq!(
        handle_main_key(Key::Down, &mut selected, &mut view, &mut settings, &mut notice, 50),
        MainOutcome::Stay
    );
    assert_eq!(selected, 1);
    assert_eq!(
        handle_main_key(Key::Char('3'), &mut selected, &mut view, &mut settings, &mut notice, 50),
        MainOutcome::Exit
    );
    assert_eq!(
        handle_main_key(Key::Esc, &mut selected, &mut view, &mut settings, &mut notice, 50),
        MainOutcome::Exit
    );
}

#[test]
fn an_offered_update_can_be_opened_or_skipped() {
    let mut settings = InterceptorSettings::with_update_status(UpdateStatus::Available {
        version: "2.0.0".to_string(),
        url: "u".to_string(),
    });
    let mut selected = 0;
    let mut view = MenuView::Main;
    let mut notice = None;
    assert_eq!(
        handle_main_key(Key::Enter, &mut selected, &mut view, &mut settings, &mut notice, 0),
        MainOutcome::OpenUpdatePage
    );
    assert_eq!(
        handle_main_key(Key::Down, &mut selected, &mut view, &mut settings, &mut notice, 0),
        MainOutcome::Stay
    );
    assert_eq!(
        handle_main_key(Key::Down, &mut selected, &mut view, &mut settings, &mut notice, 0),
        MainOutcome::Stay
    );
    assert_eq!(selected, 1);
    assert_eq!(
        handle_main_key(Key::Enter, &mut selected, &mut view, &mut settings, &mut notice, 0),
        MainOutcome::Stay
    );
    assert_eq!(selected, 0);
    assert!(matches!(settings.update_status, UpdateStatus::Skipped { ref version, .. } if version == "2.0.0"));
}

struct Menu {
    selected: usize,
    mode: SettingsMode,
    view: MenuView,
    input: String,
    settings: InterceptorSettings,
    problem: Option<String>,
    notice: Option<Notice>,
}

impl Menu {
    fn new() -> Self {
        Menu {
            selected: 0,
            mode: SettingsMode::Easy,
            view: MenuView::Settings,
            input: String::new(),
            settings: InterceptorSettings::default(),
            problem: None,
            notice: None,
        }
    }

    fn key(&mut self, code: Key) -> SettingEffect {
        handle_settings_key(
            code,
            &mut self.selected,
            &mut self.mode,
            &mut self.view,
            &mut self.input,
            &mut self.settings,
            &mut self.problem,
            &mut self.notice,
        )
    }
}

#[test]
fn settings_keys_act_on_entries() {
    let mut menu = Menu::new();
    assert_eq!(menu.key(Key::Char('2')), SettingEffect::Nothing);
    assert!(matches!(menu.settings.traffic_rule.protocol, TrafficKind::Udp));
    assert_eq!(menu.key(Key::Char('5')), SettingEffect::SetAlwaysOnTop(true));
    finish_always_on_top(&mut menu.settings, true, true);
    assert!(menu.settings.always_on_top);
    assert_eq!(menu.key(Key::Char('6')), SettingEffect::Nothing);
    assert_eq!(menu.mode, SettingsMode::Advanced);
    assert_eq!(menu.selected, 0);
    assert_eq!(menu.key(Key::Char('6')), SettingEffect::Nothing);
    assert!(matches!(menu.settings.hold_window, HoldWindow::Custom { .. }));
    assert_eq!(menu.key(Key::Char('3')), SettingEffect::Nothing);
    assert_eq!(menu.view, MenuView::CapturePort);
    menu.view = MenuView::Settings;
    assert_eq!(menu.key(Key::Char('4')), SettingEffect::Nothing);
    assert_eq!(menu.view, MenuView::CaptureKeybind);
    menu.view = MenuView::Settings;
    menu.selected = 11;
    assert_eq!(menu.key(Key::Enter), SettingEffect::SaveRestoredDefaults);
    assert!(matches!(menu.settings.hold_window, HoldWindow::StockRandomized));
    assert_eq!(menu.selected, 10);
    assert_eq!(menu.key(Key::Char('q')), SettingEffect::Nothing);
    assert_eq!(menu.view, MenuView::Main);
}

#[test]
fn saving_and_restoring_report_back() {
    let mut notice = None;
    finish_save(Ok(()), &mut notice, 7);
    assert_eq!(notice.as_ref().unwrap().message, "settings saved for next launch");
    finish_save(Err("disk full".to_string()), &mut notice, 8);
    assert_eq!(notice.as_ref().unwrap().message, "disk full");
    assert_eq!(notice.as_ref().unwrap().tone, NoticeTone::Problem);
    finish_restore(Err("disk full".to_string()), &mut notice, 9);
    assert_eq!(notice.as_ref().unwrap().message, "defaults restored, but disk full");
    finish_restore(Ok(()), &mut notice, 10);
    assert_eq!(notice.as_ref().unwrap().message, "defaults restored and saved");
    expire_notice(&mut notice, 3009);
    assert!(notice.is_some());
    expire_notice(&mut notice, 3010);
    assert!(notice.is_none());
}

#[test]
fn number_entries_take_digits_and_check_them() {
    let mut settings = InterceptorSettings::default();
    let mut input = String::new();
    let mut view = MenuView::CapturePort;
    let mut problem = None;
    for ch in ['1', 'x', '2', '3', '4', '5', '6'] {
        handle_port_input(Key::Char(ch), &mut input, &mut settings, &mut view, &mut problem);
    }
    assert_eq!(input, "12345");
    handle_port_input(Key::Backspace, &mut input, &mut settings, &mut view, &mut problem);
    assert_eq!(input, "1234");
    handle_port_input(Key::Enter, &mut input, &mut settings, &mut view, &mut problem);
    assert_eq!(settings.traffic_rule.port, Some(1234));
    assert_eq!(view, MenuView::Settings);
    assert_eq!(input, "");

    let mut view = MenuView::CaptureCustomMin;
    for ch in ['5', '0'] {
        handle_hold_input(Key::Char(ch), &mut input, &mut settings, true, &mut view, &mut problem);
    }
    handle_hold_input(Key::Enter, &mut input, &mut settings, true, &mut view, &mut problem);
    assert_eq!(problem.as_deref(), Some(SettingsError::HoldOutsideLimits.message()));
    assert_eq!(view, MenuView::CaptureCustomMin);
    assert_eq!(input, "50");
    handle_hold_input(Key::Esc, &mut input, &mut settings, true, &mut view, &mut problem);
    assert_eq!(view, MenuView::Settings);
    assert_eq!(input, "");
    assert!(problem.is_none());

    let mut view = MenuView::CaptureReleaseBatch;
    for ch in ['1', '2', '3', '4'] {
        handle_release_input(Key::Char(ch), &mut input, &mut settings, true, &mut view, &mut problem);
    }
    assert_eq!(input, "123");
    handle_release_input(Key::Enter, &mut input, &mut settings, true, &mut view, &mut problem);
    assert!(matches!(
        settings.release_pacing,
        ReleasePacing::Custom { packets_per_batch: 123, pause_ms: 4 }
    ));
    let mut view = MenuView::CaptureReleaseDelay;
    handle_release_input(Key::Enter, &mut input, &mut settings, false, &mut view, &mut problem);
    assert_eq!(problem.as_deref(), Some("enter a delay in milliseconds"));
}

#[test]
fn a_new_trigger_is_captured() {
    let mut settings = InterceptorSettings::default();
    let mut view = MenuView::CaptureKeybind;
    let mut problem = Some("old".to_string());
    handle_keybind_key(Key::Other, &mut settings, &mut view, &mut problem);
    assert_eq!(view, MenuView::CaptureKeybind);
    handle_keybind_key(Key::Char(' '), &mut settings, &mut view, &mut problem);
    assert_eq!(settings.trigger_key, 0x20);
    assert_eq!(settings.trigger_name, "space");
    assert_eq!(view, MenuView::Settings);
    assert!(problem.is_none());
    let mut view = MenuView::CaptureKeybind;
    handle_keybind_mouse(MouseButton::Right, &mut settings, &mut view, &mut problem);
    assert_eq!(settings.trigger_key, 0x02);
    assert_eq!(settings.trigger_name, "right mouse button");
    let mut view = MenuView::CaptureKeybind;
    handle_keybind_key(Key::Esc, &mut settings, &mut view, &mut problem);
    assert_eq!(view, MenuView::Settings);
    assert_eq!(settings.trigger_key, 0x02);
}

#[test]
fn traffic_activity_keeps_the_latest_samples() {
    let mut activity = TrafficActivity::new();
    assert_eq!(activity.matched.len(), 40);
    activity.sample(1000, Some((5, 3, 0)));
    assert_eq!(TrafficActivity::last(&activity.matched), 5);
    assert_eq!(TrafficActivity::last(&activity.queued), 3);
    activity.sample(1050, Some((9, 9, 9)));
    assert_eq!(TrafficActivity::last(&activity.matched), 5);
    activity.sample(1100, None);
    assert_eq!(TrafficActivity::last(&activity.matched), 0);
    activity.sample(1200, Some((2, 3, 4)));
    assert_eq!(TrafficActivity::last(&activity.matched), 0);
    assert_eq!(TrafficActivity::last(&activity.released), 4);
    assert_eq!(activity.matched.len(), 40);
    let mut history = std::collections::VecDeque::new();
    TrafficActivity::push_sample(&mut history, 1);
    assert_eq!(history.len(), 1);
    assert_eq!(TrafficActivity::last(&std::collections::VecDeque::new()), 0);
}

#[test]
fn panels_are_centered() {
    let area = Rect { x: 0, y: 0, width: 100, height: 40 };
    let r = centered_rect_with_min(92, 90, 24, area);
    assert_eq!(r, Rect { x: 4, y: 2, width: 92, height: 36 });
    let small = Rect { x: 0, y: 0, width: 30, height: 10 };
    assert_eq!(centered_rect_with_min(92, 90, 24, small), Rect { x: 0, y: 0, width: 30, height: 10 });
    let (panel, footer) = app_panel_layout(area);
    assert_eq!(panel, Rect { x: 4, y: 2, width: 92, height: 36 });
    assert_eq!(footer, Rect { x: 4, y: 38, width: 92, height: 1 });
    let (panel, footer) = app_panel_layout(small);
    assert_eq!(panel, Rect { x: 0, y: 0, width: 30, height: 10 });
    assert_eq!(footer, Rect { x: 0, y: 9, width: 30, height: 1 });
    assert_eq!(area.bottom(), 40);
}

#[test]
fn relaunch_arguments_are_quoted_when_needed() {
    assert_eq!(quote_arg("plain"), "plain");
    assert_eq!(quote_arg("two words"), "\"two words\"");
    assert_eq!(quote_arg("say \"hi\""), "\"say \\\"hi\\\"\"");
    assert_eq!(quote_arg(""), "");
    assert_eq!(SettingsMode::Easy.label(), "ez mode");
}

#[test]
fn every_shown_hotkey_selects_its_own_row() {
    let mut settings = InterceptorSettings::default();
    settings.change_custom_minimum("500").unwrap();
    settings.change_custom_batch_size("10").unwrap();
    for mode in [SettingsMode::Easy, SettingsMode::Advanced] {
        let actions = settings_actions(mode, &settings);
        for (index, (_, action)) in actions.iter().enumerate() {
            if matches!(action, SettingAction::Divider | SettingAction::Back) {
                continue;
            }
            let hotkey = setting_hotkey(index, *action, &actions);
            let c = hotkey.chars().next().unwrap();
            assert_eq!(hotkey.chars().count(), 1);
            assert_eq!(settings_shortcut_index(Key::Char(c), &actions), Some(index));
            assert_eq!(
                settings_shortcut_index(Key::Char(c.to_ascii_lowercase()), &actions),
                Some(index)
            );
        }
        assert_eq!(settings_shortcut_index(Key::Char('z'), &actions), None);
    }
}

#[test]
fn main_menu_entries_follow_the_update_offer() {
    assert_eq!(
        main_menu_labels(&UpdateStatus::UpToDate),
        vec!["start interceptor", "settings", "exit"]
    );
    let offer = UpdateStatus::Available {
        version: "0.2.0".to_string(),
        url: "https://example.invalid/r".to_string(),
    };
    assert_eq!(main_menu_labels(&offer), vec!["update now", "skip update"]);
}

#[test]
fn each_screen_has_its_key_help() {
    assert_eq!(help_text(MenuView::Main), "up/down: move  enter: select  esc: exit");
    assert_eq!(
        help_text(MenuView::CapturePort),
        "type port number  enter: save  esc: cancel"
    );
    assert_eq!(
        help_text(MenuView::CaptureCustomMax),
        "type milliseconds  enter: save  esc: cancel"
    );
}

#[test]
fn cloned_settings_keep_every_field() {
    let mut settings = InterceptorSettings::default();
    settings.change_custom_minimum("700").unwrap();
    settings.update_status = UpdateStatus::Failed("offline".to_string());
    let copy = settings.clone();
    assert_eq!(copy.saved_values(), settings.saved_values());
    assert!(matches!(copy.update_status, UpdateStatus::Failed(ref m) if m == "offline"));
}
