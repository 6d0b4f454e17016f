//! The decisions of the terminal menu and the dashboard: what each key does to
//! the selection, the view and the settings, and what is listed where.
use vstd::prelude::*;

use crate::config::{
    batch_from_text, delay_from_text, factory_model, hold_from_text, hold_switched, kind_after,
    kind_menu_name, pacing_option_name, pacing_switched, port_from_text, port_text,
    settings_error_text, window_option_name, with_custom_batch, with_custom_delay,
    with_custom_maximum, with_custom_minimum, HoldWindow, InterceptorSettings, ReleasePacing,
    SettingsModel, TrafficRule,
};
use crate::text::{
    decimal, is_ascii_letter, is_digit, lower_char, pop_char, push_char, push_decimal, to_lower,
    to_upper, upper_char,
};
use crate::updater::{update_available, StatusView, UpdateStatus};
use vstd::utf8::encode_utf8;

verus! {

/// A key as the menu sees it.
#[derive(Clone, Copy, Debug, PartialEq, Eq, Structural)]
pub enum Key {
    Char(char),
    Enter,
    Esc,
    Backspace,
    Tab,
    Left,
    Right,
    Up,
    Down,
    Home,
    End,
    PageUp,
    PageDown,
    Delete,
    Insert,
    F(u8),
    Other,
}

/// A key event: the key, whether Control was held, and whether it is a press
/// (rather than a release or a repeat).
#[derive(Clone, Copy, Debug)]
pub struct KeyEvent {
    pub code: Key,
    pub control: bool,
    pub is_press: bool,
}

impl KeyEvent {
    /// A key press.
    pub fn new(code: Key, control: bool) -> (r: Self)
        ensures
            r.code == code,
            r.control == control,
            r.is_press,
    {
        KeyEvent { code, control, is_press: true }
    }
}

/// A mouse button that can serve as trigger.
#[derive(Clone, Copy, Debug, PartialEq, Eq, Structural)]
pub enum MouseButton {
    Left,
    Right,
    Middle,
}

/// What the menu ends with: a capture with these settings, or leaving.
pub enum MenuAction {
    Start(InterceptorSettings),
    Exit,
}

/// What the dashboard ends with.
#[derive(Clone, Copy, Debug, PartialEq, Eq, Structural)]
pub enum DashboardAction {
    BackToMenu,
    ForceExit,
}

/// What a key does on the dashboard: Ctrl+C force-exits, `q` or Esc goes
/// back to the menu, anything else (and any non-press) does nothing.
pub open spec fn dashboard_key_action(key: KeyEvent) -> Option<DashboardAction> {
    if !key.is_press {
        None
    } else if (key.code == Key::Char('c') || key.code == Key::Char('C')) && key.control {
        Some(DashboardAction::ForceExit)
    } else if key.code == Key::Esc || key.code == Key::Char('q') {
        Some(DashboardAction::BackToMenu)
    } else {
        None
    }
}

pub fn dashboard_action_for_key(key: KeyEvent) -> (r: Option<DashboardAction>)
    ensures
        r == dashboard_key_action(key),
{
    if !key.is_press {
        return None;
    }
    if (key.code == Key::Char('c') || key.code == Key::Char('C')) && key.control {
        return Some(DashboardAction::ForceExit);
    }
    if key.code == Key::Esc || key.code == Key::Char('q') {
        return Some(DashboardAction::BackToMenu);
    }
    None
}

/// The Windows virtual-key code and name a key is bound as, if it can serve
/// as trigger.
pub open spec fn key_binding(code: Key) -> Option<(i32, Seq<char>)> {
    match code {
        Key::Char(ch) => if is_ascii_letter(ch) {
            Some((upper_char(ch) as int as i32, seq![upper_char(ch)]))
        } else if is_digit(ch) {
            Some((ch as int as i32, seq![ch]))
        } else if ch == ' ' {
            Some((0x20, "space"@))
        } else {
            None
        },
        Key::Enter => Some((0x0D, "enter"@)),
        Key::Tab => Some((0x09, "tab"@)),
        Key::Backspace => Some((0x08, "backspace"@)),
        Key::Left => Some((0x25, "left arrow"@)),
        Key::Up => Some((0x26, "up arrow"@)),
        Key::Right => Some((0x27, "right arrow"@)),
        Key::Down => Some((0x28, "down arrow"@)),
        Key::Home => Some((0x24, "home"@)),
        Key::End => Some((0x23, "end"@)),
        Key::PageUp => Some((0x21, "page up"@)),
        Key::PageDown => Some((0x22, "page down"@)),
        Key::Delete => Some((0x2E, "delete"@)),
        Key::Insert => Some((0x2D, "insert"@)),
        Key::F(n) => if 1 <= n <= 12 {
            Some(((0x70 + n - 1) as i32, "f"@ + decimal(n as nat)))
        } else {
            None
        },
        _ => None,
    }
}

fn named(vk: i32, name: &str) -> (r: Option<(i32, String)>)
    ensures
        r matches Some(b) && b.0 == vk && b.1@ == name@,
{
    Some((vk, String::from_str(name)))
}

pub fn key_code_to_virtual_key(code: Key) -> (r: Option<(i32, String)>)
    ensures
        match key_binding(code) {
            Some(b) => r matches Some(x) && x.0 == b.0 && x.1@ == b.1,
            None => r is None,
        },
{
    match code {
        Key::Char(ch) => {
            if ('a' <= ch && ch <= 'z') || ('A' <= ch && ch <= 'Z') {
                let upper = to_upper(ch);
                let mut label = String::new();
                push_char(&mut label, upper);
                assert(label@ =~= seq![upper]);
                Some((upper as u32 as i32, label))
            } else if '0' <= ch && ch <= '9' {
                let mut label = String::new();
                push_char(&mut label, ch);
                assert(label@ =~= seq![ch]);
                Some((ch as u32 as i32, label))
            } else if ch == ' ' {
                named(0x20, "space")
            } else {
                None
            }
        },
        Key::Enter => named(0x0D, "enter"),
        Key::Tab => named(0x09, "tab"),
        Key::Backspace => named(0x08, "backspace"),
        Key::Left => named(0x25, "left arrow"),
        Key::Up => named(0x26, "up arrow"),
        Key::Right => named(0x27, "right arrow"),
        Key::Down => named(0x28, "down arrow"),
        Key::Home => named(0x24, "home"),
        Key::End => named(0x23, "end"),
        Key::PageUp => named(0x21, "page up"),
        Key::PageDown => named(0x22, "page down"),
        Key::Delete => named(0x2E, "delete"),
        Key::Insert => named(0x2D, "insert"),
        Key::F(n) => {
            if 1 <= n && n <= 12 {
                let mut label = String::from_str("f");
                push_decimal(&mut label, n as u64);
                Some((0x70 + n as i32 - 1, label))
            } else {
                None
            }
        },
        _ => None,
    }
}

/// The virtual-key code and name of a mouse button.
pub open spec fn mouse_binding(button: MouseButton) -> (i32, Seq<char>) {
    match button {
        MouseButton::Left => (0x01, "left mouse button"@),
        MouseButton::Right => (0x02, "right mouse button"@),
        MouseButton::Middle => (0x04, "middle mouse button"@),
    }
}

pub fn mouse_button_to_virtual_key(button: MouseButton) -> (r: (i32, String))
    ensures
        r.0 == mouse_binding(button).0,
        r.1@ == mouse_binding(button).1,
{
    match button {
        MouseButton::Left => (0x01, String::from_str("left mouse button")),
        MouseButton::Right => (0x02, String::from_str("right mouse button")),
        MouseButton::Middle => (0x04, String::from_str("middle mouse button")),
    }
}

/// Windows virtual-key codes of the keys and buttons that can serve as
/// trigger, as the Windows API defines them.
pub const VK_LBUTTON: i32 = 0x01;
pub const VK_RBUTTON: i32 = 0x02;
pub const VK_MBUTTON: i32 = 0x04;
pub const VK_BACK: i32 = 0x08;
pub const VK_TAB: i32 = 0x09;
pub const VK_RETURN: i32 = 0x0D;
pub const VK_SPACE: i32 = 0x20;
pub const VK_PRIOR: i32 = 0x21;
pub const VK_NEXT: i32 = 0x22;
pub const VK_END: i32 = 0x23;
pub const VK_HOME: i32 = 0x24;
pub const VK_LEFT: i32 = 0x25;
pub const VK_UP: i32 = 0x26;
pub const VK_RIGHT: i32 = 0x27;
pub const VK_DOWN: i32 = 0x28;
pub const VK_INSERT: i32 = 0x2D;
pub const VK_DELETE: i32 = 0x2E;
pub const VK_F1: i32 = 0x70;

/// Each key and mouse button that can serve as trigger binds to its own
/// Windows virtual-key code, under its own name: a letter to the code of its
/// upper-case form, a digit to its own code, F1 to F12 to the codes from
/// `VK_F1` on, and each named key and button to its Windows constant.
/// Distinct keys (a letter in either case counting as one) bind distinct
/// codes.
pub proof fn law_triggers_bind_their_virtual_keys(c: char, d: char, n: u8, k1: Key, k2: Key)
    ensures
        is_ascii_letter(c) ==> key_binding(Key::Char(c)) == Some(
            (upper_char(c) as int as i32, seq![upper_char(c)]),
        ) && 'A' <= upper_char(c) <= 'Z',
        is_digit(d) ==> key_binding(Key::Char(d)) == Some((d as int as i32, seq![d])),
        1 <= n <= 12 ==> key_binding(Key::F(n)) == Some(
            ((VK_F1 + n - 1) as i32, "f"@ + decimal(n as nat)),
        ),
        key_binding(Key::Char(' ')) == Some((VK_SPACE, "space"@)),
        key_binding(Key::Enter) == Some((VK_RETURN, "enter"@)),
        key_binding(Key::Tab) == Some((VK_TAB, "tab"@)),
        key_binding(Key::Backspace) == Some((VK_BACK, "backspace"@)),
        key_binding(Key::Left) == Some((VK_LEFT, "left arrow"@)),
        key_binding(Key::Up) == Some((VK_UP, "up arrow"@)),
        key_binding(Key::Right) == Some((VK_RIGHT, "right arrow"@)),
        key_binding(Key::Down) == Some((VK_DOWN, "down arrow"@)),
        key_binding(Key::Home) == Some((VK_HOME, "home"@)),
        key_binding(Key::End) == Some((VK_END, "end"@)),
        key_binding(Key::PageUp) == Some((VK_PRIOR, "page up"@)),
        key_binding(Key::PageDown) == Some((VK_NEXT, "page down"@)),
        key_binding(Key::Delete) == Some((VK_DELETE, "delete"@)),
        key_binding(Key::Insert) == Some((VK_INSERT, "insert"@)),
        key_binding(Key::Esc) is None,
        mouse_binding(MouseButton::Left) == (VK_LBUTTON, "left mouse button"@),
        mouse_binding(MouseButton::Right) == (VK_RBUTTON, "right mouse button"@),
        mouse_binding(MouseButton::Middle) == (VK_MBUTTON, "middle mouse button"@),
        key_binding(k1) is Some && key_binding(k2) is Some && key_binding(k1)->Some_0.0
            == key_binding(k2)->Some_0.0 ==> k1 == k2 || (k1 matches Key::Char(a) && k2 matches Key::Char(b) && upper_char(a) == upper_char(b)),
{
}

/// How much of the settings menu is shown.
#[derive(Clone, Copy, Debug, PartialEq, Eq, Structural)]
pub enum SettingsMode {
    Easy,
    Advanced,
}

impl SettingsMode {
    pub fn label(self) -> (r: &'static str)
        ensures
            r@ == (match self {
                SettingsMode::Easy => "ez mode"@,
                SettingsMode::Advanced => "advanced mode"@,
            }),
    {
        match self {
            SettingsMode::Easy => "ez mode",
            SettingsMode::Advanced => "advanced mode",
        }
    }
}

/// An entry of the settings menu.
#[derive(Clone, Copy, Debug, PartialEq, Eq, Structural)]
pub enum SettingAction {
    Protocol,
    Port,
    Trigger,
    AlwaysOnTop,
    HoldWindow,
    CustomHoldMin,
    CustomHoldMax,
    ReleasePacing,
    CustomBatch,
    CustomDelay,
    SwitchMode,
    Divider,
    Save,
    RestoreDefaults,
    Back,
}

/// The entries of the settings menu, top to bottom. The advanced mode adds
/// the hold window and release pacing, and their custom values when custom
/// ones are chosen.
pub open spec fn action_kinds(mode: SettingsMode, m: SettingsModel) -> Seq<SettingAction> {
    let common = seq![
        SettingAction::Protocol,
        SettingAction::Port,
        SettingAction::Trigger,
        SettingAction::AlwaysOnTop,
    ];
    let middle = if mode == SettingsMode::Advanced {
        seq![SettingAction::HoldWindow] + (if m.hold_window is Custom {
            seq![SettingAction::CustomHoldMin, SettingAction::CustomHoldMax]
        } else {
            Seq::empty()
        }) + seq![SettingAction::ReleasePacing] + (if m.release_pacing is Custom {
            seq![SettingAction::CustomBatch, SettingAction::CustomDelay]
        } else {
            Seq::empty()
        }) + seq![SettingAction::SwitchMode]
    } else {
        seq![SettingAction::SwitchMode]
    };
    common + middle + seq![
        SettingAction::Divider,
        SettingAction::Save,
        SettingAction::RestoreDefaults,
        SettingAction::Back,
    ]
}

/// The label of a settings entry.
pub open spec fn action_label(action: SettingAction, mode: SettingsMode, m: SettingsModel) -> Seq<char> {
    match action {
        SettingAction::Protocol => "protocol: "@ + kind_menu_name(m.traffic_rule.protocol),
        SettingAction::Port => "port: "@ + port_text(m.traffic_rule.port),
        SettingAction::Trigger => "change trigger: "@ + m.trigger_name,
        SettingAction::AlwaysOnTop => "always on top: "@ + (if m.always_on_top {
            "on"@
        } else {
            "off"@
        }),
        SettingAction::HoldWindow => "hold window: "@ + window_option_name(m.hold_window),
        SettingAction::CustomHoldMin => "custom hold minimum: "@ + decimal(m.custom_hold.0 as nat)
            + "ms"@,
        SettingAction::CustomHoldMax => "custom hold maximum: "@ + decimal(m.custom_hold.1 as nat)
            + "ms"@,
        SettingAction::ReleasePacing => "release pacing: "@ + pacing_option_name(m.release_pacing),
        SettingAction::CustomBatch => "custom batch size: "@ + decimal(m.custom_release.0 as nat)
            + " packets"@,
        SettingAction::CustomDelay => "custom batch delay: "@ + decimal(m.custom_release.1 as nat)
            + "ms"@,
        SettingAction::SwitchMode => if mode == SettingsMode::Advanced {
            "ez mode"@
        } else {
            "advanced mode"@
        },
        SettingAction::Divider => Seq::empty(),
        SettingAction::Save => "save settings"@,
        SettingAction::RestoreDefaults => "restore defaults"@,
        SettingAction::Back => "back"@,
    }
}

/// The kinds of a list of labelled entries.
pub open spec fn kinds_of(actions: Seq<(String, SettingAction)>) -> Seq<SettingAction> {
    actions.map_values(|a: (String, SettingAction)| a.1)
}

fn action_entry(action: SettingAction, settings: &InterceptorSettings, mode: SettingsMode) -> (r: (
    String,
    SettingAction,
))
    ensures
        r.1 == action,
        r.0@ == action_label(action, mode, settings.model()),
{
    let label = match action {
        SettingAction::Protocol => String::from_str("protocol: ").concat(
            settings.traffic_rule.protocol.menu_name(),
        ),
        SettingAction::Port => {
            let port = settings.traffic_rule.port_name();
            String::from_str("port: ").concat(port.as_str())
        },
        SettingAction::Trigger => String::from_str("change trigger: ").concat(
            settings.trigger_name.as_str(),
        ),
        SettingAction::AlwaysOnTop => String::from_str("always on top: ").concat(
            settings.always_on_top_name(),
        ),
        SettingAction::HoldWindow => String::from_str("hold window: ").concat(
            settings.hold_window.option_name(),
        ),
        SettingAction::CustomHoldMin => {
            let mut r = String::from_str("custom hold minimum: ");
            push_decimal(&mut r, settings.custom_min_ms());
            r.append("ms");
            r
        },
        SettingAction::CustomHoldMax => {
            let mut r = String::from_str("custom hold maximum: ");
            push_decimal(&mut r, settings.custom_max_ms());
            r.append("ms");
            r
        },
        SettingAction::ReleasePacing => String::from_str("release pacing: ").concat(
            settings.release_pacing.option_name(),
        ),
        SettingAction::CustomBatch => {
            let mut r = String::from_str("custom batch size: ");
            push_decimal(&mut r, settings.custom_batch_size() as u64);
            r.append(" packets");
            r
        },
        SettingAction::CustomDelay => {
            let mut r = String::from_str("custom batch delay: ");
            push_decimal(&mut r, settings.custom_release_delay_ms());
            r.append("ms");
            r
        },
        SettingAction::SwitchMode => String::from_str(
            if mode == SettingsMode::Advanced {
                "ez mode"
            } else {
                "advanced mode"
            },
        ),
        SettingAction::Divider => String::new(),
        SettingAction::Save => String::from_str("save settings"),
        SettingAction::RestoreDefaults => String::from_str("restore defaults"),
        SettingAction::Back => String::from_str("back"),
    };
    (label, action)
}

/// The labelled entries of the settings menu.
pub fn settings_actions(mode: SettingsMode, settings: &InterceptorSettings) -> (r: Vec<
    (String, SettingAction),
>)
    ensures
        kinds_of(r@) == action_kinds(mode, settings.model()),
        forall|i: int|
            0 <= i < r@.len() ==> (#[trigger] r@[i]).0@ == action_label(
                r@[i].1,
                mode,
                settings.model(),
            ),
{
    let ghost m = settings.model();
    let mut kinds: Vec<SettingAction> = vec![
        SettingAction::Protocol,
        SettingAction::Port,
        SettingAction::Trigger,
        SettingAction::AlwaysOnTop,
    ];
    if mode == SettingsMode::Advanced {
        kinds.push(SettingAction::HoldWindow);
        if matches!(settings.hold_window, HoldWindow::Custom { .. }) {
            kinds.push(SettingAction::CustomHoldMin);
            kinds.push(SettingAction::CustomHoldMax);
        }
        kinds.push(SettingAction::ReleasePacing);
        if matches!(settings.release_pacing, ReleasePacing::Custom { .. }) {
            kinds.push(SettingAction::CustomBatch);
            kinds.push(SettingAction::CustomDelay);
        }
        kinds.push(SettingAction::SwitchMode);
    } else {
        kinds.push(SettingAction::SwitchMode);
    }
    kinds.push(SettingAction::Divider);
    kinds.push(SettingAction::Save);
    kinds.push(SettingAction::RestoreDefaults);
    kinds.push(SettingAction::Back);
    assert(kinds@ =~= action_kinds(mode, m));
    let mut actions: Vec<(String, SettingAction)> = Vec::new();
    let mut i: usize = 0;
    while i < kinds.len()
        invariant
            i <= kinds.len(),
            m == settings.model(),
            actions@.len() == i,
            forall|j: int| 0 <= j < i ==> (#[trigger] actions@[j]).1 == kinds@[j],
            forall|j: int|
                0 <= j < i ==> (#[trigger] actions@[j]).0@ == action_label(actions@[j].1, mode, m),
        decreases kinds.len() - i,
    {
        actions.push(action_entry(kinds[i], settings, mode));
        i = i + 1;
    }
    assert(kinds_of(actions@) =~= kinds@);
    actions
}


/// Whether an entry gets a number or letter shortcut: all but the divider and
/// `back`.
pub open spec fn has_shortcut(action: SettingAction) -> bool {
    action != SettingAction::Divider && action != SettingAction::Back
}

/// The number of entries with a shortcut in `kinds`.
pub open spec fn shortcut_count(kinds: Seq<SettingAction>) -> nat
    decreases kinds.len(),
{
    if kinds.len() == 0 {
        0
    } else {
        shortcut_count(kinds.drop_last()) + if has_shortcut(kinds.last()) {
            1nat
        } else {
            0nat
        }
    }
}

/// Counting shortcuts never goes down as entries are added.
proof fn lemma_shortcut_count_grows(kinds: Seq<SettingAction>, i: int, j: int)
    requires
        0 <= i <= j <= kinds.len(),
    ensures
        shortcut_count(kinds.take(i)) <= shortcut_count(kinds.take(j)),
        i < j && has_shortcut(kinds[i]) ==> shortcut_count(kinds.take(i)) < shortcut_count(
            kinds.take(j),
        ),
    decreases j - i,
{
    if i < j {
        lemma_shortcut_count_grows(kinds, i, j - 1);
        assert(kinds.take(j).drop_last() =~= kinds.take(j - 1));
        if i == j - 1 {
            assert(kinds.take(j).last() == kinds[i]);
        }
    }
}

/// Which shortcut a key stands for: `2`-`9` the first eight, `0` the ninth,
/// and letters the ones after.
pub open spec fn key_rank(code: Key) -> Option<nat> {
    match code {
        Key::Char(c) => if '2' <= c && c <= '9' {
            Some((c as int - '2' as int) as nat)
        } else if c == '0' {
            Some(8)
        } else if is_ascii_letter(c) {
            Some((9 + lower_char(c) as int - 'a' as int) as nat)
        } else {
            None
        },
        _ => None,
    }
}

/// The position of the entry that `code` is the shortcut of, if any.
pub fn settings_shortcut_index(code: Key, actions: &Vec<(String, SettingAction)>) -> (r: Option<
    usize,
>)
    ensures
        match key_rank(code) {
            None => r is None,
            Some(rank) => match r {
                Some(i) => i < actions@.len() && has_shortcut(kinds_of(actions@)[i as int])
                    && shortcut_count(kinds_of(actions@).take(i as int)) == rank,
                None => shortcut_count(kinds_of(actions@)) <= rank,
            },
        },
{
    let rank: usize = match code {
        Key::Char(c) => {
            if '2' <= c && c <= '9' {
                (c as u32 - '2' as u32) as usize
            } else if c == '0' {
                8
            } else if ('a' <= c && c <= 'z') || ('A' <= c && c <= 'Z') {
                let lower = to_lower(c);
                9 + (lower as u32 - 'a' as u32) as usize
            } else {
                return None;
            }
        },
        _ => {
            return None;
        },
    };
    let ghost kinds = kinds_of(actions@);
    let mut seen: usize = 0;
    let mut i: usize = 0;
    while i < actions.len()
        invariant
            kinds == kinds_of(actions@),
            i <= actions.len(),
            seen == shortcut_count(kinds.take(i as int)),
            seen <= rank,
            key_rank(code) == Some(rank as nat),
        decreases actions.len() - i,
    {
        assert(kinds.take(i + 1).drop_last() =~= kinds.take(i as int));
        assert(kinds[i as int] == actions@[i as int].1);
        let action = actions[i].1;
        if action != SettingAction::Divider && action != SettingAction::Back {
            if seen == rank {
                return Some(i);
            }
            seen = seen + 1;
        }
        i = i + 1;
    }
    assert(kinds.take(i as int) =~= kinds);
    None
}

/// Moves the settings selection to the next (or previous) entry that is not
/// the divider; it stays where it is when there is none.
pub fn move_settings_selection(
    selected: &mut usize,
    actions: &Vec<(String, SettingAction)>,
    forward: bool,
)
    requires
        forward ==> *old(selected) < usize::MAX,
        !forward ==> *old(selected) <= actions@.len(),
    ensures
        ({
            let kinds = kinds_of(actions@);
            let s = *old(selected) as int;
            if forward {
                if exists|j: int| s < j < kinds.len() && kinds[j] != SettingAction::Divider {
                    &&& s < *final(selected) < kinds.len()
                    &&& kinds[*final(selected) as int] != SettingAction::Divider
                    &&& forall|k: int|
                        s < k < *final(selected) ==> kinds[k] == SettingAction::Divider
                } else {
                    *final(selected) == s
                }
            } else {
                if exists|j: int| 0 <= j < s && kinds[j] != SettingAction::Divider {
                    &&& *final(selected) < s
                    &&& kinds[*final(selected) as int] != SettingAction::Divider
                    &&& forall|k: int|
                        *final(selected) < k < s ==> kinds[k] == SettingAction::Divider
                } else {
                    *final(selected) == s
                }
            }
        }),
{
    let ghost kinds = kinds_of(actions@);
    let start = *selected;
    if forward {
        let mut j = start + 1;
        while j < actions.len()
            invariant
                kinds == kinds_of(actions@),
                *selected == start,
                start == *old(selected),
                forward,
                start < j,
                forall|k: int| start < k < j && k < kinds.len() ==> kinds[k] == SettingAction::Divider,
            decreases actions.len() - j,
        {
            assert(kinds[j as int] == actions@[j as int].1);
            if actions[j].1 != SettingAction::Divider {
                assert(kinds[j as int] != SettingAction::Divider);
                *selected = j;
                return;
            }
            j = j + 1;
        }
    } else {
        let mut j = start;
        while j > 0
            invariant
                kinds == kinds_of(actions@),
                *selected == start,
                start == *old(selected),
                !forward,
                j <= start <= kinds.len(),
                forall|k: int| j <= k < start ==> kinds[k] == SettingAction::Divider,
            decreases j,
        {
            assert(kinds[j - 1] == actions@[j - 1].1);
            if actions[j - 1].1 != SettingAction::Divider {
                assert(kinds[j - 1] != SettingAction::Divider);
                *selected = j - 1;
                return;
            }
            j = j - 1;
        }
    }
}

/// The shortcut shown for an entry: `1` for `back`, then `2`-`9`, `0`, and
/// letters from `A`.
pub open spec fn hotkey_text(rank: nat, action: SettingAction) -> Seq<char> {
    if action == SettingAction::Back {
        "1"@
    } else if rank <= 7 {
        decimal(rank + 2)
    } else if rank == 8 {
        "0"@
    } else {
        seq![('A' as int + (rank - 9) % 256) as char]
    }
}

pub fn setting_hotkey(index: usize, action: SettingAction, actions: &Vec<(String, SettingAction)>) -> (r:
    String)
    requires
        index <= actions@.len(),
        shortcut_count(kinds_of(actions@).take(index as int)) < 9 || (shortcut_count(
            kinds_of(actions@).take(index as int),
        ) - 9) % 256 <= 190,
    ensures
        r@ == hotkey_text(shortcut_count(kinds_of(actions@).take(index as int)), action),
{
    if action == SettingAction::Back {
        return String::from_str("1");
    }
    let ghost kinds = kinds_of(actions@);
    let mut rank: usize = 0;
    let mut i: usize = 0;
    while i < index
        invariant
            kinds == kinds_of(actions@),
            i <= index <= actions.len(),
            rank == shortcut_count(kinds.take(i as int)),
            rank <= i,
        decreases index - i,
    {
        assert(kinds.take(i + 1).drop_last() =~= kinds.take(i as int));
        assert(kinds[i as int] == actions@[i as int].1);
        let earlier = actions[i].1;
        if earlier != SettingAction::Divider && earlier != SettingAction::Back {
            rank = rank + 1;
        }
        i = i + 1;
    }
    if rank <= 7 {
        let mut r = String::new();
        push_decimal(&mut r, rank as u64 + 2);
        assert(r@ =~= decimal((rank + 2) as nat));
        r
    } else if rank == 8 {
        String::from_str("0")
    } else {
        let offset = ((rank - 9) % 256) as u8;
        let c = (65u8 + offset) as char;
        let mut r = String::new();
        push_char(&mut r, c);
        assert(r@ =~= seq![c]);
        r
    }
}


/// There are never more shortcuts than entries.
proof fn lemma_shortcut_count_at_most_len(kinds: Seq<SettingAction>)
    ensures
        shortcut_count(kinds) <= kinds.len(),
    decreases kinds.len(),
{
    if kinds.len() > 0 {
        lemma_shortcut_count_at_most_len(kinds.drop_last());
    }
}

/// The hotkey shown for a rank below 35 is one character, and that key
/// (also in lower case) stands for the rank.
proof fn lemma_hotkey_key(rank: nat, action: SettingAction)
    requires
        rank < 35,
        action != SettingAction::Back,
    ensures
        hotkey_text(rank, action).len() == 1,
        key_rank(Key::Char(hotkey_text(rank, action)[0])) == Some(rank),
        key_rank(Key::Char(lower_char(hotkey_text(rank, action)[0]))) == Some(rank),
{
    reveal_strlit("0");
    if rank >= 9 {
        let c = ('A' as int + (rank - 9) % 256) as char;
        assert(c as int == 'A' as int + (rank - 9));
        assert(lower_char(c) as int == 'a' as int + (rank - 9));
    }
}

/// In any list of entries, the entries with shortcuts have distinct ranks,
/// each below the number of shortcuts.
proof fn lemma_rank_unique(kinds: Seq<SettingAction>, i: int)
    requires
        0 <= i < kinds.len(),
        has_shortcut(kinds[i]),
    ensures
        shortcut_count(kinds.take(i)) < shortcut_count(kinds),
        shortcut_count(kinds.take(i)) <= i,
        forall|j: int|
            0 <= j < kinds.len() && has_shortcut(kinds[j]) && shortcut_count(kinds.take(j))
                == shortcut_count(kinds.take(i)) ==> j == i,
{
    lemma_shortcut_count_at_most_len(kinds.take(i));
    lemma_shortcut_count_grows(kinds, i, kinds.len() as int);
    assert(kinds.take(kinds.len() as int) =~= kinds);
    assert forall|j: int|
        0 <= j < kinds.len() && has_shortcut(kinds[j]) && shortcut_count(kinds.take(j))
            == shortcut_count(kinds.take(i)) implies j == i by {
        if j < i {
            lemma_shortcut_count_grows(kinds, j, i);
        } else if i < j {
            lemma_shortcut_count_grows(kinds, i, j);
        }
    }
}

/// Every shortcut shown in the settings menu selects its own entry. For an
/// entry with a shortcut, its hotkey is one character; that key (and, for a
/// letter, the same letter in lower case) stands for the entry's rank among
/// the entries with shortcuts; no other entry has that rank; and the rank is
/// below the number of shortcuts, so `settings_shortcut_index` finds this
/// entry for the key.
pub proof fn law_hotkeys_select_their_entry(mode: SettingsMode, m: SettingsModel, i: int)
    requires
        0 <= i < action_kinds(mode, m).len(),
        has_shortcut(action_kinds(mode, m)[i]),
    ensures
        ({
            let kinds = action_kinds(mode, m);
            let rank = shortcut_count(kinds.take(i));
            let text = hotkey_text(rank, kinds[i]);
            &&& text.len() == 1
            &&& key_rank(Key::Char(text[0])) == Some(rank)
            &&& key_rank(Key::Char(lower_char(text[0]))) == Some(rank)
            &&& rank < shortcut_count(kinds)
            &&& forall|j: int|
                0 <= j < kinds.len() && has_shortcut(kinds[j]) && shortcut_count(kinds.take(j))
                    == rank ==> j == i
        }),
{
    let kinds = action_kinds(mode, m);
    assert(kinds.len() <= 15);
    lemma_rank_unique(kinds, i);
    lemma_hotkey_key(shortcut_count(kinds.take(i)), kinds[i]);
}

/// A key ranked at or past the number of shortcuts in the settings menu
/// stands for no entry, so `settings_shortcut_index` finds none for it.
pub proof fn law_keys_past_the_shortcuts_select_nothing(mode: SettingsMode, m: SettingsModel, rank: nat)
    requires
        rank >= shortcut_count(action_kinds(mode, m)),
    ensures
        forall|j: int|
            0 <= j < action_kinds(mode, m).len() && has_shortcut(action_kinds(mode, m)[j])
                ==> shortcut_count(action_kinds(mode, m).take(j)) != rank,
{
    let kinds = action_kinds(mode, m);
    assert forall|j: int| 0 <= j < kinds.len() && has_shortcut(kinds[j]) implies shortcut_count(
        kinds.take(j),
    ) != rank by {
        lemma_rank_unique(kinds, j);
    }
}

/// Which screen of the menu is shown.
#[derive(Clone, Copy, Debug, PartialEq, Eq, Structural)]
pub enum MenuView {
    Main,
    Settings,
    CaptureKeybind,
    CapturePort,
    CaptureCustomMin,
    CaptureCustomMax,
    CaptureReleaseBatch,
    CaptureReleaseDelay,
}

/// How a notice is shown: as good news, a warning or a problem.
#[derive(Clone, Copy, Debug, PartialEq, Eq, Structural)]
pub enum NoticeTone {
    Success,
    Warning,
    Problem,
}

/// A short message under the settings menu, shown from `shown_at_ms` on.
pub struct Notice {
    pub message: String,
    pub tone: NoticeTone,
    pub shown_at_ms: u64,
}

/// How long a notice stays up.
pub const NOTICE_DURATION_MS: u64 = 3000;

/// Whether `notice` shows `text` in `tone` since `at`.
pub open spec fn notice_is(notice: Option<Notice>, text: Seq<char>, tone: NoticeTone, at: u64) -> bool {
    notice matches Some(n) && n.message@ == text && n.tone == tone && n.shown_at_ms == at
}

fn make_notice(text: &str, tone: NoticeTone, now_ms: u64) -> (r: Option<Notice>)
    ensures
        notice_is(r, text@, tone, now_ms),
{
    Some(Notice { message: String::from_str(text), tone, shown_at_ms: now_ms })
}

/// Takes a notice down once it has been up for the notice duration.
pub fn expire_notice(notice: &mut Option<Notice>, now_ms: u64)
    ensures
        match *old(notice) {
            Some(n) => if now_ms >= n.shown_at_ms && now_ms - n.shown_at_ms >= NOTICE_DURATION_MS {
                *final(notice) is None
            } else {
                *final(notice) == *old(notice)
            },
            None => *final(notice) is None,
        },
{
    let expired = match notice {
        Some(n) => now_ms.saturating_sub(n.shown_at_ms) >= NOTICE_DURATION_MS,
        None => false,
    };
    if expired {
        *notice = None;
    }
}

/// What a choice on the main menu leads to.
#[derive(Clone, Copy, Debug, PartialEq, Eq, Structural)]
pub enum MainOutcome {
    Stay,
    Start,
    Exit,
    OpenUpdatePage,
}

/// The number of the last main menu entry: the update offer has two entries,
/// the usual menu three.
pub open spec fn last_main_item(status: StatusView) -> int {
    if status is Available {
        1
    } else {
        2
    }
}

/// The entries of the main menu: updating or skipping an offered update, or
/// starting, the settings and leaving.
pub open spec fn main_menu_entries(status: StatusView) -> Seq<Seq<char>> {
    if status is Available {
        seq!["update now"@, "skip update"@]
    } else {
        seq!["start interceptor"@, "settings"@, "exit"@]
    }
}

pub fn main_menu_labels(status: &UpdateStatus) -> (r: Vec<&'static str>)
    ensures
        r@.len() == main_menu_entries(status@).len(),
        forall|i: int| 0 <= i < r@.len() ==> (#[trigger] r@[i])@ == main_menu_entries(status@)[i],
{
    let mut r: Vec<&'static str> = Vec::new();
    if update_available(status) {
        r.push("update now");
        r.push("skip update");
    } else {
        r.push("start interceptor");
        r.push("settings");
        r.push("exit");
    }
    r
}

/// The key help shown under each screen of the menu.
pub open spec fn help_line(view: MenuView) -> Seq<char> {
    match view {
        MenuView::Main => "up/down: move  enter: select  esc: exit"@,
        MenuView::Settings => "up/down: move  enter: select  1/esc: back"@,
        MenuView::CaptureKeybind => "press a keyboard key or mouse button  esc: cancel"@,
        MenuView::CapturePort => "type port number  enter: save  esc: cancel"@,
        MenuView::CaptureReleaseBatch => "type packets per batch  enter: save  esc: cancel"@,
        _ => "type milliseconds  enter: save  esc: cancel"@,
    }
}

pub fn help_text(view: MenuView) -> (r: &'static str)
    ensures
        r@ == help_line(view),
{
    match view {
        MenuView::Main => "up/down: move  enter: select  esc: exit",
        MenuView::Settings => "up/down: move  enter: select  1/esc: back",
        MenuView::CaptureKeybind => "press a keyboard key or mouse button  esc: cancel",
        MenuView::CapturePort => "type port number  enter: save  esc: cancel",
        MenuView::CaptureReleaseBatch => "type packets per batch  enter: save  esc: cancel",
        _ => "type milliseconds  enter: save  esc: cancel",
    }
}

/// What acting on main menu entry `s` leads to.
pub open spec fn chosen_outcome(s: int, status: StatusView, has_port: bool) -> MainOutcome {
    if status is Available {
        if s == 0 {
            MainOutcome::OpenUpdatePage
        } else {
            MainOutcome::Stay
        }
    } else if s == 0 && has_port {
        MainOutcome::Start
    } else if s == 2 {
        MainOutcome::Exit
    } else {
        MainOutcome::Stay
    }
}

/// The update status after acting on main menu entry `s`: skipping an
/// offered update keeps it as skipped.
pub open spec fn chosen_status(s: int, status: StatusView) -> StatusView {
    match status {
        StatusView::Available { version, url } => if s == 1 {
            StatusView::Skipped { version, url }
        } else {
            status
        },
        _ => status,
    }
}

/// The selection after acting on main menu entry `s`.
pub open spec fn chosen_selection(s: int, status: StatusView) -> int {
    if status is Available && s == 1 {
        0
    } else {
        s
    }
}

/// Whether acting on main menu entry `s` asks for a port first.
pub open spec fn chosen_needs_port(s: int, status: StatusView, has_port: bool) -> bool {
    !(status is Available) && s == 0 && !has_port
}

/// The view after acting on main menu entry `s`.
pub open spec fn chosen_view(s: int, status: StatusView, has_port: bool, view: MenuView) -> MenuView {
    if chosen_needs_port(s, status, has_port) || (!(status is Available) && s == 1) {
        MenuView::Settings
    } else {
        view
    }
}

/// Acting on main menu entry `s`, as `select_main_item` does.
pub open spec fn acted_on_main_item(
    s: int,
    old_view: MenuView,
    old_settings: InterceptorSettings,
    old_notice: Option<Notice>,
    selected: usize,
    view: MenuView,
    settings: InterceptorSettings,
    notice: Option<Notice>,
    r: MainOutcome,
    now_ms: u64,
) -> bool {
    let status = old_settings.update_status@;
    let has_port = old_settings.traffic_rule.port is Some;
    &&& r == chosen_outcome(s, status, has_port)
    &&& selected == chosen_selection(s, status)
    &&& view == chosen_view(s, status, has_port, old_view)
    &&& settings.model() == old_settings.model()
    &&& settings.update_status@ == chosen_status(s, status)
    &&& if chosen_needs_port(s, status, has_port) {
        notice_is(notice, "set a port before starting interceptor"@, NoticeTone::Warning, now_ms)
    } else {
        notice == old_notice
    }
}

/// Each main menu entry does its own job. Without an update on offer, the
/// first entry starts the capture when a port is set and otherwise opens the
/// settings with a warning, the second opens the settings, and the third
/// leaves. With an update on offer, the first entry opens its page and the
/// second skips it, keeping its version and page and moving the selection to
/// the top. No setting changes.
pub proof fn law_main_menu_entries_do_their_job(
    s: int,
    old_view: MenuView,
    old_settings: InterceptorSettings,
    old_notice: Option<Notice>,
    selected: usize,
    view: MenuView,
    settings: InterceptorSettings,
    notice: Option<Notice>,
    r: MainOutcome,
    now_ms: u64,
)
    requires
        acted_on_main_item(
            s,
            old_view,
            old_settings,
            old_notice,
            selected,
            view,
            settings,
            notice,
            r,
            now_ms,
        ),
    ensures
        ({
            let offered = old_settings.update_status@ is Available;
            let has_port = old_settings.traffic_rule.port is Some;
            &&& settings.model() == old_settings.model()
            &&& !offered && s == 0 && has_port ==> r == MainOutcome::Start && view == old_view
            &&& !offered && s == 0 && !has_port ==> r == MainOutcome::Stay && view
                == MenuView::Settings && notice is Some
            &&& !offered && s == 1 ==> r == MainOutcome::Stay && view == MenuView::Settings
                && notice == old_notice
            &&& !offered && s == 2 ==> r == MainOutcome::Exit && view == old_view
            &&& !offered ==> settings.update_status@ == old_settings.update_status@
            &&& offered && s == 0 ==> r == MainOutcome::OpenUpdatePage && view == old_view
                && settings.update_status@ == old_settings.update_status@
            &&& offered && s == 1 ==> r == MainOutcome::Stay && view == old_view && selected == 0
                && match old_settings.update_status@ {
                StatusView::Available { version, url } => settings.update_status@
                    == StatusView::Skipped { version, url },
                _ => false,
            }
        }),
{
}

/// Acts on the selected main menu entry. With an update on offer, the first
/// entry opens its page and the second skips it; otherwise the entries start
/// the capture (when a port is set), open the settings, and leave.
pub fn select_main_item(
    selected: &mut usize,
    view: &mut MenuView,
    settings: &mut InterceptorSettings,
    notice: &mut Option<Notice>,
    now_ms: u64,
) -> (r: MainOutcome)
    ensures
        acted_on_main_item(
            *old(selected) as int,
            *old(view),
            *old(settings),
            *old(notice),
            *final(selected),
            *final(view),
            *final(settings),
            *final(notice),
            r,
            now_ms,
        ),
{
    if update_available(&settings.update_status) {
        if *selected == 0 {
            return MainOutcome::OpenUpdatePage;
        } else if *selected == 1 {
            let mut status = UpdateStatus::Checking;
            std::mem::swap(&mut status, &mut settings.update_status);
            match status {
                UpdateStatus::Available { version, url } => {
                    settings.update_status = UpdateStatus::Skipped { version, url };
                    *selected = 0;
                },
                other => {
                    settings.update_status = other;
                },
            }
        }
        MainOutcome::Stay
    } else {
        if *selected == 0 {
            if settings.traffic_rule.has_port() {
                return MainOutcome::Start;
            }
            *view = MenuView::Settings;
            *notice = make_notice("set a port before starting interceptor", NoticeTone::Warning, now_ms);
            MainOutcome::Stay
        } else if *selected == 1 {
            *view = MenuView::Settings;
            MainOutcome::Stay
        } else if *selected == 2 {
            MainOutcome::Exit
        } else {
            MainOutcome::Stay
        }
    }
}

/// Acts on a key on the main menu: Esc leaves, up and down move the
/// selection, `1`-`3` select an entry and act on it, Enter acts on the
/// selected entry.
pub fn handle_main_key(
    code: Key,
    selected: &mut usize,
    view: &mut MenuView,
    settings: &mut InterceptorSettings,
    notice: &mut Option<Notice>,
    now_ms: u64,
) -> (r: MainOutcome)
    requires
        code == Key::Down ==> *old(selected) < usize::MAX,
    ensures
        ({
            let last = last_main_item(old(settings).update_status@);
            let unchanged = *final(view) == *old(view) && *final(settings) == *old(settings)
                && *final(notice) == *old(notice);
            match code {
                Key::Esc => r == MainOutcome::Exit && *final(selected) == *old(selected)
                    && unchanged,
                Key::Up => r == MainOutcome::Stay && unchanged && *final(selected) == (if *old(selected) > 0 {
                    *old(selected) - 1
                } else {
                    0
                }),
                Key::Down => r == MainOutcome::Stay && unchanged && *final(selected) == (if *old(selected) + 1 <= last {
                    *old(selected) + 1
                } else {
                    last
                }),
                Key::Char(c) => if '1' <= c && c <= '3' {
                    let n = c as int - '1' as int;
                    acted_on_main_item(
                        if n <= last {
                            n
                        } else {
                            last
                        },
                        *old(view),
                        *old(settings),
                        *old(notice),
                        *final(selected),
                        *final(view),
                        *final(settings),
                        *final(notice),
                        r,
                        now_ms,
                    )
                } else {
                    r == MainOutcome::Stay && *final(selected) == *old(selected) && unchanged
                },
                Key::Enter => acted_on_main_item(
                    *old(selected) as int,
                    *old(view),
                    *old(settings),
                    *old(notice),
                    *final(selected),
                    *final(view),
                    *final(settings),
                    *final(notice),
                    r,
                    now_ms,
                ),
                _ => r == MainOutcome::Stay && *final(selected) == *old(selected) && unchanged,
            }
        }),
{
    let has_update = update_available(&settings.update_status);
    let last_item: usize = if has_update {
        1
    } else {
        2
    };
    match code {
        Key::Esc => MainOutcome::Exit,
        Key::Up => {
            *selected = selected.saturating_sub(1);
            MainOutcome::Stay
        },
        Key::Down => {
            let next = *selected + 1;
            *selected = if next <= last_item {
                next
            } else {
                last_item
            };
            MainOutcome::Stay
        },
        Key::Char(c) => {
            if '1' <= c && c <= '3' {
                let n = (c as u32 - '1' as u32) as usize;
                *selected = if n <= last_item {
                    n
                } else {
                    last_item
                };
                select_main_item(selected, view, settings, notice, now_ms)
            } else {
                MainOutcome::Stay
            }
        },
        Key::Enter => select_main_item(selected, view, settings, notice, now_ms),
        _ => MainOutcome::Stay,
    }
}


/// What the caller is to do after a settings entry was chosen.
#[derive(Clone, Copy, Debug, PartialEq, Eq, Structural)]
pub enum SettingEffect {
    Nothing,
    /// Put the window on top (or not), then report with `finish_always_on_top`.
    SetAlwaysOnTop(bool),
    /// Save the settings, then report with `finish_save`.
    Save,
    /// Take the window off the top, save the restored defaults, then report
    /// with `finish_restore`.
    SaveRestoredDefaults,
}

/// The settings after choosing `action`.
pub open spec fn applied_setting(action: SettingAction, m: SettingsModel) -> SettingsModel {
    match action {
        SettingAction::Protocol => SettingsModel {
            traffic_rule: TrafficRule {
                protocol: kind_after(m.traffic_rule.protocol),
                ..m.traffic_rule
            },
            ..m
        },
        SettingAction::HoldWindow => hold_switched(m),
        SettingAction::ReleasePacing => pacing_switched(m),
        SettingAction::RestoreDefaults => factory_model(),
        _ => m,
    }
}

/// The view after choosing `action`.
pub open spec fn setting_view(action: SettingAction, view: MenuView) -> MenuView {
    match action {
        SettingAction::Port => MenuView::CapturePort,
        SettingAction::Trigger => MenuView::CaptureKeybind,
        SettingAction::CustomHoldMin => MenuView::CaptureCustomMin,
        SettingAction::CustomHoldMax => MenuView::CaptureCustomMax,
        SettingAction::CustomBatch => MenuView::CaptureReleaseBatch,
        SettingAction::CustomDelay => MenuView::CaptureReleaseDelay,
        SettingAction::Back => MenuView::Main,
        _ => view,
    }
}

/// Whether choosing `action` opens an empty number entry.
pub open spec fn setting_starts_entry(action: SettingAction) -> bool {
    ||| action == SettingAction::Port
    ||| action == SettingAction::CustomHoldMin
    ||| action == SettingAction::CustomHoldMax
    ||| action == SettingAction::CustomBatch
    ||| action == SettingAction::CustomDelay
}

/// The settings mode after choosing `action`.
pub open spec fn setting_mode(action: SettingAction, mode: SettingsMode) -> SettingsMode {
    if action == SettingAction::SwitchMode {
        if mode == SettingsMode::Easy {
            SettingsMode::Advanced
        } else {
            SettingsMode::Easy
        }
    } else {
        mode
    }
}

/// What the caller is to do after choosing `action`.
pub open spec fn setting_effect(action: SettingAction, m: SettingsModel) -> SettingEffect {
    match action {
        SettingAction::AlwaysOnTop => SettingEffect::SetAlwaysOnTop(!m.always_on_top),
        SettingAction::Save => SettingEffect::Save,
        SettingAction::RestoreDefaults => SettingEffect::SaveRestoredDefaults,
        _ => SettingEffect::Nothing,
    }
}

/// `selected`, kept within the entries shown for `mode` and `m`.
pub open spec fn clamped_selection(selected: int, mode: SettingsMode, m: SettingsModel) -> int {
    let last = action_kinds(mode, m).len() - 1;
    if selected <= last {
        selected
    } else {
        last
    }
}

/// Choosing settings entry `s`, as `select_setting` does.
pub open spec fn chose_setting(
    s: int,
    old_mode: SettingsMode,
    old_view: MenuView,
    old_input: Seq<char>,
    old_settings: InterceptorSettings,
    selected: usize,
    mode: SettingsMode,
    view: MenuView,
    input: Seq<char>,
    settings: InterceptorSettings,
    input_problem: Option<String>,
    notice: Option<Notice>,
    r: SettingEffect,
) -> bool {
    let m = old_settings.model();
    let kinds = action_kinds(old_mode, m);
    &&& input_problem is None
    &&& notice is None
    &&& settings.update_status == old_settings.update_status
    &&& if s < 0 || s >= kinds.len() {
        &&& selected == 0
        &&& mode == old_mode
        &&& view == old_view
        &&& input == old_input
        &&& settings.model() == m
        &&& r == SettingEffect::Nothing
    } else {
        let a = kinds[s];
        let s1 = if a == SettingAction::SwitchMode {
            0
        } else {
            s
        };
        &&& settings.model() == applied_setting(a, m)
        &&& view == setting_view(a, old_view)
        &&& mode == setting_mode(a, old_mode)
        &&& input == if setting_starts_entry(a) {
            Seq::<char>::empty()
        } else {
            old_input
        }
        &&& r == setting_effect(a, m)
        &&& selected == if view == MenuView::Settings {
            clamped_selection(s1, mode, settings.model())
        } else {
            s1
        }
    }
}

/// Each settings entry does its own job. The port, trigger, custom hold
/// minimum and maximum, batch size and batch pause entries each open their
/// own editor (the number editors empty) and change no setting; `back` goes
/// to the main menu; the protocol entry moves to the next protocol, the hold
/// window and release pacing entries switch between default and custom, and
/// restoring defaults gives the factory settings, each staying in the
/// settings menu; always-on-top asks for the window to be put on top (or
/// not), and saving asks for the settings to be saved.
pub proof fn law_settings_entries_do_their_job(
    s: int,
    old_mode: SettingsMode,
    old_view: MenuView,
    old_input: Seq<char>,
    old_settings: InterceptorSettings,
    selected: usize,
    mode: SettingsMode,
    view: MenuView,
    input: Seq<char>,
    settings: InterceptorSettings,
    input_problem: Option<String>,
    notice: Option<Notice>,
    r: SettingEffect,
)
    requires
        chose_setting(
            s,
            old_mode,
            old_view,
            old_input,
            old_settings,
            selected,
            mode,
            view,
            input,
            settings,
            input_problem,
            notice,
            r,
        ),
        0 <= s < action_kinds(old_mode, old_settings.model()).len(),
    ensures
        ({
            let m = old_settings.model();
            let a = action_kinds(old_mode, m)[s];
            let editor = a == SettingAction::Port || a == SettingAction::Trigger || a
                == SettingAction::CustomHoldMin || a == SettingAction::CustomHoldMax || a
                == SettingAction::CustomBatch || a == SettingAction::CustomDelay;
            &&& a == SettingAction::Port ==> view == MenuView::CapturePort
            &&& a == SettingAction::Trigger ==> view == MenuView::CaptureKeybind
            &&& a == SettingAction::CustomHoldMin ==> view == MenuView::CaptureCustomMin
            &&& a == SettingAction::CustomHoldMax ==> view == MenuView::CaptureCustomMax
            &&& a == SettingAction::CustomBatch ==> view == MenuView::CaptureReleaseBatch
            &&& a == SettingAction::CustomDelay ==> view == MenuView::CaptureReleaseDelay
            &&& a == SettingAction::Back ==> view == MenuView::Main
            &&& !editor && a != SettingAction::Back ==> view == old_view
            &&& editor ==> settings.model() == m && r == SettingEffect::Nothing
            &&& editor && a != SettingAction::Trigger ==> input.len() == 0
            &&& a == SettingAction::Protocol ==> settings.model().traffic_rule.protocol == kind_after(
                m.traffic_rule.protocol,
            ) && settings.model().traffic_rule.port == m.traffic_rule.port
            &&& a == SettingAction::HoldWindow ==> settings.model() == hold_switched(m)
            &&& a == SettingAction::ReleasePacing ==> settings.model() == pacing_switched(m)
            &&& a == SettingAction::RestoreDefaults ==> settings.model() == factory_model() && r
                == SettingEffect::SaveRestoredDefaults
            &&& a == SettingAction::AlwaysOnTop ==> r == SettingEffect::SetAlwaysOnTop(
                !m.always_on_top,
            ) && settings.model() == m
            &&& a == SettingAction::Save ==> r == SettingEffect::Save && settings.model() == m
            &&& a == SettingAction::SwitchMode ==> mode != old_mode && settings.model() == m
        }),
{
}

/// Acts on the selected settings entry.
pub fn select_setting(
    selected: &mut usize,
    mode: &mut SettingsMode,
    view: &mut MenuView,
    input: &mut String,
    settings: &mut InterceptorSettings,
    input_problem: &mut Option<String>,
    notice: &mut Option<Notice>,
) -> (r: SettingEffect)
    ensures
        chose_setting(
            *old(selected) as int,
            *old(mode),
            *old(view),
            old(input)@,
            *old(settings),
            *final(selected),
            *final(mode),
            *final(view),
            final(input)@,
            *final(settings),
            *final(input_problem),
            *final(notice),
            r,
        ),
{
    *input_problem = None;
    *notice = None;
    let actions = settings_actions(*mode, settings);
    if *selected >= actions.len() {
        *selected = 0;
        return SettingEffect::Nothing;
    }
    let action = actions[*selected].1;
    assert(action == kinds_of(actions@)[*selected as int]);
    let mut effect = SettingEffect::Nothing;
    match action {
        SettingAction::Protocol => {
            settings.traffic_rule.protocol = settings.traffic_rule.protocol.next_protocol();
        },
        SettingAction::Port => {
            *input = String::new();
            *view = MenuView::CapturePort;
        },
        SettingAction::Trigger => {
            *view = MenuView::CaptureKeybind;
        },
        SettingAction::AlwaysOnTop => {
            effect = SettingEffect::SetAlwaysOnTop(!settings.always_on_top);
        },
        SettingAction::HoldWindow => settings.switch_hold_window(),
        SettingAction::CustomHoldMin => {
            *input = String::new();
            *view = MenuView::CaptureCustomMin;
        },
        SettingAction::CustomHoldMax => {
            *input = String::new();
            *view = MenuView::CaptureCustomMax;
        },
        SettingAction::ReleasePacing => settings.switch_release_pacing(),
        SettingAction::CustomBatch => {
            *input = String::new();
            *view = MenuView::CaptureReleaseBatch;
        },
        SettingAction::CustomDelay => {
            *input = String::new();
            *view = MenuView::CaptureReleaseDelay;
        },
        SettingAction::SwitchMode => {
            *mode = match *mode {
                SettingsMode::Easy => SettingsMode::Advanced,
                SettingsMode::Advanced => SettingsMode::Easy,
            };
            *selected = 0;
        },
        SettingAction::Divider => {},
        SettingAction::Save => {
            effect = SettingEffect::Save;
        },
        SettingAction::RestoreDefaults => {
            settings.restore_defaults();
            effect = SettingEffect::SaveRestoredDefaults;
        },
        SettingAction::Back => {
            *view = MenuView::Main;
        },
    }
    if *view == MenuView::Settings {
        let shown = settings_actions(*mode, settings);
        assert(shown@.len() == kinds_of(shown@).len());
        assert(action_kinds(*mode, settings.model()).len() >= 5);
        let last = shown.len() - 1;
        if *selected > last {
            *selected = last;
        }
    }
    effect
}

/// Acting on a key in the settings menu, as `handle_settings_key` does.
pub open spec fn handled_settings_key(
    code: Key,
    s: usize,
    old_mode: SettingsMode,
    old_view: MenuView,
    old_input: Seq<char>,
    old_settings: InterceptorSettings,
    old_problem: Option<String>,
    old_notice: Option<Notice>,
    selected: usize,
    mode: SettingsMode,
    view: MenuView,
    input: Seq<char>,
    settings: InterceptorSettings,
    input_problem: Option<String>,
    notice: Option<Notice>,
    r: SettingEffect,
) -> bool {
    let kinds = action_kinds(old_mode, old_settings.model());
    let unchanged = mode == old_mode && input == old_input && settings == old_settings
        && input_problem == old_problem && notice == old_notice;
    if code == Key::Esc || code == Key::Backspace || code == Key::Char('q') || code == Key::Char(
        '1',
    ) {
        unchanged && view == MenuView::Main && selected == s && r == SettingEffect::Nothing
    } else if code == Key::Up || code == Key::Down {
        &&& unchanged && view == old_view && r == SettingEffect::Nothing
        &&& if code == Key::Down {
            if exists|j: int| s < j < kinds.len() && kinds[j] != SettingAction::Divider {
                &&& s < selected < kinds.len()
                &&& kinds[selected as int] != SettingAction::Divider
                &&& forall|k: int| s < k < selected ==> kinds[k] == SettingAction::Divider
            } else {
                selected == s
            }
        } else {
            if exists|j: int| 0 <= j < s && kinds[j] != SettingAction::Divider {
                &&& selected < s
                &&& kinds[selected as int] != SettingAction::Divider
                &&& forall|k: int| selected < k < s ==> kinds[k] == SettingAction::Divider
            } else {
                selected == s
            }
        }
    } else {
        match key_rank(code) {
            Some(rank) => if rank < shortcut_count(kinds) {
                exists|i: int|
                    0 <= i < kinds.len() && has_shortcut(kinds[i]) && shortcut_count(kinds.take(i))
                        == rank && chose_setting(
                        i,
                        old_mode,
                        old_view,
                        old_input,
                        old_settings,
                        selected,
                        mode,
                        view,
                        input,
                        settings,
                        input_problem,
                        notice,
                        r,
                    )
            } else {
                unchanged && view == old_view && selected == s && r == SettingEffect::Nothing
            },
            None => if code == Key::Enter {
                chose_setting(
                    s as int,
                    old_mode,
                    old_view,
                    old_input,
                    old_settings,
                    selected,
                    mode,
                    view,
                    input,
                    settings,
                    input_problem,
                    notice,
                    r,
                )
            } else {
                unchanged && view == old_view && selected == s && r == SettingEffect::Nothing
            },
        }
    }
}

/// Acts on a key in the settings menu: Esc, Backspace, `q` and `1` go back,
/// up and down move the selection past the divider, a shortcut selects its
/// entry and acts on it, Enter acts on the selected entry.
pub fn handle_settings_key(
    code: Key,
    selected: &mut usize,
    mode: &mut SettingsMode,
    view: &mut MenuView,
    input: &mut String,
    settings: &mut InterceptorSettings,
    input_problem: &mut Option<String>,
    notice: &mut Option<Notice>,
) -> (r: SettingEffect)
    requires
        code == Key::Down ==> *old(selected) < usize::MAX,
        code == Key::Up ==> *old(selected) <= action_kinds(*old(mode), old(settings).model()).len(),
    ensures
        handled_settings_key(
            code,
            *old(selected),
            *old(mode),
            *old(view),
            old(input)@,
            *old(settings),
            *old(input_problem),
            *old(notice),
            *final(selected),
            *final(mode),
            *final(view),
            final(input)@,
            *final(settings),
            *final(input_problem),
            *final(notice),
            r,
        ),
{
    let visible = settings_actions(*mode, settings);
    let ghost kinds = kinds_of(visible@);
    if code == Key::Esc || code == Key::Backspace || code == Key::Char('q') || code == Key::Char('1') {
        *view = MenuView::Main;
        return SettingEffect::Nothing;
    }
    if code == Key::Up {
        move_settings_selection(selected, &visible, false);
        return SettingEffect::Nothing;
    }
    if code == Key::Down {
        move_settings_selection(selected, &visible, true);
        return SettingEffect::Nothing;
    }
    match settings_shortcut_index(code, &visible) {
        Some(index) => {
            proof {
                lemma_shortcut_count_grows(kinds, index as int, kinds.len() as int);
                assert(kinds.take(kinds.len() as int) =~= kinds);
            }
            *selected = index;
            select_setting(selected, mode, view, input, settings, input_problem, notice)
        },
        None => {
            if code == Key::Enter {
                select_setting(selected, mode, view, input, settings, input_problem, notice)
            } else {
                SettingEffect::Nothing
            }
        },
    }
}

/// Records whether the window could be put on top (or taken off) as asked.
pub fn finish_always_on_top(settings: &mut InterceptorSettings, desired: bool, applied: bool)
    ensures
        final(settings).model() == (if applied {
            SettingsModel { always_on_top: desired, ..old(settings).model() }
        } else {
            old(settings).model()
        }),
        final(settings).update_status == old(settings).update_status,
{
    if applied {
        settings.always_on_top = desired;
    }
}

/// Reports how saving the settings went.
pub fn finish_save(result: Result<(), String>, notice: &mut Option<Notice>, now_ms: u64)
    ensures
        match result {
            Ok(()) => notice_is(*final(notice), "settings saved for next launch"@, NoticeTone::Success, now_ms),
            Err(problem) => notice_is(*final(notice), problem@, NoticeTone::Problem, now_ms),
        },
{
    *notice = match result {
        Ok(()) => make_notice("settings saved for next launch", NoticeTone::Success, now_ms),
        Err(problem) => Some(Notice { message: problem, tone: NoticeTone::Problem, shown_at_ms: now_ms }),
    };
}

/// Reports how saving the restored defaults went.
pub fn finish_restore(result: Result<(), String>, notice: &mut Option<Notice>, now_ms: u64)
    ensures
        match result {
            Ok(()) => notice_is(*final(notice), "defaults restored and saved"@, NoticeTone::Success, now_ms),
            Err(problem) => notice_is(
                *final(notice),
                "defaults restored, but "@ + problem@,
                NoticeTone::Problem,
                now_ms,
            ),
        },
{
    *notice = match result {
        Ok(()) => make_notice("defaults restored and saved", NoticeTone::Success, now_ms),
        Err(problem) => Some(
            Notice {
                message: String::from_str("defaults restored, but ").concat(problem.as_str()),
                tone: NoticeTone::Problem,
                shown_at_ms: now_ms,
            },
        ),
    };
}


/// Whether `code` types one more digit into an entry that holds `input` and
/// takes fewer than `limit` bytes.
pub open spec fn types_digit(code: Key, input: Seq<char>, limit: nat) -> bool {
    code matches Key::Char(ch) && is_digit(ch) && (encode_utf8(input).len() as usize) < limit
}

/// Editing a number entry with a key other than Enter: Esc leaves it empty
/// and goes back to the settings, Backspace removes the last character, a
/// digit is added while the entry is short enough, other keys do nothing.
pub open spec fn entry_edited(
    code: Key,
    limit: nat,
    old_input: Seq<char>,
    old_problem: Option<String>,
    old_view: MenuView,
    input: Seq<char>,
    problem: Option<String>,
    view: MenuView,
) -> bool {
    if code == Key::Esc {
        input.len() == 0 && problem is None && view == MenuView::Settings
    } else if code == Key::Backspace {
        input == (if old_input.len() > 0 {
            old_input.drop_last()
        } else {
            old_input
        }) && problem is None && view == old_view
    } else if types_digit(code, old_input, limit) {
        input == old_input.push(code->Char_0) && problem is None && view == old_view
    } else {
        input == old_input && problem == old_problem && view == old_view
    }
}

fn edit_entry(
    code: Key,
    limit: usize,
    input: &mut String,
    input_problem: &mut Option<String>,
    view: &mut MenuView,
)
    requires
        code != Key::Enter,
    ensures
        entry_edited(
            code,
            limit as nat,
            old(input)@,
            *old(input_problem),
            *old(view),
            final(input)@,
            *final(input_problem),
            *final(view),
        ),
{
    match code {
        Key::Esc => {
            *input = String::new();
            *input_problem = None;
            *view = MenuView::Settings;
        },
        Key::Backspace => {
            pop_char(input);
            *input_problem = None;
        },
        Key::Char(ch) => {
            if '0' <= ch && ch <= '9' && input.as_str().len() < limit {
                push_char(input, ch);
                *input_problem = None;
            }
        },
        _ => {},
    }
}

/// Whether the entry was accepted: emptied, problem cleared, back to the settings.
pub open spec fn entry_accepted(input: Seq<char>, problem: Option<String>, view: MenuView) -> bool {
    input.len() == 0 && problem is None && view == MenuView::Settings
}

/// Whether the entry was refused with the message for `e`, and left as it was.
pub open spec fn entry_refused(
    e: crate::config::SettingsError,
    old_input: Seq<char>,
    old_view: MenuView,
    input: Seq<char>,
    problem: Option<String>,
    view: MenuView,
) -> bool {
    &&& input == old_input
    &&& view == old_view
    &&& problem matches Some(p) && p@ == settings_error_text(e)
}

fn refuse(e: crate::config::SettingsError) -> (r: Option<String>)
    ensures
        r matches Some(p) && p@ == settings_error_text(e),
{
    Some(String::from_str(e.message()))
}

/// Handles a key in the port entry (up to five digits); Enter sets the port
/// when the entry is a valid one.
pub fn handle_port_input(
    code: Key,
    input: &mut String,
    settings: &mut InterceptorSettings,
    view: &mut MenuView,
    input_problem: &mut Option<String>,
)
    ensures
        final(settings).update_status == old(settings).update_status,
        code != Key::Enter ==> final(settings).model() == old(settings).model() && entry_edited(
            code,
            5,
            old(input)@,
            *old(input_problem),
            *old(view),
            final(input)@,
            *final(input_problem),
            *final(view),
        ),
        code == Key::Enter ==> match port_from_text(old(input)@) {
            Ok(p) => final(settings).model() == (SettingsModel {
                traffic_rule: TrafficRule { port: Some(p), ..old(settings).traffic_rule },
                ..old(settings).model()
            }) && entry_accepted(final(input)@, *final(input_problem), *final(view)),
            Err(e) => final(settings).model() == old(settings).model() && entry_refused(
                e,
                old(input)@,
                *old(view),
                final(input)@,
                *final(input_problem),
                *final(view),
            ),
        },
{
    if code != Key::Enter {
        edit_entry(code, 5, input, input_problem, view);
        return;
    }
    match settings.traffic_rule.set_port_from_text(input.as_str()) {
        Ok(()) => {
            *input = String::new();
            *input_problem = None;
            *view = MenuView::Settings;
        },
        Err(e) => {
            *input_problem = refuse(e);
        },
    }
}

/// Handles a key in a hold time entry (up to five digits); Enter sets the
/// custom minimum (or maximum) when the entry is a valid hold time.
pub fn handle_hold_input(
    code: Key,
    input: &mut String,
    settings: &mut InterceptorSettings,
    editing_min: bool,
    view: &mut MenuView,
    input_problem: &mut Option<String>,
)
    ensures
        final(settings).update_status == old(settings).update_status,
        code != Key::Enter ==> final(settings).model() == old(settings).model() && entry_edited(
            code,
            5,
            old(input)@,
            *old(input_problem),
            *old(view),
            final(input)@,
            *final(input_problem),
            *final(view),
        ),
        code == Key::Enter ==> match hold_from_text(old(input)@) {
            Ok(n) => final(settings).model() == (if editing_min {
                with_custom_minimum(old(settings).model(), n)
            } else {
                with_custom_maximum(old(settings).model(), n)
            }) && entry_accepted(final(input)@, *final(input_problem), *final(view)),
            Err(e) => final(settings).model() == old(settings).model() && entry_refused(
                e,
                old(input)@,
                *old(view),
                final(input)@,
                *final(input_problem),
                *final(view),
            ),
        },
{
    if code != Key::Enter {
        edit_entry(code, 5, input, input_problem, view);
        return;
    }
    let result = if editing_min {
        settings.change_custom_minimum(input.as_str())
    } else {
        settings.change_custom_maximum(input.as_str())
    };
    match result {
        Ok(()) => {
            *input = String::new();
            *input_problem = None;
            *view = MenuView::Settings;
        },
        Err(e) => {
            *input_problem = refuse(e);
        },
    }
}

/// Handles a key in a release pacing entry (up to three digits); Enter sets
/// the custom batch size (or pause) when the entry is valid.
pub fn handle_release_input(
    code: Key,
    input: &mut String,
    settings: &mut InterceptorSettings,
    editing_batch: bool,
    view: &mut MenuView,
    input_problem: &mut Option<String>,
)
    ensures
        final(settings).update_status == old(settings).update_status,
        code != Key::Enter ==> final(settings).model() == old(settings).model() && entry_edited(
            code,
            3,
            old(input)@,
            *old(input_problem),
            *old(view),
            final(input)@,
            *final(input_problem),
            *final(view),
        ),
        code == Key::Enter && editing_batch ==> match batch_from_text(old(input)@) {
            Ok(n) => final(settings).model() == with_custom_batch(old(settings).model(), n)
                && entry_accepted(final(input)@, *final(input_problem), *final(view)),
            Err(e) => final(settings).model() == old(settings).model() && entry_refused(
                e,
                old(input)@,
                *old(view),
                final(input)@,
                *final(input_problem),
                *final(view),
            ),
        },
        code == Key::Enter && !editing_batch ==> match delay_from_text(old(input)@) {
            Ok(n) => final(settings).model() == with_custom_delay(old(settings).model(), n)
                && entry_accepted(final(input)@, *final(input_problem), *final(view)),
            Err(e) => final(settings).model() == old(settings).model() && entry_refused(
                e,
                old(input)@,
                *old(view),
                final(input)@,
                *final(input_problem),
                *final(view),
            ),
        },
{
    if code != Key::Enter {
        edit_entry(code, 3, input, input_problem, view);
        return;
    }
    let result = if editing_batch {
        settings.change_custom_batch_size(input.as_str())
    } else {
        settings.change_custom_release_delay(input.as_str())
    };
    match result {
        Ok(()) => {
            *input = String::new();
            *input_problem = None;
            *view = MenuView::Settings;
        },
        Err(e) => {
            *input_problem = refuse(e);
        },
    }
}

/// Handles a key pressed while waiting for a new trigger: Esc cancels, a key
/// that can serve as trigger becomes it, other keys are ignored.
pub fn handle_keybind_key(
    code: Key,
    settings: &mut InterceptorSettings,
    view: &mut MenuView,
    input_problem: &mut Option<String>,
)
    ensures
        final(settings).update_status == old(settings).update_status,
        code == Key::Esc ==> *final(view) == MenuView::Settings && *final(settings) == *old(settings)
            && *final(input_problem) == *old(input_problem),
        code != Key::Esc ==> match key_binding(code) {
            Some(b) => final(settings).model() == (SettingsModel {
                trigger_key: b.0,
                trigger_name: b.1,
                ..old(settings).model()
            }) && *final(input_problem) is None && *final(view) == MenuView::Settings,
            None => *final(settings) == *old(settings) && *final(view) == *old(view)
                && *final(input_problem) == *old(input_problem),
        },
{
    if code == Key::Esc {
        *view = MenuView::Settings;
        return;
    }
    match key_code_to_virtual_key(code) {
        Some((vk, label)) => {
            settings.trigger_key = vk;
            settings.trigger_name = label;
            *input_problem = None;
            *view = MenuView::Settings;
        },
        None => {},
    }
}

/// Handles a mouse button pressed while waiting for a new trigger: it
/// becomes the trigger.
pub fn handle_keybind_mouse(
    button: MouseButton,
    settings: &mut InterceptorSettings,
    view: &mut MenuView,
    input_problem: &mut Option<String>,
)
    ensures
        final(settings).update_status == old(settings).update_status,
        final(settings).model() == (SettingsModel {
            trigger_key: mouse_binding(button).0,
            trigger_name: mouse_binding(button).1,
            ..old(settings).model()
        }),
        *final(input_problem) is None,
        *final(view) == MenuView::Settings,
{
    let (vk, label) = mouse_button_to_virtual_key(button);
    settings.trigger_key = vk;
    settings.trigger_name = label;
    *input_problem = None;
    *view = MenuView::Settings;
}


/// How many samples of recent traffic the dashboard keeps.
pub const ACTIVITY_WIDTH: usize = 40;

/// How often the dashboard samples traffic.
pub const SAMPLE_INTERVAL_MS: u64 = 100;

/// Recent traffic per sample interval: matched, queued and released packets.
pub struct TrafficActivity {
    pub matched: std::collections::VecDeque<u64>,
    pub queued: std::collections::VecDeque<u64>,
    pub released: std::collections::VecDeque<u64>,
    /// The totals at the last sample.
    pub previous_totals: (u64, u64, u64),
    /// When the last sample was taken, if one was.
    pub last_sample_ms: Option<u64>,
}

/// `ACTIVITY_WIDTH` zeros.
pub open spec fn empty_history() -> Seq<u64> {
    Seq::new(ACTIVITY_WIDTH as nat, |i: int| 0u64)
}

/// A history after one more sample: the oldest falls out once it is full.
pub open spec fn history_after(history: Seq<u64>, amount: u64) -> Seq<u64> {
    if history.len() == ACTIVITY_WIDTH {
        history.drop_first().push(amount)
    } else {
        history.push(amount)
    }
}

/// The growth from `before` to `now`, or zero if it went down.
pub open spec fn growth(before: u64, now: u64) -> u64 {
    if now >= before {
        (now - before) as u64
    } else {
        0
    }
}

fn zero_history() -> (r: std::collections::VecDeque<u64>)
    ensures
        r@ == empty_history(),
{
    let mut r = std::collections::VecDeque::new();
    let mut i: usize = 0;
    while i < ACTIVITY_WIDTH
        invariant
            i <= ACTIVITY_WIDTH,
            r@ == Seq::new(i as nat, |j: int| 0u64),
        decreases ACTIVITY_WIDTH - i,
    {
        r.push_back(0);
        i = i + 1;
        assert(r@ =~= Seq::new(i as nat, |j: int| 0u64));
    }
    r
}

impl TrafficActivity {
    pub fn new() -> (r: Self)
        ensures
            r.matched@ == empty_history(),
            r.queued@ == empty_history(),
            r.released@ == empty_history(),
            r.previous_totals == (0u64, 0u64, 0u64),
            r.last_sample_ms is None,
    {
        TrafficActivity {
            matched: zero_history(),
            queued: zero_history(),
            released: zero_history(),
            previous_totals: (0, 0, 0),
            last_sample_ms: None,
        }
    }

    /// Adds a sample to a history, dropping the oldest once it is full.
    pub fn push_sample(history: &mut std::collections::VecDeque<u64>, amount: u64)
        ensures
            final(history)@ == history_after(old(history)@, amount),
    {
        if history.len() == ACTIVITY_WIDTH {
            history.pop_front();
        }
        history.push_back(amount);
    }

    /// The latest sample of a history, or zero.
    pub fn last(history: &std::collections::VecDeque<u64>) -> (r: u64)
        ensures
            r == if history@.len() > 0 {
                history@.last()
            } else {
                0
            },
    {
        let len = history.len();
        if len > 0 {
            history[len - 1]
        } else {
            0
        }
    }

    /// Takes a sample at `now_ms` of the totals (matched, queued, released),
    /// or of the previous totals when they could not be read; nothing happens
    /// within the sample interval of the last sample.
    pub fn sample(&mut self, now_ms: u64, totals: Option<(u64, u64, u64)>)
        ensures
            match old(self).last_sample_ms {
                Some(t) if now_ms >= t && now_ms - t < SAMPLE_INTERVAL_MS => *final(self) == *old(self),
                _ => {
                    let t = match totals {
                        Some(t) => t,
                        None => old(self).previous_totals,
                    };
                    let p = old(self).previous_totals;
                    &&& final(self).matched@ == history_after(old(self).matched@, growth(p.0, t.0))
                    &&& final(self).queued@ == history_after(old(self).queued@, growth(p.1, t.1))
                    &&& final(self).released@ == history_after(old(self).released@, growth(p.2, t.2))
                    &&& final(self).previous_totals == t
                    &&& final(self).last_sample_ms == Some(now_ms)
                },
            },
    {
        match self.last_sample_ms {
            Some(t) => {
                if now_ms.saturating_sub(t) < SAMPLE_INTERVAL_MS {
                    if now_ms >= t {
                        return;
                    }
                }
            },
            None => {},
        }
        let totals = match totals {
            Some(t) => t,
            None => self.previous_totals,
        };
        Self::push_sample(&mut self.matched, totals.0.saturating_sub(self.previous_totals.0));
        Self::push_sample(&mut self.queued, totals.1.saturating_sub(self.previous_totals.1));
        Self::push_sample(&mut self.released, totals.2.saturating_sub(self.previous_totals.2));
        self.previous_totals = totals;
        self.last_sample_ms = Some(now_ms);
    }
}

/// A rectangle of terminal cells.
#[derive(Clone, Copy, Debug, PartialEq, Eq, Structural)]
pub struct Rect {
    pub x: u16,
    pub y: u16,
    pub width: u16,
    pub height: u16,
}

/// The row just below a rectangle (at most the last row there is).
pub open spec fn rect_bottom(r: Rect) -> u16 {
    if r.y + r.height <= u16::MAX {
        (r.y + r.height) as u16
    } else {
        u16::MAX
    }
}

impl Rect {
    pub fn bottom(self) -> (r: u16)
        ensures
            r == rect_bottom(self),
    {
        self.y.saturating_add(self.height)
    }
}

/// `percent` of `n`, with the product capped at the largest cell count.
pub open spec fn percent_of(n: u16, percent: u16) -> int {
    let product = if n * percent <= u16::MAX {
        n * percent
    } else {
        u16::MAX as int
    };
    product / 100
}

/// The height of a centered rectangle: `percent_y` of the area's, at least
/// `min_height`, at most the area's.
pub open spec fn centered_height(percent_y: u16, min_height: u16, area: Rect) -> int {
    let target = if percent_of(area.height, percent_y) >= min_height {
        percent_of(area.height, percent_y)
    } else {
        min_height as int
    };
    if target <= area.height {
        target
    } else {
        area.height as int
    }
}

/// The width of a centered rectangle: `percent_x` of the area's, at least
/// 40, at most the area's.
pub open spec fn centered_width(percent_x: u16, area: Rect) -> int {
    let target = if percent_of(area.width, percent_x) >= 40 {
        percent_of(area.width, percent_x)
    } else {
        40
    };
    if target <= area.width {
        target
    } else {
        area.width as int
    }
}

/// `percent` of `n`, with the product capped at the largest cell count.
fn scaled_percent(n: u16, percent: u16) -> (r: u16)
    ensures
        r == percent_of(n, percent),
{
    assert((n as u32) * (percent as u32) <= 65535 * 65535) by (nonlinear_arith)
        requires
            n <= 65535,
            percent <= 65535,
    ;
    let product = (n as u32) * (percent as u32);
    let capped: u32 = if product <= 65535 {
        product
    } else {
        65535
    };
    (capped / 100) as u16
}

/// A rectangle centered in `area` with the sizes above.
pub fn centered_rect_with_min(percent_x: u16, percent_y: u16, min_height: u16, area: Rect) -> (r:
    Rect)
    requires
        area.x + (area.width - centered_width(percent_x, area)) / 2 <= u16::MAX,
        area.y + (area.height - centered_height(percent_y, min_height, area)) / 2 <= u16::MAX,
    ensures
        r.width == centered_width(percent_x, area),
        r.height == centered_height(percent_y, min_height, area),
        r.x == area.x + (area.width - r.width) / 2,
        r.y == area.y + (area.height - r.height) / 2,
{
    let scaled_height = scaled_percent(area.height, percent_y);
    let target_height = if scaled_height >= min_height {
        scaled_height
    } else {
        min_height
    };
    let height = if target_height <= area.height {
        target_height
    } else {
        area.height
    };
    let target_width = scaled_percent(area.width, percent_x);
    let wide_enough = if target_width >= 40 {
        target_width
    } else {
        40
    };
    let width = if wide_enough <= area.width {
        wide_enough
    } else {
        area.width
    };
    Rect {
        x: area.x + area.width.saturating_sub(width) / 2,
        y: area.y + area.height.saturating_sub(height) / 2,
        width,
        height,
    }
}

/// The share of the terminal the menu and dashboard panel takes.
pub const PANEL_WIDTH_PERCENT: u16 = 92;
/// The share of the terminal height the panel takes.
pub const PANEL_HEIGHT_PERCENT: u16 = 90;
/// The least height of the panel.
pub const PANEL_MIN_HEIGHT: u16 = 24;

pub fn app_panel_area(area: Rect) -> (r: Rect)
    requires
        area.x + (area.width - centered_width(PANEL_WIDTH_PERCENT, area)) / 2 <= u16::MAX,
        area.y + (area.height - centered_height(PANEL_HEIGHT_PERCENT, PANEL_MIN_HEIGHT, area)) / 2
            <= u16::MAX,
    ensures
        r.width == centered_width(PANEL_WIDTH_PERCENT, area),
        r.height == centered_height(PANEL_HEIGHT_PERCENT, PANEL_MIN_HEIGHT, area),
        r.x == area.x + (area.width - r.width) / 2,
        r.y == area.y + (area.height - r.height) / 2,
{
    centered_rect_with_min(PANEL_WIDTH_PERCENT, PANEL_HEIGHT_PERCENT, PANEL_MIN_HEIGHT, area)
}

/// The panel and the one-row footer under it: the panel moves up a row when
/// it would reach the bottom of the terminal, and the footer stays on screen.
pub fn app_panel_layout(area: Rect) -> (r: (Rect, Rect))
    requires
        area.x + (area.width - centered_width(PANEL_WIDTH_PERCENT, area)) / 2 <= u16::MAX,
        area.y + (area.height - centered_height(PANEL_HEIGHT_PERCENT, PANEL_MIN_HEIGHT, area)) / 2
            <= u16::MAX,
    ensures
        ({
            let width = centered_width(PANEL_WIDTH_PERCENT, area);
            let height = centered_height(PANEL_HEIGHT_PERCENT, PANEL_MIN_HEIGHT, area);
            let placed = Rect {
                x: (area.x + (area.width - width) / 2) as u16,
                y: (area.y + (area.height - height) / 2) as u16,
                width: width as u16,
                height: height as u16,
            };
            let panel = if rect_bottom(placed) >= rect_bottom(area) {
                Rect {
                    y: if placed.y > 0 {
                        (placed.y - 1) as u16
                    } else {
                        0
                    },
                    ..placed
                }
            } else {
                placed
            };
            let last_row: int = if rect_bottom(area) > 0 {
                rect_bottom(area) - 1
            } else {
                0
            };
            &&& r.0 == panel
            &&& r.1 == (Rect {
                x: panel.x,
                y: if rect_bottom(panel) <= last_row {
                    rect_bottom(panel)
                } else {
                    last_row as u16
                },
                width: panel.width,
                height: 1,
            })
        }),
{
    let mut panel = app_panel_area(area);
    if panel.bottom() >= area.bottom() {
        panel.y = panel.y.saturating_sub(1);
    }
    let panel_bottom = panel.bottom();
    let last_row = area.bottom().saturating_sub(1);
    let footer = Rect {
        x: panel.x,
        y: if panel_bottom <= last_row {
            panel_bottom
        } else {
            last_row
        },
        width: panel.width,
        height: 1,
    };
    (panel, footer)
}

} // verus!
