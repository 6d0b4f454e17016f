//! The settings the user edits: what traffic to hold, for how long, and how to
//! release it again, together with their checks and their saved text form.
use vstd::prelude::*;

use crate::saved::{
    key_text, lemma_key_text_distinct, lemma_key_text_plain, lemma_read_lines_empty,
    lemma_read_plain_line, parse_saved_config, plain_value, read_lines, saved_config_of,
    SavedConfig,
    SavedSettingsError, SettingKey,
};
use crate::text::{
    chars_of, decimal, parse_signed, parse_unsigned, parse_unsigned_range, push_decimal,
    push_i32_decimal, same_chars, signed_decimal, parse_i32_range, is_ws, lemma_decimal,
    lemma_parse_decimal, lemma_parse_signed_decimal, all_digits, is_digit,
};
use crate::updater::UpdateStatus;

verus! {

/// Windows virtual-key code of F9, the factory trigger key.
pub const VK_F9: i32 = 0x78;
/// Lower end of the default randomized hold window.
pub const STOCK_HOLD_MIN_MS: u64 = 1800;
/// Upper end of the default randomized hold window.
pub const STOCK_HOLD_MAX_MS: u64 = 2500;
/// Shortest custom hold a user may enter.
pub const SHORTEST_HOLD_MS: u64 = 100;
/// Longest custom hold a user may enter.
pub const LONGEST_HOLD_MS: u64 = 10_000;
/// Packets released per batch by default.
pub const DEFAULT_RELEASE_BATCH_SIZE: usize = 30;
/// Pause between release batches by default.
pub const DEFAULT_RELEASE_DELAY_MS: u64 = 4;
/// Smallest custom release batch.
pub const MIN_RELEASE_BATCH_SIZE: usize = 1;
/// Largest custom release batch.
pub const MAX_RELEASE_BATCH_SIZE: usize = 250;
/// Longest custom pause between release batches.
pub const MAX_RELEASE_DELAY_MS: u64 = 100;

/// Which transport protocols a capture rule matches.
#[derive(Clone, Copy, Debug, PartialEq, Eq, Structural)]
pub enum TrafficKind {
    Both,
    Udp,
    Tcp,
}

/// The label shown for a protocol choice in the menu.
pub open spec fn kind_menu_name(kind: TrafficKind) -> Seq<char> {
    match kind {
        TrafficKind::Both => "tcp + udp"@,
        TrafficKind::Udp => "udp"@,
        TrafficKind::Tcp => "tcp"@,
    }
}

/// The word a protocol choice is saved as.
pub open spec fn kind_saved_name(kind: TrafficKind) -> Seq<char> {
    match kind {
        TrafficKind::Both => "both"@,
        TrafficKind::Udp => "udp"@,
        TrafficKind::Tcp => "tcp"@,
    }
}

/// The protocol choice that follows `kind` in the menu's cycle.
pub open spec fn kind_after(kind: TrafficKind) -> TrafficKind {
    match kind {
        TrafficKind::Both => TrafficKind::Udp,
        TrafficKind::Udp => TrafficKind::Tcp,
        TrafficKind::Tcp => TrafficKind::Both,
    }
}

/// The protocol choice whose saved word is `word`, if any.
pub open spec fn kind_from_saved_name(word: Seq<char>) -> Option<TrafficKind> {
    if word == "both"@ {
        Some(TrafficKind::Both)
    } else if word == "udp"@ {
        Some(TrafficKind::Udp)
    } else if word == "tcp"@ {
        Some(TrafficKind::Tcp)
    } else {
        None
    }
}

impl TrafficKind {
    pub fn menu_name(self) -> (r: &'static str)
        ensures
            r@ == kind_menu_name(self),
    {
        match self {
            TrafficKind::Both => "tcp + udp",
            TrafficKind::Udp => "udp",
            TrafficKind::Tcp => "tcp",
        }
    }

    pub fn next_protocol(self) -> (r: Self)
        ensures
            r == kind_after(self),
    {
        match self {
            TrafficKind::Both => TrafficKind::Udp,
            TrafficKind::Udp => TrafficKind::Tcp,
            TrafficKind::Tcp => TrafficKind::Both,
        }
    }

    pub fn saved_name(self) -> (r: &'static str)
        ensures
            r@ == kind_saved_name(self),
    {
        match self {
            TrafficKind::Both => "both",
            TrafficKind::Udp => "udp",
            TrafficKind::Tcp => "tcp",
        }
    }

    pub fn from_saved_name(saved: &Vec<char>) -> (r: Option<Self>)
        ensures
            r == kind_from_saved_name(saved@),
    {
        let both = chars_of("both");
        let udp = chars_of("udp");
        let tcp = chars_of("tcp");
        if same_chars(saved, &both) {
            Some(TrafficKind::Both)
        } else if same_chars(saved, &udp) {
            Some(TrafficKind::Udp)
        } else if same_chars(saved, &tcp) {
            Some(TrafficKind::Tcp)
        } else {
            None
        }
    }
}

/// Cycling the protocol choice three times comes back to where it started,
/// and the cycle passes through every choice.
pub proof fn law_protocol_cycle(kind: TrafficKind)
    ensures
        kind_after(kind_after(kind_after(kind))) == kind,
        kind_after(kind) != kind,
        kind_after(kind_after(kind)) != kind,
{
}

/// Why a value typed into the settings was refused.
#[derive(Clone, Copy, Debug, PartialEq, Eq, Structural)]
pub enum SettingsError {
    PortNotANumber,
    PortZero,
    HoldNotANumber,
    HoldOutsideLimits,
    BatchNotANumber,
    BatchOutsideLimits,
    DelayNotANumber,
    DelayOutsideLimits,
}

/// The sentence shown to the user for a refused value.
pub open spec fn settings_error_text(e: SettingsError) -> Seq<char> {
    match e {
        SettingsError::PortNotANumber => "enter a whole port number"@,
        SettingsError::PortZero => "port 0 cannot carry intercepted traffic"@,
        SettingsError::HoldNotANumber => "enter a hold time in milliseconds"@,
        SettingsError::HoldOutsideLimits => "hold time must be between 100 and 10000 ms"@,
        SettingsError::BatchNotANumber => "enter a packet count for each release batch"@,
        SettingsError::BatchOutsideLimits => "batch size must be between 1 and 250 packets"@,
        SettingsError::DelayNotANumber => "enter a delay in milliseconds"@,
        SettingsError::DelayOutsideLimits => "release delay must be between 0 and 100 ms"@,
    }
}

impl SettingsError {
    pub fn message(self) -> (r: &'static str)
        ensures
            r@ == settings_error_text(self),
    {
        match self {
            SettingsError::PortNotANumber => "enter a whole port number",
            SettingsError::PortZero => "port 0 cannot carry intercepted traffic",
            SettingsError::HoldNotANumber => "enter a hold time in milliseconds",
            SettingsError::HoldOutsideLimits => "hold time must be between 100 and 10000 ms",
            SettingsError::BatchNotANumber => "enter a packet count for each release batch",
            SettingsError::BatchOutsideLimits => "batch size must be between 1 and 250 packets",
            SettingsError::DelayNotANumber => "enter a delay in milliseconds",
            SettingsError::DelayOutsideLimits => "release delay must be between 0 and 100 ms",
        }
    }
}

/// What a typed port number is taken to be.
pub open spec fn port_from_text(s: Seq<char>) -> Result<u16, SettingsError> {
    match parse_unsigned(s, u16::MAX as nat) {
        None => Err(SettingsError::PortNotANumber),
        Some(n) => if n == 0 {
            Err(SettingsError::PortZero)
        } else {
            Ok(n as u16)
        },
    }
}

/// What a typed hold time is taken to be.
pub open spec fn hold_from_text(s: Seq<char>) -> Result<u64, SettingsError> {
    match parse_unsigned(s, u64::MAX as nat) {
        None => Err(SettingsError::HoldNotANumber),
        Some(n) => if SHORTEST_HOLD_MS <= n <= LONGEST_HOLD_MS {
            Ok(n as u64)
        } else {
            Err(SettingsError::HoldOutsideLimits)
        },
    }
}

/// What a typed release batch size is taken to be.
pub open spec fn batch_from_text(s: Seq<char>) -> Result<usize, SettingsError> {
    match parse_unsigned(s, usize::MAX as nat) {
        None => Err(SettingsError::BatchNotANumber),
        Some(n) => if MIN_RELEASE_BATCH_SIZE <= n <= MAX_RELEASE_BATCH_SIZE {
            Ok(n as usize)
        } else {
            Err(SettingsError::BatchOutsideLimits)
        },
    }
}

/// What a typed release delay is taken to be.
pub open spec fn delay_from_text(s: Seq<char>) -> Result<u64, SettingsError> {
    match parse_unsigned(s, u64::MAX as nat) {
        None => Err(SettingsError::DelayNotANumber),
        Some(n) => if n <= MAX_RELEASE_DELAY_MS {
            Ok(n as u64)
        } else {
            Err(SettingsError::DelayOutsideLimits)
        },
    }
}

pub fn checked_hold_value(entered: &str) -> (r: Result<u64, SettingsError>)
    ensures
        r == hold_from_text(entered@),
{
    let v = chars_of(entered);
    match parse_unsigned_range(&v, 0, v.len(), u64::MAX) {
        None => {
            assert(v@.subrange(0, v@.len() as int) =~= v@);
            Err(SettingsError::HoldNotANumber)
        },
        Some(n) => {
            assert(v@.subrange(0, v@.len() as int) =~= v@);
            if SHORTEST_HOLD_MS <= n && n <= LONGEST_HOLD_MS {
                Ok(n)
            } else {
                Err(SettingsError::HoldOutsideLimits)
            }
        },
    }
}

pub fn checked_batch_size(entered: &str) -> (r: Result<usize, SettingsError>)
    ensures
        r == batch_from_text(entered@),
{
    let v = chars_of(entered);
    assert(v@.subrange(0, v@.len() as int) =~= v@);
    match parse_unsigned_range(&v, 0, v.len(), usize::MAX as u64) {
        None => Err(SettingsError::BatchNotANumber),
        Some(n) => {
            if MIN_RELEASE_BATCH_SIZE as u64 <= n && n <= MAX_RELEASE_BATCH_SIZE as u64 {
                Ok(n as usize)
            } else {
                Err(SettingsError::BatchOutsideLimits)
            }
        },
    }
}

pub fn checked_release_delay(entered: &str) -> (r: Result<u64, SettingsError>)
    ensures
        r == delay_from_text(entered@),
{
    let v = chars_of(entered);
    assert(v@.subrange(0, v@.len() as int) =~= v@);
    match parse_unsigned_range(&v, 0, v.len(), u64::MAX) {
        None => Err(SettingsError::DelayNotANumber),
        Some(n) => {
            if n <= MAX_RELEASE_DELAY_MS {
                Ok(n)
            } else {
                Err(SettingsError::DelayOutsideLimits)
            }
        },
    }
}


/// The text shown for a rule's port.
pub open spec fn port_text(port: Option<u16>) -> Seq<char> {
    match port {
        None => "not set"@,
        Some(p) => decimal(p as nat),
    }
}

/// One direction of the capture filter: `direction` is `Dst` for packets sent
/// to the remote port and `Src` for its replies.
pub open spec fn filter_side(protocol: TrafficKind, port: u16, direction: Seq<char>) -> Seq<char> {
    let p = decimal(port as nat);
    match protocol {
        TrafficKind::Both => "((udp and udp."@ + direction + "Port == "@ + p + ") or (tcp and tcp."@
            + direction + "Port == "@ + p + "))"@,
        TrafficKind::Udp => "(udp and udp."@ + direction + "Port == "@ + p + ")"@,
        TrafficKind::Tcp => "(tcp and tcp."@ + direction + "Port == "@ + p + ")"@,
    }
}

/// The packet filter for a rule: outbound packets to the remote port and
/// inbound packets from it.
pub open spec fn filter_text(protocol: TrafficKind, port: u16) -> Seq<char> {
    "((outbound and "@ + filter_side(protocol, port, "Dst"@) + ") or (inbound and "@
        + filter_side(protocol, port, "Src"@) + "))"@
}

/// What traffic a hold window captures: a protocol choice and a remote port.
#[derive(Clone, Copy, Debug)]
pub struct TrafficRule {
    pub port: Option<u16>,
    pub protocol: TrafficKind,
}

impl Default for TrafficRule {
    fn default() -> (r: Self)
        ensures
            r.port is None,
            r.protocol == TrafficKind::Both,
    {
        TrafficRule { port: None, protocol: TrafficKind::Both }
    }
}

impl TrafficRule {
    pub fn summary(self) -> (r: String)
        ensures
            r@ == kind_menu_name(self.protocol) + " port "@ + port_text(self.port),
    {
        let mut r = String::from_str(self.protocol.menu_name());
        r.append(" port ");
        let name = self.port_name();
        r.append(name.as_str());
        r
    }

    pub fn port_name(self) -> (r: String)
        ensures
            r@ == port_text(self.port),
    {
        match self.port {
            None => String::from_str("not set"),
            Some(p) => {
                let mut r = String::new();
                push_decimal(&mut r, p as u64);
                assert(r@ =~= decimal(p as nat));
                r
            },
        }
    }

    pub fn has_port(self) -> (r: bool)
        ensures
            r == self.port.is_some(),
    {
        self.port.is_some()
    }

    pub fn set_port_from_text(&mut self, entered: &str) -> (r: Result<(), SettingsError>)
        ensures
            final(self).protocol == old(self).protocol,
            match port_from_text(entered@) {
                Ok(p) => r is Ok && final(self).port == Some(p),
                Err(e) => r == Err::<(), SettingsError>(e) && final(self).port == old(self).port,
            },
    {
        let v = chars_of(entered);
        assert(v@.subrange(0, v@.len() as int) =~= v@);
        match parse_unsigned_range(&v, 0, v.len(), 65535) {
            None => Err(SettingsError::PortNotANumber),
            Some(n) => {
                if n == 0 {
                    return Err(SettingsError::PortZero);
                }
                self.port = Some(n as u16);
                Ok(())
            },
        }
    }

    /// The packet filter that captures this rule's traffic.
    pub fn compile_for_windivert(self) -> (r: String)
        requires
            self.port.is_some(),
        ensures
            r@ == filter_text(self.protocol, self.port.unwrap()),
    {
        let outgoing = self.packet_side("Dst");
        let incoming = self.packet_side("Src");
        let mut r = String::from_str("((outbound and ");
        r.append(outgoing.as_str());
        r.append(") or (inbound and ");
        r.append(incoming.as_str());
        r.append("))");
        r
    }

    fn packet_side(self, direction: &str) -> (r: String)
        requires
            self.port.is_some(),
        ensures
            r@ == filter_side(self.protocol, self.port.unwrap(), direction@),
    {
        let port = match self.port {
            Some(p) => p,
            None => 0,
        };
        let mut p = String::new();
        push_decimal(&mut p, port as u64);
        assert(p@ =~= decimal(port as nat));
        let p = p.as_str();
        match self.protocol {
            TrafficKind::Both => {
                let mut r = String::from_str("((udp and udp.");
                r.append(direction);
                r.append("Port == ");
                r.append(p);
                r.append(") or (tcp and tcp.");
                r.append(direction);
                r.append("Port == ");
                r.append(p);
                r.append("))");
                r
            },
            TrafficKind::Udp => {
                let mut r = String::from_str("(udp and udp.");
                r.append(direction);
                r.append("Port == ");
                r.append(p);
                r.append(")");
                r
            },
            TrafficKind::Tcp => {
                let mut r = String::from_str("(tcp and tcp.");
                r.append(direction);
                r.append("Port == ");
                r.append(p);
                r.append(")");
                r
            },
        }
    }
}

/// How long matching traffic is held once triggered.
#[derive(Clone, Copy, Debug, PartialEq, Eq, Structural)]
pub enum HoldWindow {
    StockRandomized,
    Custom { min_ms: u64, max_ms: u64 },
}

/// The shortest hold a window allows.
pub open spec fn window_min(w: HoldWindow) -> u64 {
    match w {
        HoldWindow::StockRandomized => STOCK_HOLD_MIN_MS,
        HoldWindow::Custom { min_ms, .. } => min_ms,
    }
}

/// The longest hold a window allows.
pub open spec fn window_max(w: HoldWindow) -> u64 {
    match w {
        HoldWindow::StockRandomized => STOCK_HOLD_MAX_MS,
        HoldWindow::Custom { max_ms, .. } => max_ms,
    }
}

/// The word a hold window choice is shown and saved as.
pub open spec fn window_option_name(w: HoldWindow) -> Seq<char> {
    match w {
        HoldWindow::StockRandomized => "default"@,
        HoldWindow::Custom { .. } => "custom"@,
    }
}

/// The description of a hold window, such as `custom (1200-1600ms)`.
pub open spec fn window_description(w: HoldWindow) -> Seq<char> {
    window_option_name(w) + " ("@ + decimal(window_min(w) as nat) + "-"@ + decimal(
        window_max(w) as nat,
    ) + "ms)"@
}

impl HoldWindow {
    pub fn min_ms(&self) -> (r: u64)
        ensures
            r == window_min(*self),
    {
        match self {
            HoldWindow::StockRandomized => STOCK_HOLD_MIN_MS,
            HoldWindow::Custom { min_ms, .. } => *min_ms,
        }
    }

    pub fn max_ms(&self) -> (r: u64)
        ensures
            r == window_max(*self),
    {
        match self {
            HoldWindow::StockRandomized => STOCK_HOLD_MAX_MS,
            HoldWindow::Custom { max_ms, .. } => *max_ms,
        }
    }

    pub fn description(&self) -> (r: String)
        ensures
            r@ == window_description(*self),
    {
        let mut r = String::from_str(self.option_name());
        r.append(" (");
        push_decimal(&mut r, self.min_ms());
        r.append("-");
        push_decimal(&mut r, self.max_ms());
        r.append("ms)");
        r
    }

    pub fn option_name(&self) -> (r: &'static str)
        ensures
            r@ == window_option_name(*self),
    {
        match self {
            HoldWindow::StockRandomized => "default",
            HoldWindow::Custom { .. } => "custom",
        }
    }
}

/// How held packets are released: in batches, with a pause between them.
#[derive(Clone, Copy, Debug, PartialEq, Eq, Structural)]
pub enum ReleasePacing {
    Default,
    Custom { packets_per_batch: usize, pause_ms: u64 },
}

/// Packets per release batch under a pacing choice.
pub open spec fn pacing_batch(p: ReleasePacing) -> usize {
    match p {
        ReleasePacing::Default => DEFAULT_RELEASE_BATCH_SIZE,
        ReleasePacing::Custom { packets_per_batch, .. } => packets_per_batch,
    }
}

/// Pause between release batches under a pacing choice.
pub open spec fn pacing_pause(p: ReleasePacing) -> u64 {
    match p {
        ReleasePacing::Default => DEFAULT_RELEASE_DELAY_MS,
        ReleasePacing::Custom { pause_ms, .. } => pause_ms,
    }
}

/// The word a pacing choice is shown and saved as.
pub open spec fn pacing_option_name(p: ReleasePacing) -> Seq<char> {
    match p {
        ReleasePacing::Default => "default"@,
        ReleasePacing::Custom { .. } => "custom"@,
    }
}

/// The description of a pacing choice, such as `default (30 packets / 4ms)`.
pub open spec fn pacing_description(p: ReleasePacing) -> Seq<char> {
    pacing_option_name(p) + " ("@ + decimal(pacing_batch(p) as nat) + " packets / "@ + decimal(
        pacing_pause(p) as nat,
    ) + "ms)"@
}

impl ReleasePacing {
    pub fn packet_batch_size(&self) -> (r: usize)
        ensures
            r == pacing_batch(*self),
    {
        match self {
            ReleasePacing::Default => DEFAULT_RELEASE_BATCH_SIZE,
            ReleasePacing::Custom { packets_per_batch, .. } => *packets_per_batch,
        }
    }

    pub fn batch_pause_ms(&self) -> (r: u64)
        ensures
            r == pacing_pause(*self),
    {
        match self {
            ReleasePacing::Default => DEFAULT_RELEASE_DELAY_MS,
            ReleasePacing::Custom { pause_ms, .. } => *pause_ms,
        }
    }

    pub fn description(&self) -> (r: String)
        ensures
            r@ == pacing_description(*self),
    {
        let mut r = String::from_str(self.option_name());
        r.append(" (");
        push_decimal(&mut r, self.packet_batch_size() as u64);
        r.append(" packets / ");
        push_decimal(&mut r, self.batch_pause_ms());
        r.append("ms)");
        r
    }

    pub fn option_name(&self) -> (r: &'static str)
        ensures
            r@ == pacing_option_name(*self),
    {
        match self {
            ReleasePacing::Default => "default",
            ReleasePacing::Custom { .. } => "custom",
        }
    }
}


/// The contents of a settings value that the rules below speak of: every field
/// but the update status, which is never saved.
#[verifier::ext_equal]
pub struct SettingsModel {
    pub trigger_key: i32,
    pub trigger_name: Seq<char>,
    pub traffic_rule: TrafficRule,
    pub hold_window: HoldWindow,
    pub custom_hold: (u64, u64),
    pub release_pacing: ReleasePacing,
    pub custom_release: (usize, u64),
    pub always_on_top: bool,
}

/// The name shown for a trigger key code.
pub open spec fn trigger_key_label(virtual_key: i32) -> Seq<char> {
    if virtual_key == VK_F9 {
        "f9"@
    } else {
        "custom virtual key"@
    }
}

fn trigger_key_name(virtual_key: i32) -> (r: &'static str)
    ensures
        r@ == trigger_key_label(virtual_key),
{
    if virtual_key == VK_F9 {
        "f9"
    } else {
        "custom virtual key"
    }
}

/// The factory settings: F9 as trigger, no port yet, both protocols, the
/// default hold window and release pacing, not kept on top.
pub open spec fn factory_model() -> SettingsModel {
    SettingsModel {
        trigger_key: VK_F9,
        trigger_name: "f9"@,
        traffic_rule: TrafficRule { port: None, protocol: TrafficKind::Both },
        hold_window: HoldWindow::StockRandomized,
        custom_hold: (STOCK_HOLD_MIN_MS, STOCK_HOLD_MAX_MS),
        release_pacing: ReleasePacing::Default,
        custom_release: (DEFAULT_RELEASE_BATCH_SIZE, DEFAULT_RELEASE_DELAY_MS),
        always_on_top: false,
    }
}

/// What the settings keep true: the remembered custom values are within
/// their limits, and a custom choice in use is the remembered one.
pub open spec fn settings_well_formed(m: SettingsModel) -> bool {
    &&& SHORTEST_HOLD_MS <= m.custom_hold.0 <= m.custom_hold.1 <= LONGEST_HOLD_MS
    &&& MIN_RELEASE_BATCH_SIZE <= m.custom_release.0 <= MAX_RELEASE_BATCH_SIZE
    &&& m.custom_release.1 <= MAX_RELEASE_DELAY_MS
    &&& (m.hold_window matches HoldWindow::Custom { min_ms, max_ms } ==> (min_ms, max_ms)
        == m.custom_hold)
    &&& (m.release_pacing matches ReleasePacing::Custom { packets_per_batch, pause_ms } ==> (
    packets_per_batch,
    pause_ms,
    ) == m.custom_release)
}

/// Switching between the default and the custom hold window; the custom
/// values in use are remembered when the default is chosen.
pub open spec fn hold_switched(m: SettingsModel) -> SettingsModel {
    match m.hold_window {
        HoldWindow::StockRandomized => SettingsModel {
            hold_window: HoldWindow::Custom { min_ms: m.custom_hold.0, max_ms: m.custom_hold.1 },
            ..m
        },
        HoldWindow::Custom { min_ms, max_ms } => SettingsModel {
            hold_window: HoldWindow::StockRandomized,
            custom_hold: (min_ms, max_ms),
            ..m
        },
    }
}

/// Switching between the default and the custom release pacing.
pub open spec fn pacing_switched(m: SettingsModel) -> SettingsModel {
    match m.release_pacing {
        ReleasePacing::Default => SettingsModel {
            release_pacing: ReleasePacing::Custom {
                packets_per_batch: m.custom_release.0,
                pause_ms: m.custom_release.1,
            },
            ..m
        },
        ReleasePacing::Custom { packets_per_batch, pause_ms } => SettingsModel {
            release_pacing: ReleasePacing::Default,
            custom_release: (packets_per_batch, pause_ms),
            ..m
        },
    }
}

/// A new custom minimum hold: the maximum is raised to it if needed, and the
/// custom window is chosen.
pub open spec fn with_custom_minimum(m: SettingsModel, min_ms: u64) -> SettingsModel {
    let max_ms = if m.custom_hold.1 >= min_ms {
        m.custom_hold.1
    } else {
        min_ms
    };
    SettingsModel {
        custom_hold: (min_ms, max_ms),
        hold_window: HoldWindow::Custom { min_ms, max_ms },
        ..m
    }
}

/// A new custom maximum hold: the minimum is lowered to it if needed, and the
/// custom window is chosen.
pub open spec fn with_custom_maximum(m: SettingsModel, max_ms: u64) -> SettingsModel {
    let min_ms = if m.custom_hold.0 <= max_ms {
        m.custom_hold.0
    } else {
        max_ms
    };
    SettingsModel {
        custom_hold: (min_ms, max_ms),
        hold_window: HoldWindow::Custom { min_ms, max_ms },
        ..m
    }
}

/// A new custom batch size, with the custom pacing chosen.
pub open spec fn with_custom_batch(m: SettingsModel, batch: usize) -> SettingsModel {
    SettingsModel {
        custom_release: (batch, m.custom_release.1),
        release_pacing: ReleasePacing::Custom {
            packets_per_batch: batch,
            pause_ms: m.custom_release.1,
        },
        ..m
    }
}

/// A new custom pause between batches, with the custom pacing chosen.
pub open spec fn with_custom_delay(m: SettingsModel, pause_ms: u64) -> SettingsModel {
    SettingsModel {
        custom_release: (m.custom_release.0, pause_ms),
        release_pacing: ReleasePacing::Custom { packets_per_batch: m.custom_release.0, pause_ms },
        ..m
    }
}

/// Everything the user configures before starting a capture.
pub struct InterceptorSettings {
    pub trigger_key: i32,
    pub trigger_name: String,
    pub traffic_rule: TrafficRule,
    pub hold_window: HoldWindow,
    /// The custom hold window last entered; kept while the default is in use.
    pub remembered_custom_hold: (u64, u64),
    pub release_pacing: ReleasePacing,
    /// The custom release pacing last entered; kept while the default is in use.
    pub remembered_custom_release: (usize, u64),
    pub always_on_top: bool,
    pub update_status: UpdateStatus,
}

impl Clone for InterceptorSettings {
    fn clone(&self) -> (r: Self)
        ensures
            r.model() == self.model(),
            r.update_status@ == self.update_status@,
    {
        InterceptorSettings {
            trigger_key: self.trigger_key,
            trigger_name: self.trigger_name.clone(),
            traffic_rule: self.traffic_rule,
            hold_window: self.hold_window,
            remembered_custom_hold: self.remembered_custom_hold,
            release_pacing: self.release_pacing,
            remembered_custom_release: self.remembered_custom_release,
            always_on_top: self.always_on_top,
            update_status: self.update_status.clone(),
        }
    }
}

impl Default for InterceptorSettings {
    fn default() -> (r: Self)
        ensures
            r.model() == factory_model(),
            r.update_status == UpdateStatus::Checking,
    {
        Self::with_update_status(UpdateStatus::Checking)
    }
}

impl InterceptorSettings {
    pub open spec fn model(&self) -> SettingsModel {
        SettingsModel {
            trigger_key: self.trigger_key,
            trigger_name: self.trigger_name@,
            traffic_rule: self.traffic_rule,
            hold_window: self.hold_window,
            custom_hold: self.remembered_custom_hold,
            release_pacing: self.release_pacing,
            custom_release: self.remembered_custom_release,
            always_on_top: self.always_on_top,
        }
    }

    /// Factory settings with the given update status.
    pub fn with_update_status(update_status: UpdateStatus) -> (r: Self)
        ensures
            r.model() == factory_model(),
            r.update_status == update_status,
    {
        Self {
            trigger_key: VK_F9,
            trigger_name: String::from_str(trigger_key_name(VK_F9)),
            traffic_rule: TrafficRule::default(),
            hold_window: HoldWindow::StockRandomized,
            remembered_custom_hold: (STOCK_HOLD_MIN_MS, STOCK_HOLD_MAX_MS),
            release_pacing: ReleasePacing::Default,
            remembered_custom_release: (DEFAULT_RELEASE_BATCH_SIZE, DEFAULT_RELEASE_DELAY_MS),
            always_on_top: false,
            update_status,
        }
    }

    /// Goes back to the factory settings, keeping the update status.
    pub fn restore_defaults(&mut self)
        ensures
            final(self).model() == factory_model(),
            final(self).update_status == old(self).update_status,
    {
        let mut status = UpdateStatus::Checking;
        std::mem::swap(&mut status, &mut self.update_status);
        *self = Self::with_update_status(status);
    }

    pub fn switch_hold_window(&mut self)
        ensures
            final(self).model() == hold_switched(old(self).model()),
            final(self).update_status == old(self).update_status,
    {
        match self.hold_window {
            HoldWindow::StockRandomized => {
                self.hold_window = HoldWindow::Custom {
                    min_ms: self.remembered_custom_hold.0,
                    max_ms: self.remembered_custom_hold.1,
                };
            },
            HoldWindow::Custom { min_ms, max_ms } => {
                self.remembered_custom_hold = (min_ms, max_ms);
                self.hold_window = HoldWindow::StockRandomized;
            },
        }
    }

    pub fn change_custom_minimum(&mut self, entered: &str) -> (r: Result<(), SettingsError>)
        ensures
            final(self).update_status == old(self).update_status,
            match hold_from_text(entered@) {
                Ok(n) => r is Ok && final(self).model() == with_custom_minimum(old(self).model(), n),
                Err(e) => r == Err::<(), SettingsError>(e) && final(self).model() == old(self).model(),
            },
    {
        let min_ms = match checked_hold_value(entered) {
            Ok(n) => n,
            Err(e) => return Err(e),
        };
        let max_ms = if self.remembered_custom_hold.1 >= min_ms {
            self.remembered_custom_hold.1
        } else {
            min_ms
        };
        self.remembered_custom_hold = (min_ms, max_ms);
        self.hold_window = HoldWindow::Custom { min_ms, max_ms };
        Ok(())
    }

    pub fn change_custom_maximum(&mut self, entered: &str) -> (r: Result<(), SettingsError>)
        ensures
            final(self).update_status == old(self).update_status,
            match hold_from_text(entered@) {
                Ok(n) => r is Ok && final(self).model() == with_custom_maximum(old(self).model(), n),
                Err(e) => r == Err::<(), SettingsError>(e) && final(self).model() == old(self).model(),
            },
    {
        let max_ms = match checked_hold_value(entered) {
            Ok(n) => n,
            Err(e) => return Err(e),
        };
        let min_ms = if self.remembered_custom_hold.0 <= max_ms {
            self.remembered_custom_hold.0
        } else {
            max_ms
        };
        self.remembered_custom_hold = (min_ms, max_ms);
        self.hold_window = HoldWindow::Custom { min_ms, max_ms };
        Ok(())
    }

    pub fn custom_min_ms(&self) -> (r: u64)
        ensures
            r == self.remembered_custom_hold.0,
    {
        self.remembered_custom_hold.0
    }

    pub fn custom_max_ms(&self) -> (r: u64)
        ensures
            r == self.remembered_custom_hold.1,
    {
        self.remembered_custom_hold.1
    }

    pub fn switch_release_pacing(&mut self)
        ensures
            final(self).model() == pacing_switched(old(self).model()),
            final(self).update_status == old(self).update_status,
    {
        match self.release_pacing {
            ReleasePacing::Default => {
                self.release_pacing = ReleasePacing::Custom {
                    packets_per_batch: self.remembered_custom_release.0,
                    pause_ms: self.remembered_custom_release.1,
                };
            },
            ReleasePacing::Custom { packets_per_batch, pause_ms } => {
                self.remembered_custom_release = (packets_per_batch, pause_ms);
                self.release_pacing = ReleasePacing::Default;
            },
        }
    }

    pub fn change_custom_batch_size(&mut self, entered: &str) -> (r: Result<(), SettingsError>)
        ensures
            final(self).update_status == old(self).update_status,
            match batch_from_text(entered@) {
                Ok(n) => r is Ok && final(self).model() == with_custom_batch(old(self).model(), n),
                Err(e) => r == Err::<(), SettingsError>(e) && final(self).model() == old(self).model(),
            },
    {
        let packets_per_batch = match checked_batch_size(entered) {
            Ok(n) => n,
            Err(e) => return Err(e),
        };
        self.remembered_custom_release.0 = packets_per_batch;
        self.release_pacing = ReleasePacing::Custom {
            packets_per_batch,
            pause_ms: self.remembered_custom_release.1,
        };
        Ok(())
    }

    pub fn change_custom_release_delay(&mut self, entered: &str) -> (r: Result<(), SettingsError>)
        ensures
            final(self).update_status == old(self).update_status,
            match delay_from_text(entered@) {
                Ok(n) => r is Ok && final(self).model() == with_custom_delay(old(self).model(), n),
                Err(e) => r == Err::<(), SettingsError>(e) && final(self).model() == old(self).model(),
            },
    {
        let pause_ms = match checked_release_delay(entered) {
            Ok(n) => n,
            Err(e) => return Err(e),
        };
        self.remembered_custom_release.1 = pause_ms;
        self.release_pacing = ReleasePacing::Custom {
            packets_per_batch: self.remembered_custom_release.0,
            pause_ms,
        };
        Ok(())
    }

    pub fn custom_batch_size(&self) -> (r: usize)
        ensures
            r == self.remembered_custom_release.0,
    {
        self.remembered_custom_release.0
    }

    pub fn custom_release_delay_ms(&self) -> (r: u64)
        ensures
            r == self.remembered_custom_release.1,
    {
        self.remembered_custom_release.1
    }

    pub fn always_on_top_name(&self) -> (r: &'static str)
        ensures
            r@ == (if self.always_on_top {
                "on"@
            } else {
                "off"@
            }),
    {
        if self.always_on_top {
            "on"
        } else {
            "off"
        }
    }
}

/// The factory settings keep the rules of `settings_well_formed`, and every
/// change the settings offer keeps them too.
pub proof fn law_settings_stay_well_formed(m: SettingsModel, n: u64, b: usize)
    ensures
        settings_well_formed(factory_model()),
        settings_well_formed(m) ==> settings_well_formed(hold_switched(m)),
        settings_well_formed(m) ==> settings_well_formed(pacing_switched(m)),
        settings_well_formed(m) && SHORTEST_HOLD_MS <= n <= LONGEST_HOLD_MS
            ==> settings_well_formed(with_custom_minimum(m, n)),
        settings_well_formed(m) && SHORTEST_HOLD_MS <= n <= LONGEST_HOLD_MS
            ==> settings_well_formed(with_custom_maximum(m, n)),
        settings_well_formed(m) && MIN_RELEASE_BATCH_SIZE <= b <= MAX_RELEASE_BATCH_SIZE
            ==> settings_well_formed(with_custom_batch(m, b)),
        settings_well_formed(m) && n <= MAX_RELEASE_DELAY_MS ==> settings_well_formed(
            with_custom_delay(m, n),
        ),
{
}

/// Choosing the default hold window and then the custom one again gives back
/// the custom window that was in use; from the default window, two switches
/// change nothing at all.
pub proof fn law_hold_switch_twice(m: SettingsModel)
    ensures
        hold_switched(hold_switched(m)).hold_window == m.hold_window,
        m.hold_window == HoldWindow::StockRandomized ==> hold_switched(hold_switched(m)) == m,
        settings_well_formed(m) ==> hold_switched(hold_switched(m)) == m,
{
}

/// Choosing the default release pacing and then the custom one again gives
/// back the custom pacing that was in use.
pub proof fn law_pacing_switch_twice(m: SettingsModel)
    ensures
        pacing_switched(pacing_switched(m)).release_pacing == m.release_pacing,
        m.release_pacing == ReleasePacing::Default ==> pacing_switched(pacing_switched(m)) == m,
        settings_well_formed(m) ==> pacing_switched(pacing_switched(m)) == m,
{
}


/// Entering one custom value keeps the other one remembered and chooses the
/// custom setting with both. A new batch size keeps the remembered pause, and
/// a new pause keeps the remembered batch size, so entering a pause and then
/// a batch size (or the other way round) gives the custom pacing with both.
/// A new hold minimum keeps the remembered maximum unless that is below the
/// new minimum, when the maximum is raised to it; a new maximum likewise
/// keeps or lowers the minimum, so entering a minimum and then a maximum not
/// below it gives exactly that window. No other setting changes.
pub proof fn law_custom_values_keep_the_other_end(
    m: SettingsModel,
    batch: usize,
    pause: u64,
    low: u64,
    high: u64,
)
    ensures
        with_custom_batch(m, batch).custom_release == (batch, m.custom_release.1),
        with_custom_batch(m, batch).release_pacing == (ReleasePacing::Custom {
            packets_per_batch: batch,
            pause_ms: m.custom_release.1,
        }),
        with_custom_delay(m, pause).custom_release == (m.custom_release.0, pause),
        with_custom_delay(m, pause).release_pacing == (ReleasePacing::Custom {
            packets_per_batch: m.custom_release.0,
            pause_ms: pause,
        }),
        with_custom_batch(with_custom_delay(m, pause), batch).release_pacing == (
        ReleasePacing::Custom { packets_per_batch: batch, pause_ms: pause }),
        with_custom_delay(with_custom_batch(m, batch), pause).release_pacing == (
        ReleasePacing::Custom { packets_per_batch: batch, pause_ms: pause }),
        with_custom_batch(m, batch).hold_window == m.hold_window,
        with_custom_batch(m, batch).custom_hold == m.custom_hold,
        with_custom_delay(m, pause).hold_window == m.hold_window,
        with_custom_delay(m, pause).custom_hold == m.custom_hold,
        with_custom_minimum(m, low).custom_hold.0 == low,
        m.custom_hold.1 >= low ==> with_custom_minimum(m, low).custom_hold.1 == m.custom_hold.1,
        m.custom_hold.1 < low ==> with_custom_minimum(m, low).custom_hold.1 == low,
        with_custom_minimum(m, low).hold_window == (HoldWindow::Custom {
            min_ms: low,
            max_ms: with_custom_minimum(m, low).custom_hold.1,
        }),
        with_custom_maximum(m, high).custom_hold.1 == high,
        m.custom_hold.0 <= high ==> with_custom_maximum(m, high).custom_hold.0 == m.custom_hold.0,
        m.custom_hold.0 > high ==> with_custom_maximum(m, high).custom_hold.0 == high,
        with_custom_maximum(m, high).hold_window == (HoldWindow::Custom {
            min_ms: with_custom_maximum(m, high).custom_hold.0,
            max_ms: high,
        }),
        low <= high ==> with_custom_maximum(with_custom_minimum(m, low), high).hold_window == (
        HoldWindow::Custom { min_ms: low, max_ms: high }),
        with_custom_minimum(m, low).release_pacing == m.release_pacing,
        with_custom_minimum(m, low).custom_release == m.custom_release,
        with_custom_maximum(m, high).release_pacing == m.release_pacing,
        with_custom_maximum(m, high).custom_release == m.custom_release,
        with_custom_batch(m, batch).traffic_rule == m.traffic_rule,
        with_custom_delay(m, pause).traffic_rule == m.traffic_rule,
        with_custom_minimum(m, low).traffic_rule == m.traffic_rule,
        with_custom_maximum(m, high).traffic_rule == m.traffic_rule,
{
}

/// The saved text of a port: its number, or nothing when no port is set.
pub open spec fn port_saved_text(port: Option<u16>) -> Seq<char> {
    match port {
        None => Seq::empty(),
        Some(p) => decimal(p as nat),
    }
}

/// The saved text of a yes/no setting.
pub open spec fn flag_text(b: bool) -> Seq<char> {
    if b {
        "true"@
    } else {
        "false"@
    }
}

/// The settings in the order they are saved.
pub open spec fn saved_keys() -> Seq<SettingKey> {
    seq![
        SettingKey::TriggerKey,
        SettingKey::TriggerName,
        SettingKey::Port,
        SettingKey::Protocol,
        SettingKey::AlwaysOnTop,
        SettingKey::HoldWindow,
        SettingKey::CustomHoldMin,
        SettingKey::CustomHoldMax,
        SettingKey::ReleasePacing,
        SettingKey::CustomBatchSize,
        SettingKey::CustomBatchDelay,
    ]
}

/// The saved text of one setting.
pub open spec fn saved_value_of(m: SettingsModel, k: SettingKey) -> Seq<char> {
    match k {
        SettingKey::TriggerKey => signed_decimal(m.trigger_key as int),
        SettingKey::TriggerName => m.trigger_name,
        SettingKey::Port => port_saved_text(m.traffic_rule.port),
        SettingKey::Protocol => kind_saved_name(m.traffic_rule.protocol),
        SettingKey::AlwaysOnTop => flag_text(m.always_on_top),
        SettingKey::HoldWindow => window_option_name(m.hold_window),
        SettingKey::CustomHoldMin => decimal(m.custom_hold.0 as nat),
        SettingKey::CustomHoldMax => decimal(m.custom_hold.1 as nat),
        SettingKey::ReleasePacing => pacing_option_name(m.release_pacing),
        SettingKey::CustomBatchSize => decimal(m.custom_release.0 as nat),
        SettingKey::CustomBatchDelay => decimal(m.custom_release.1 as nat),
    }
}

/// The lines of saved settings, as key and value, in the order they are written.
pub open spec fn saved_fields(m: SettingsModel) -> Seq<(SettingKey, Seq<char>)> {
    saved_keys().map_values(|k: SettingKey| (k, saved_value_of(m, k)))
}

/// One saved line: `key=value` and a line break.
pub open spec fn saved_line(k: SettingKey, value: Seq<char>) -> Seq<char> {
    key_text(k) + "="@ + value + "\n"@
}

/// The saved lines of `fields`, one after the other.
pub open spec fn lines_text(fields: Seq<(SettingKey, Seq<char>)>) -> Seq<char>
    decreases fields.len(),
{
    if fields.len() == 0 {
        Seq::empty()
    } else {
        lines_text(fields.drop_last()) + saved_line(fields.last().0, fields.last().1)
    }
}

/// The text that settings are saved as.
pub open spec fn saved_text(m: SettingsModel) -> Seq<char> {
    lines_text(saved_fields(m))
}

impl InterceptorSettings {
    /// Appends the saved text of one setting.
    fn push_saved_value(&self, r: &mut String, k: SettingKey)
        ensures
            final(r)@ == old(r)@ + saved_value_of(self.model(), k),
    {
        match k {
            SettingKey::TriggerKey => push_i32_decimal(r, self.trigger_key),
            SettingKey::TriggerName => r.append(self.trigger_name.as_str()),
            SettingKey::Port => match self.traffic_rule.port {
                Some(p) => push_decimal(r, p as u64),
                None => {
                    assert(old(r)@ + port_saved_text(None) =~= old(r)@);
                },
            },
            SettingKey::Protocol => r.append(self.traffic_rule.protocol.saved_name()),
            SettingKey::AlwaysOnTop => r.append(
                if self.always_on_top {
                    "true"
                } else {
                    "false"
                },
            ),
            SettingKey::HoldWindow => r.append(self.hold_window.option_name()),
            SettingKey::CustomHoldMin => push_decimal(r, self.remembered_custom_hold.0),
            SettingKey::CustomHoldMax => push_decimal(r, self.remembered_custom_hold.1),
            SettingKey::ReleasePacing => r.append(self.release_pacing.option_name()),
            SettingKey::CustomBatchSize => push_decimal(r, self.remembered_custom_release.0 as u64),
            SettingKey::CustomBatchDelay => push_decimal(r, self.remembered_custom_release.1),
        }
    }

    /// The settings as saved text; the update status is not part of it.
    pub fn saved_values(&self) -> (r: String)
        ensures
            r@ == saved_text(self.model()),
    {
        let keys = vec![
            SettingKey::TriggerKey,
            SettingKey::TriggerName,
            SettingKey::Port,
            SettingKey::Protocol,
            SettingKey::AlwaysOnTop,
            SettingKey::HoldWindow,
            SettingKey::CustomHoldMin,
            SettingKey::CustomHoldMax,
            SettingKey::ReleasePacing,
            SettingKey::CustomBatchSize,
            SettingKey::CustomBatchDelay,
        ];
        assert(keys@ =~= saved_keys());
        let ghost fields = saved_fields(self.model());
        let mut r = String::new();
        let mut i: usize = 0;
        assert(fields.take(0) =~= Seq::<(SettingKey, Seq<char>)>::empty());
        while i < keys.len()
            invariant
                keys@ == saved_keys(),
                fields == saved_fields(self.model()),
                i <= keys.len(),
                r@ == lines_text(fields.take(i as int)),
            decreases keys.len() - i,
        {
            let k = keys[i];
            r.append(k.name());
            r.append("=");
            self.push_saved_value(&mut r, k);
            r.append("\n");
            assert(fields.take(i + 1).drop_last() =~= fields.take(i as int));
            assert(fields.take(i + 1).last() == (k, saved_value_of(self.model(), k)));
            i = i + 1;
        }
        assert(fields.take(11) =~= fields);
        r
    }
}


/// The saved text under `k`, or that it is missing.
pub open spec fn saved_value(saved: Map<Seq<char>, Seq<char>>, k: SettingKey) -> Result<
    Seq<char>,
    SavedSettingsError,
> {
    if saved.contains_key(key_text(k)) {
        Ok(saved[key_text(k)])
    } else {
        Err(SavedSettingsError::Missing(k))
    }
}

/// The unsigned number saved under `k`.
pub open spec fn saved_number(saved: Map<Seq<char>, Seq<char>>, k: SettingKey) -> Result<
    u64,
    SavedSettingsError,
> {
    match saved_value(saved, k) {
        Err(e) => Err(e),
        Ok(t) => match parse_unsigned(t, u64::MAX as nat) {
            Some(n) => Ok(n as u64),
            None => Err(SavedSettingsError::Invalid(k)),
        },
    }
}

/// The signed 32-bit number saved under `k`.
pub open spec fn saved_signed(saved: Map<Seq<char>, Seq<char>>, k: SettingKey) -> Result<
    i32,
    SavedSettingsError,
> {
    match saved_value(saved, k) {
        Err(e) => Err(e),
        Ok(t) => match parse_signed(t, 0x8000_0000, 0x7fff_ffff) {
            Some(n) => Ok(n as i32),
            None => Err(SavedSettingsError::Invalid(k)),
        },
    }
}

/// The yes/no value saved under `k`: exactly `true` or `false`.
pub open spec fn saved_flag(saved: Map<Seq<char>, Seq<char>>, k: SettingKey) -> Result<
    bool,
    SavedSettingsError,
> {
    match saved_value(saved, k) {
        Err(e) => Err(e),
        Ok(t) => if t == "true"@ {
            Ok(true)
        } else if t == "false"@ {
            Ok(false)
        } else {
            Err(SavedSettingsError::Invalid(k))
        },
    }
}

/// The port that a saved port text stands for: none when empty.
pub open spec fn saved_port(t: Seq<char>) -> Result<Option<u16>, SavedSettingsError> {
    if t.len() == 0 {
        Ok(None)
    } else {
        match port_from_text(t) {
            Ok(p) => Ok(Some(p)),
            Err(e) => Err(SavedSettingsError::InvalidPort(e)),
        }
    }
}

/// Applies the saved trigger, traffic rule and always-on-top choice, in that
/// order; a problem stops it, leaving what was applied before in place.
pub open spec fn apply_saved_identity(m: SettingsModel, saved: Map<Seq<char>, Seq<char>>) -> (
    SettingsModel,
    Result<(), SavedSettingsError>,
) {
    match saved_signed(saved, SettingKey::TriggerKey) {
        Err(e) => (m, Err(e)),
        Ok(key) => {
            let m = SettingsModel { trigger_key: key, ..m };
            match saved_value(saved, SettingKey::TriggerName) {
                Err(e) => (m, Err(e)),
                Ok(name) => {
                    let m = SettingsModel { trigger_name: name, ..m };
                    match saved_value(saved, SettingKey::Port) {
                        Err(e) => (m, Err(e)),
                        Ok(t) => match saved_port(t) {
                            Err(e) => (m, Err(e)),
                            Ok(port) => {
                                let m = SettingsModel {
                                    traffic_rule: TrafficRule { port, ..m.traffic_rule },
                                    ..m
                                };
                                match saved_value(saved, SettingKey::Protocol) {
                                    Err(e) => (m, Err(e)),
                                    Ok(w) => match kind_from_saved_name(w) {
                                        None => (m, Err(SavedSettingsError::InvalidProtocol)),
                                        Some(protocol) => {
                                            let m = SettingsModel {
                                                traffic_rule: TrafficRule {
                                                    protocol,
                                                    ..m.traffic_rule
                                                },
                                                ..m
                                            };
                                            match saved_flag(saved, SettingKey::AlwaysOnTop) {
                                                Err(e) => (m, Err(e)),
                                                Ok(b) => (
                                                    SettingsModel { always_on_top: b, ..m },
                                                    Ok(()),
                                                ),
                                            }
                                        },
                                    },
                                }
                            },
                        },
                    }
                },
            }
        },
    }
}

/// Applies the saved hold window, checking its limits first.
pub open spec fn apply_saved_hold(m: SettingsModel, saved: Map<Seq<char>, Seq<char>>) -> (
    SettingsModel,
    Result<(), SavedSettingsError>,
) {
    match saved_number(saved, SettingKey::CustomHoldMin) {
        Err(e) => (m, Err(e)),
        Ok(min_ms) => match saved_number(saved, SettingKey::CustomHoldMax) {
            Err(e) => (m, Err(e)),
            Ok(max_ms) => if !(SHORTEST_HOLD_MS <= min_ms <= LONGEST_HOLD_MS) {
                (m, Err(SavedSettingsError::HoldMinimumOutOfRange))
            } else if !(SHORTEST_HOLD_MS <= max_ms <= LONGEST_HOLD_MS) {
                (m, Err(SavedSettingsError::HoldMaximumOutOfRange))
            } else if min_ms > max_ms {
                (m, Err(SavedSettingsError::HoldMinimumAboveMaximum))
            } else {
                let m = SettingsModel { custom_hold: (min_ms, max_ms), ..m };
                match saved_value(saved, SettingKey::HoldWindow) {
                    Err(e) => (m, Err(e)),
                    Ok(w) => if w == "default"@ {
                        (SettingsModel { hold_window: HoldWindow::StockRandomized, ..m }, Ok(()))
                    } else if w == "custom"@ {
                        (
                            SettingsModel { hold_window: HoldWindow::Custom { min_ms, max_ms }, ..m },
                            Ok(()),
                        )
                    } else {
                        (m, Err(SavedSettingsError::InvalidHoldMode))
                    },
                }
            },
        },
    }
}

/// Applies the saved release pacing, checking its limits first.
pub open spec fn apply_saved_release(m: SettingsModel, saved: Map<Seq<char>, Seq<char>>) -> (
    SettingsModel,
    Result<(), SavedSettingsError>,
) {
    match saved_number(saved, SettingKey::CustomBatchSize) {
        Err(e) => (m, Err(e)),
        Ok(batch) => if batch > usize::MAX {
            (m, Err(SavedSettingsError::BatchSizeOutOfRange))
        } else {
            match saved_number(saved, SettingKey::CustomBatchDelay) {
                Err(e) => (m, Err(e)),
                Ok(pause_ms) => if !(MIN_RELEASE_BATCH_SIZE <= batch <= MAX_RELEASE_BATCH_SIZE) {
                    (m, Err(SavedSettingsError::BatchSizeOutOfRange))
                } else if pause_ms > MAX_RELEASE_DELAY_MS {
                    (m, Err(SavedSettingsError::BatchDelayOutOfRange))
                } else {
                    let m = SettingsModel { custom_release: (batch as usize, pause_ms), ..m };
                    match saved_value(saved, SettingKey::ReleasePacing) {
                        Err(e) => (m, Err(e)),
                        Ok(w) => if w == "default"@ {
                            (SettingsModel { release_pacing: ReleasePacing::Default, ..m }, Ok(()))
                        } else if w == "custom"@ {
                            (
                                SettingsModel {
                                    release_pacing: ReleasePacing::Custom {
                                        packets_per_batch: batch as usize,
                                        pause_ms,
                                    },
                                    ..m
                                },
                                Ok(()),
                            )
                        } else {
                            (m, Err(SavedSettingsError::InvalidPacingMode))
                        },
                    }
                },
            }
        },
    }
}

/// Applies saved settings: identity first, then hold window, then release
/// pacing; the first problem stops it, leaving what was applied before.
pub open spec fn apply_saved(m: SettingsModel, saved: Map<Seq<char>, Seq<char>>) -> (
    SettingsModel,
    Result<(), SavedSettingsError>,
) {
    let (m1, r1) = apply_saved_identity(m, saved);
    match r1 {
        Err(e) => (m1, Err(e)),
        Ok(_) => {
            let (m2, r2) = apply_saved_hold(m1, saved);
            match r2 {
                Err(e) => (m2, Err(e)),
                Ok(_) => apply_saved_release(m2, saved),
            }
        },
    }
}

/// The characters saved under `k`.
fn saved_chars<'a>(saved: &'a SavedConfig, k: SettingKey) -> (r: Result<&'a Vec<char>, SavedSettingsError>)
    ensures
        match saved_value(saved@, k) {
            Ok(t) => r is Ok && r->Ok_0@ == t,
            Err(e) => r == Err::<&Vec<char>, SavedSettingsError>(e),
        },
{
    let key = chars_of(k.name());
    match saved.lookup(&key) {
        Some(v) => Ok(v),
        None => Err(SavedSettingsError::Missing(k)),
    }
}

fn saved_u64(saved: &SavedConfig, k: SettingKey) -> (r: Result<u64, SavedSettingsError>)
    ensures
        r == saved_number(saved@, k),
{
    let v = saved_chars(saved, k)?;
    assert(v@.subrange(0, v@.len() as int) =~= v@);
    match parse_unsigned_range(v, 0, v.len(), u64::MAX) {
        Some(n) => Ok(n),
        None => Err(SavedSettingsError::Invalid(k)),
    }
}

fn saved_i32(saved: &SavedConfig, k: SettingKey) -> (r: Result<i32, SavedSettingsError>)
    ensures
        r == saved_signed(saved@, k),
{
    let v = saved_chars(saved, k)?;
    assert(v@.subrange(0, v@.len() as int) =~= v@);
    match parse_i32_range(v, 0, v.len()) {
        Some(n) => Ok(n),
        None => Err(SavedSettingsError::Invalid(k)),
    }
}

fn saved_bool(saved: &SavedConfig, k: SettingKey) -> (r: Result<bool, SavedSettingsError>)
    ensures
        r == saved_flag(saved@, k),
{
    let v = saved_chars(saved, k)?;
    if same_chars(v, &chars_of("true")) {
        Ok(true)
    } else if same_chars(v, &chars_of("false")) {
        Ok(false)
    } else {
        Err(SavedSettingsError::Invalid(k))
    }
}

fn saved_mode_is(v: &Vec<char>, word: &str) -> (r: bool)
    ensures
        r == (v@ == word@),
{
    same_chars(v, &chars_of(word))
}

impl InterceptorSettings {
    fn apply_saved_identity_values(&mut self, saved: &SavedConfig) -> (r: Result<(), SavedSettingsError>)
        ensures
            (final(self).model(), r) == apply_saved_identity(old(self).model(), saved@),
            final(self).update_status == old(self).update_status,
    {
        self.trigger_key = saved_i32(saved, SettingKey::TriggerKey)?;
        self.trigger_name = crate::text::string_from_chars(saved_chars(saved, SettingKey::TriggerName)?);
        let port = saved_chars(saved, SettingKey::Port)?;
        if port.len() == 0 {
            self.traffic_rule.port = None;
        } else {
            let port_text = crate::text::string_from_chars(port);
            match self.traffic_rule.set_port_from_text(port_text.as_str()) {
                Ok(()) => {},
                Err(e) => return Err(SavedSettingsError::InvalidPort(e)),
            }
        }
        let protocol = saved_chars(saved, SettingKey::Protocol)?;
        match TrafficKind::from_saved_name(protocol) {
            Some(kind) => self.traffic_rule.protocol = kind,
            None => return Err(SavedSettingsError::InvalidProtocol),
        }
        self.always_on_top = saved_bool(saved, SettingKey::AlwaysOnTop)?;
        Ok(())
    }

    fn apply_saved_hold_values(&mut self, saved: &SavedConfig) -> (r: Result<(), SavedSettingsError>)
        ensures
            (final(self).model(), r) == apply_saved_hold(old(self).model(), saved@),
            final(self).update_status == old(self).update_status,
    {
        let min_ms = saved_u64(saved, SettingKey::CustomHoldMin)?;
        let max_ms = saved_u64(saved, SettingKey::CustomHoldMax)?;
        if !(SHORTEST_HOLD_MS <= min_ms && min_ms <= LONGEST_HOLD_MS) {
            return Err(SavedSettingsError::HoldMinimumOutOfRange);
        }
        if !(SHORTEST_HOLD_MS <= max_ms && max_ms <= LONGEST_HOLD_MS) {
            return Err(SavedSettingsError::HoldMaximumOutOfRange);
        }
        if min_ms > max_ms {
            return Err(SavedSettingsError::HoldMinimumAboveMaximum);
        }
        self.remembered_custom_hold = (min_ms, max_ms);
        let mode = saved_chars(saved, SettingKey::HoldWindow)?;
        if saved_mode_is(mode, "default") {
            self.hold_window = HoldWindow::StockRandomized;
        } else if saved_mode_is(mode, "custom") {
            self.hold_window = HoldWindow::Custom { min_ms, max_ms };
        } else {
            return Err(SavedSettingsError::InvalidHoldMode);
        }
        Ok(())
    }

    fn apply_saved_release_values(&mut self, saved: &SavedConfig) -> (r: Result<(), SavedSettingsError>)
        ensures
            (final(self).model(), r) == apply_saved_release(old(self).model(), saved@),
            final(self).update_status == old(self).update_status,
    {
        let batch = saved_u64(saved, SettingKey::CustomBatchSize)?;
        if batch > usize::MAX as u64 {
            return Err(SavedSettingsError::BatchSizeOutOfRange);
        }
        let batch_size = batch as usize;
        let pause_ms = saved_u64(saved, SettingKey::CustomBatchDelay)?;
        if !(MIN_RELEASE_BATCH_SIZE <= batch_size && batch_size <= MAX_RELEASE_BATCH_SIZE) {
            return Err(SavedSettingsError::BatchSizeOutOfRange);
        }
        if pause_ms > MAX_RELEASE_DELAY_MS {
            return Err(SavedSettingsError::BatchDelayOutOfRange);
        }
        self.remembered_custom_release = (batch_size, pause_ms);
        let mode = saved_chars(saved, SettingKey::ReleasePacing)?;
        if saved_mode_is(mode, "default") {
            self.release_pacing = ReleasePacing::Default;
        } else if saved_mode_is(mode, "custom") {
            self.release_pacing = ReleasePacing::Custom { packets_per_batch: batch_size, pause_ms };
        } else {
            return Err(SavedSettingsError::InvalidPacingMode);
        }
        Ok(())
    }

    /// Applies saved settings read by `parse_saved_config`.
    pub fn apply_saved_values(&mut self, saved: &SavedConfig) -> (r: Result<(), SavedSettingsError>)
        ensures
            (final(self).model(), r) == apply_saved(old(self).model(), saved@),
            final(self).update_status == old(self).update_status,
    {
        self.apply_saved_identity_values(saved)?;
        self.apply_saved_hold_values(saved)?;
        self.apply_saved_release_values(saved)
    }

    /// Reads saved settings text and applies what it holds; text with a
    /// malformed line changes nothing.
    pub fn apply_saved_text(&mut self, text: &str) -> (r: Result<(), SavedSettingsError>)
        ensures
            match saved_config_of(text@) {
                Ok(saved) => (final(self).model(), r) == apply_saved(old(self).model(), saved),
                Err(n) => final(self).model() == old(self).model() && r == Err::<
                    (),
                    SavedSettingsError,
                >(SavedSettingsError::LineWithoutEquals { line: n as usize }),
            },
            final(self).update_status == old(self).update_status,
    {
        match parse_saved_config(text) {
            Ok(saved) => self.apply_saved_values(&saved),
            Err(e) => Err(e),
        }
    }
}


/// The settings held by saved lines, later lines winning.
pub open spec fn fields_map(fields: Seq<(SettingKey, Seq<char>)>) -> Map<Seq<char>, Seq<char>>
    decreases fields.len(),
{
    if fields.len() == 0 {
        Map::empty()
    } else {
        fields_map(fields.drop_last()).insert(key_text(fields.last().0), fields.last().1)
    }
}

/// Saved lines whose values read back as themselves are read as written.
proof fn lemma_read_saved_lines(
    fields: Seq<(SettingKey, Seq<char>)>,
    rest: Seq<char>,
    n: nat,
    m: Map<Seq<char>, Seq<char>>,
)
    requires
        forall|i: int| 0 <= i < fields.len() ==> plain_value(#[trigger] fields[i].1),
    ensures
        read_lines(lines_text(fields) + rest, n, m) == read_lines(
            rest,
            n + fields.len(),
            m.union_prefer_right(fields_map(fields)),
        ),
    decreases fields.len(),
{
    if fields.len() == 0 {
        assert(lines_text(fields) + rest =~= rest);
        assert(m.union_prefer_right(fields_map(fields)) =~= m);
    } else {
        let front = fields.drop_last();
        let last = fields.last();
        assert(plain_value(fields[fields.len() - 1].1));
        assert forall|i: int| 0 <= i < front.len() implies plain_value(#[trigger] front[i].1) by {
            assert(front[i] == fields[i]);
        }
        let line = saved_line(last.0, last.1);
        assert(lines_text(fields) + rest =~= lines_text(front) + (line + rest));
        lemma_read_saved_lines(front, line + rest, n, m);
        let m1 = m.union_prefer_right(fields_map(front));
        lemma_key_text_plain(last.0);
        assert(line + rest =~= key_text(last.0) + "="@ + last.1 + "\n"@ + rest);
        lemma_read_plain_line(key_text(last.0), last.1, rest, n + front.len(), m1);
        assert(m1.insert(key_text(last.0), last.1) =~= m.union_prefer_right(fields_map(fields)));
    }
}

/// In lines with distinct keys, each key holds the value written for it.
proof fn lemma_fields_map_lookup(fields: Seq<(SettingKey, Seq<char>)>, i: int)
    requires
        0 <= i < fields.len(),
        forall|a: int, b: int|
            0 <= a < fields.len() && 0 <= b < fields.len() && a != b ==> fields[a].0
                != fields[b].0,
    ensures
        fields_map(fields).contains_key(key_text(fields[i].0)),
        fields_map(fields)[key_text(fields[i].0)] == fields[i].1,
    decreases fields.len(),
{
    let front = fields.drop_last();
    if i < fields.len() - 1 {
        assert(front[i] == fields[i]);
        assert forall|a: int, b: int|
            0 <= a < front.len() && 0 <= b < front.len() && a != b implies front[a].0
                != front[b].0 by {
            assert(front[a] == fields[a]);
            assert(front[b] == fields[b]);
        }
        lemma_fields_map_lookup(front, i);
        lemma_key_text_distinct(fields[i].0, fields.last().0);
    }
}

/// Every saved value of well-formed settings with a plain trigger name reads
/// back as itself.
proof fn lemma_saved_values_plain(m: SettingsModel)
    requires
        plain_value(m.trigger_name),
    ensures
        forall|i: int|
            0 <= i < saved_fields(m).len() ==> plain_value(#[trigger] saved_fields(m)[i].1),
{
    reveal_strlit("both");
    reveal_strlit("udp");
    reveal_strlit("tcp");
    reveal_strlit("true");
    reveal_strlit("false");
    reveal_strlit("default");
    reveal_strlit("custom");
    lemma_decimal_plain(m.custom_hold.0 as nat);
    lemma_decimal_plain(m.custom_hold.1 as nat);
    lemma_decimal_plain(m.custom_release.0 as nat);
    lemma_decimal_plain(m.custom_release.1 as nat);
    if m.trigger_key < 0 {
        lemma_decimal_plain((-m.trigger_key) as nat);
        let d = decimal((-m.trigger_key) as nat);
        assert forall|j: int| 0 <= j < signed_decimal(m.trigger_key as int).len() implies signed_decimal(
            m.trigger_key as int,
        )[j] != '\n' by {
            if j > 0 {
                assert(signed_decimal(m.trigger_key as int)[j] == d[j - 1]);
            }
        }
        assert(signed_decimal(m.trigger_key as int).last() == d.last());
    } else {
        lemma_decimal_plain(m.trigger_key as nat);
    }
    match m.traffic_rule.port {
        Some(p) => lemma_decimal_plain(p as nat),
        None => {},
    }
}

/// A decimal spelling reads back as itself.
proof fn lemma_decimal_plain(n: nat)
    ensures
        plain_value(decimal(n)),
{
    lemma_decimal(n);
    let d = decimal(n);
    assert(is_digit(d[0]));
    assert(is_digit(d[d.len() - 1]));
}

/// Reading back the protocol word gives the protocol.
proof fn lemma_kind_saved_name(kind: TrafficKind)
    ensures
        kind_from_saved_name(kind_saved_name(kind)) == Some(kind),
{
    reveal_strlit("both");
    reveal_strlit("udp");
    reveal_strlit("tcp");
    assert("udp"@[0] != "tcp"@[0]);
}

/// Saved settings read back as they were saved: reading the saved text of
/// well-formed settings and applying it to any settings gives back every
/// saved field (the update status, which is not saved, is not part of it).
/// This holds when the trigger name has no line break and no white space at
/// either end, and the port, if set, is not 0.
pub proof fn law_saved_settings_round_trip(m: SettingsModel, base: SettingsModel)
    requires
        settings_well_formed(m),
        plain_value(m.trigger_name),
        m.traffic_rule.port != Some(0u16),
    ensures
        saved_config_of(saved_text(m)) is Ok,
        apply_saved(base, saved_config_of(saved_text(m))->Ok_0) == (m, Ok::<(), SavedSettingsError>(())),
{
    let fields = saved_fields(m);
    lemma_saved_values_plain(m);
    lemma_read_saved_lines(fields, Seq::empty(), 1, Map::empty());
    assert(saved_text(m) + Seq::<char>::empty() =~= saved_text(m));
    lemma_read_lines_empty(1 + fields.len(), Map::<Seq<char>, Seq<char>>::empty().union_prefer_right(fields_map(fields)));
    let saved = Map::<Seq<char>, Seq<char>>::empty().union_prefer_right(fields_map(fields));
    assert(saved =~= fields_map(fields));
    assert(saved_config_of(saved_text(m)) == Ok::<Map<Seq<char>, Seq<char>>, nat>(saved));
    assert forall|a: int, b: int|
        0 <= a < fields.len() && 0 <= b < fields.len() && a != b implies fields[a].0
            != fields[b].0 by {
    }
    assert forall|i: int| 0 <= i < fields.len() implies saved.contains_key(key_text(#[trigger] fields[i].0))
        && saved[key_text(fields[i].0)] == fields[i].1 by {
        lemma_fields_map_lookup(fields, i);
    }
    assert(fields[0].0 == SettingKey::TriggerKey);
    assert(fields[1].0 == SettingKey::TriggerName);
    assert(fields[2].0 == SettingKey::Port);
    assert(fields[3].0 == SettingKey::Protocol);
    assert(fields[4].0 == SettingKey::AlwaysOnTop);
    assert(fields[5].0 == SettingKey::HoldWindow);
    assert(fields[6].0 == SettingKey::CustomHoldMin);
    assert(fields[7].0 == SettingKey::CustomHoldMax);
    assert(fields[8].0 == SettingKey::ReleasePacing);
    assert(fields[9].0 == SettingKey::CustomBatchSize);
    assert(fields[10].0 == SettingKey::CustomBatchDelay);
    lemma_parse_signed_decimal(m.trigger_key as int);
    match m.traffic_rule.port {
        Some(p) => {
            lemma_decimal(p as nat);
            lemma_parse_decimal(p as nat, u16::MAX as nat);
        },
        None => {},
    }
    lemma_kind_saved_name(m.traffic_rule.protocol);
    reveal_strlit("true");
    reveal_strlit("false");
    reveal_strlit("default");
    reveal_strlit("custom");
    lemma_parse_decimal(m.custom_hold.0 as nat, u64::MAX as nat);
    lemma_parse_decimal(m.custom_hold.1 as nat, u64::MAX as nat);
    lemma_parse_decimal(m.custom_release.0 as nat, u64::MAX as nat);
    lemma_parse_decimal(m.custom_release.1 as nat, u64::MAX as nat);
    let (m1, r1) = apply_saved_identity(base, saved);
    assert(r1 is Ok);
    assert(m1 == SettingsModel {
        custom_hold: base.custom_hold,
        hold_window: base.hold_window,
        custom_release: base.custom_release,
        release_pacing: base.release_pacing,
        ..m
    });
    let (m2, r2) = apply_saved_hold(m1, saved);
    assert(r2 is Ok);
    assert(m2 == SettingsModel {
        custom_release: base.custom_release,
        release_pacing: base.release_pacing,
        ..m
    });
    let (m3, r3) = apply_saved_release(m2, saved);
    assert(r3 is Ok);
    assert(m3 == m);
}

} // verus!
