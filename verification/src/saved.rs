//! The saved-settings text format: one `key=value` per line, blank lines and
//! lines starting with `#` ignored, the last occurrence of a key winning.
use vstd::prelude::*;

use crate::config::{settings_error_text, SettingsError};
use crate::text::{
    chars_of, copy_range, decimal, find_char, index_of, is_ws, lemma_index_of, lemma_index_of_at,
    lemma_trim_unchanged, push_decimal, trim, trim_range,
};

verus! {

/// The settings that the saved text holds, one per line.
#[derive(Clone, Copy, Debug, PartialEq, Eq, Structural)]
pub enum SettingKey {
    TriggerKey,
    TriggerName,
    Port,
    Protocol,
    AlwaysOnTop,
    HoldWindow,
    CustomHoldMin,
    CustomHoldMax,
    ReleasePacing,
    CustomBatchSize,
    CustomBatchDelay,
}

/// The word a setting is saved under.
pub open spec fn key_text(k: SettingKey) -> Seq<char> {
    match k {
        SettingKey::TriggerKey => "trigger_key"@,
        SettingKey::TriggerName => "trigger_name"@,
        SettingKey::Port => "port"@,
        SettingKey::Protocol => "protocol"@,
        SettingKey::AlwaysOnTop => "always_on_top"@,
        SettingKey::HoldWindow => "hold_window"@,
        SettingKey::CustomHoldMin => "custom_hold_min_ms"@,
        SettingKey::CustomHoldMax => "custom_hold_max_ms"@,
        SettingKey::ReleasePacing => "release_pacing"@,
        SettingKey::CustomBatchSize => "custom_batch_size"@,
        SettingKey::CustomBatchDelay => "custom_batch_delay_ms"@,
    }
}

impl SettingKey {
    pub fn name(self) -> (r: &'static str)
        ensures
            r@ == key_text(self),
    {
        match self {
            SettingKey::TriggerKey => "trigger_key",
            SettingKey::TriggerName => "trigger_name",
            SettingKey::Port => "port",
            SettingKey::Protocol => "protocol",
            SettingKey::AlwaysOnTop => "always_on_top",
            SettingKey::HoldWindow => "hold_window",
            SettingKey::CustomHoldMin => "custom_hold_min_ms",
            SettingKey::CustomHoldMax => "custom_hold_max_ms",
            SettingKey::ReleasePacing => "release_pacing",
            SettingKey::CustomBatchSize => "custom_batch_size",
            SettingKey::CustomBatchDelay => "custom_batch_delay_ms",
        }
    }
}

/// Why saved settings could not be read or applied.
#[derive(Clone, Copy, Debug, PartialEq, Eq, Structural)]
pub enum SavedSettingsError {
    LineWithoutEquals { line: usize },
    Missing(SettingKey),
    Invalid(SettingKey),
    InvalidPort(SettingsError),
    InvalidProtocol,
    HoldMinimumOutOfRange,
    HoldMaximumOutOfRange,
    HoldMinimumAboveMaximum,
    InvalidHoldMode,
    BatchSizeOutOfRange,
    BatchDelayOutOfRange,
    InvalidPacingMode,
}

/// The sentence reported for a saved-settings problem.
pub open spec fn saved_error_text(e: SavedSettingsError) -> Seq<char> {
    match e {
        SavedSettingsError::LineWithoutEquals { line } => "saved settings line "@ + decimal(
            line as nat,
        ) + " has no '='"@,
        SavedSettingsError::Missing(k) => "saved setting '"@ + key_text(k) + "' is missing"@,
        SavedSettingsError::Invalid(k) => "saved setting '"@ + key_text(k) + "' is invalid"@,
        SavedSettingsError::InvalidPort(e) => "saved port is invalid: "@ + settings_error_text(e),
        SavedSettingsError::InvalidProtocol => "saved protocol is invalid"@,
        SavedSettingsError::HoldMinimumOutOfRange => "saved custom hold minimum is out of range"@,
        SavedSettingsError::HoldMaximumOutOfRange => "saved custom hold maximum is out of range"@,
        SavedSettingsError::HoldMinimumAboveMaximum =>
            "saved custom hold minimum is above its maximum"@,
        SavedSettingsError::InvalidHoldMode => "saved hold window mode is invalid"@,
        SavedSettingsError::BatchSizeOutOfRange => "saved custom batch size is out of range"@,
        SavedSettingsError::BatchDelayOutOfRange => "saved custom batch delay is out of range"@,
        SavedSettingsError::InvalidPacingMode => "saved release pacing mode is invalid"@,
    }
}

impl SavedSettingsError {
    pub fn message(&self) -> (r: String)
        ensures
            r@ == saved_error_text(*self),
    {
        match self {
            SavedSettingsError::LineWithoutEquals { line } => {
                let mut r = String::from_str("saved settings line ");
                push_decimal(&mut r, *line as u64);
                r.append(" has no '='");
                r
            },
            SavedSettingsError::Missing(k) => {
                let mut r = String::from_str("saved setting '");
                r.append(k.name());
                r.append("' is missing");
                r
            },
            SavedSettingsError::Invalid(k) => {
                let mut r = String::from_str("saved setting '");
                r.append(k.name());
                r.append("' is invalid");
                r
            },
            SavedSettingsError::InvalidPort(e) => {
                let mut r = String::from_str("saved port is invalid: ");
                r.append(e.message());
                r
            },
            SavedSettingsError::InvalidProtocol => String::from_str("saved protocol is invalid"),
            SavedSettingsError::HoldMinimumOutOfRange => String::from_str(
                "saved custom hold minimum is out of range",
            ),
            SavedSettingsError::HoldMaximumOutOfRange => String::from_str(
                "saved custom hold maximum is out of range",
            ),
            SavedSettingsError::HoldMinimumAboveMaximum => String::from_str(
                "saved custom hold minimum is above its maximum",
            ),
            SavedSettingsError::InvalidHoldMode => String::from_str(
                "saved hold window mode is invalid",
            ),
            SavedSettingsError::BatchSizeOutOfRange => String::from_str(
                "saved custom batch size is out of range",
            ),
            SavedSettingsError::BatchDelayOutOfRange => String::from_str(
                "saved custom batch delay is out of range",
            ),
            SavedSettingsError::InvalidPacingMode => String::from_str(
                "saved release pacing mode is invalid",
            ),
        }
    }
}

/// What one line of saved text says: nothing (`Ok(None)`), a key and value
/// (`Ok(Some(..))`), or that it is malformed (`Err`).
pub open spec fn read_line(raw: Seq<char>) -> Result<Option<(Seq<char>, Seq<char>)>, ()> {
    let line = trim(raw);
    if line.len() == 0 || line[0] == '#' {
        Ok(None)
    } else {
        let i = index_of(line, '=');
        if i < line.len() {
            Ok(Some((trim(line.take(i as int)), trim(line.skip(i + 1int)))))
        } else {
            Err(())
        }
    }
}

/// Reads the lines of `s`, the first of which is line `number`, into `m`:
/// the settings read, or the number of the first malformed line.
pub open spec fn read_lines(s: Seq<char>, number: nat, m: Map<Seq<char>, Seq<char>>) -> Result<
    Map<Seq<char>, Seq<char>>,
    nat,
>
    decreases s.len(),
{
    let end = index_of(s, '\n');
    let after = match read_line(s.take(end as int)) {
        Ok(None) => Ok(m),
        Ok(Some(kv)) => Ok(m.insert(kv.0, kv.1)),
        Err(_) => Err(number),
    };
    match after {
        Err(n) => Err(n),
        Ok(m2) => if end < s.len() {
            proof {
                lemma_index_of(s, '\n');
            }
            read_lines(s.skip(end + 1int), number + 1, m2)
        } else {
            Ok(m2)
        },
    }
}

/// The settings a saved text holds, or the number of its first malformed line.
pub open spec fn saved_config_of(text: Seq<char>) -> Result<Map<Seq<char>, Seq<char>>, nat> {
    read_lines(text, 1, Map::empty())
}

/// The settings that a list of entries holds: later entries win.
pub open spec fn entries_map(es: Seq<(Seq<char>, Seq<char>)>) -> Map<Seq<char>, Seq<char>>
    decreases es.len(),
{
    if es.len() == 0 {
        Map::empty()
    } else {
        entries_map(es.drop_last()).insert(es.last().0, es.last().1)
    }
}

/// The text of each entry.
pub open spec fn entries_text(es: Seq<(Vec<char>, Vec<char>)>) -> Seq<(Seq<char>, Seq<char>)> {
    es.map_values(|e: (Vec<char>, Vec<char>)| (e.0@, e.1@))
}

/// Settings read from saved text.
pub struct SavedConfig {
    entries: Vec<(Vec<char>, Vec<char>)>,
}

impl View for SavedConfig {
    type V = Map<Seq<char>, Seq<char>>;

    closed spec fn view(&self) -> Map<Seq<char>, Seq<char>> {
        entries_map(entries_text(self.entries@))
    }
}

impl SavedConfig {
    /// The value saved under `key`, if any.
    pub fn lookup(&self, key: &Vec<char>) -> (r: Option<&Vec<char>>)
        ensures
            match r {
                Some(v) => self@.contains_key(key@) && self@[key@] == v@,
                None => !self@.contains_key(key@),
            },
    {
        let ghost es = entries_text(self.entries@);
        assert(es.take(es.len() as int) =~= es);
        let mut i = self.entries.len();
        while i > 0
            invariant
                i <= self.entries.len(),
                es == entries_text(self.entries@),
                self@ == entries_map(es),
                entries_map(es).contains_key(key@) == entries_map(es.take(i as int)).contains_key(
                    key@,
                ),
                entries_map(es).contains_key(key@) ==> entries_map(es)[key@] == entries_map(
                    es.take(i as int),
                )[key@],
            decreases i,
        {
            assert(es.take(i as int).drop_last() =~= es.take(i - 1));
            assert(es.take(i as int).last() == es[i - 1]);
            if crate::text::same_chars(&self.entries[i - 1].0, key) {
                return Some(&self.entries[i - 1].1);
            }
            i = i - 1;
        }
        assert(es.take(0) =~= Seq::<(Seq<char>, Seq<char>)>::empty());
        None
    }
}

/// Reads saved settings text.
pub fn parse_saved_config(text: &str) -> (r: Result<SavedConfig, SavedSettingsError>)
    ensures
        match saved_config_of(text@) {
            Ok(m) => r is Ok && r->Ok_0@ == m,
            Err(n) => r == Err::<SavedConfig, SavedSettingsError>(
                SavedSettingsError::LineWithoutEquals { line: n as usize },
            ),
        },
{
    let v = chars_of(text);
    let mut entries: Vec<(Vec<char>, Vec<char>)> = Vec::new();
    let mut p: usize = 0;
    let mut number: usize = 1;
    assert(v@.skip(0) =~= v@);
    loop
        invariant_except_break
            v@ == text@,
            p <= v.len(),
            1 <= number <= p + 1,
            saved_config_of(v@) == read_lines(
                v@.skip(p as int),
                number as nat,
                entries_map(entries_text(entries@)),
            ),
        ensures
            v@ == text@,
            saved_config_of(v@) == Ok::<Map<Seq<char>, Seq<char>>, nat>(
                entries_map(entries_text(entries@)),
            ),
        decreases v.len() - p,
    {
        let ghost s = v@.skip(p as int);
        let ghost m = entries_map(entries_text(entries@));
        let q = find_char(&v, p, v.len(), '\n');
        assert(v@.subrange(p as int, v.len() as int) =~= s);
        proof {
            lemma_index_of(s, '\n');
        }
        assert(s.take(q - p) =~= v@.subrange(p as int, q as int));
        let (a, b) = trim_range(&v, p, q);
        let ghost line = v@.subrange(a as int, b as int);
        assert(line == trim(s.take(q - p)));
        let ghost mut m2 = m;
        if a == b || v[a] == '#' {
            assert(read_line(s.take(q - p)) == Ok::<Option<(Seq<char>, Seq<char>)>, ()>(None));
        } else {
            let e = find_char(&v, a, b, '=');
            assert(v@.subrange(a as int, b as int) =~= line);
            if e == b {
                assert(read_line(s.take(q - p)) is Err);
                assert(read_lines(s, number as nat, m) == Err::<Map<Seq<char>, Seq<char>>, nat>(
                    number as nat,
                ));
                return Err(SavedSettingsError::LineWithoutEquals { line: number });
            }
            let (ka, kb) = trim_range(&v, a, e);
            let (va, vb) = trim_range(&v, e + 1, b);
            assert(line.take(e - a) =~= v@.subrange(a as int, e as int));
            assert(line.skip(e - a + 1) =~= v@.subrange(e + 1, b as int));
            let key = copy_range(&v, ka, kb);
            let value = copy_range(&v, va, vb);
            let ghost old_entries = entries_text(entries@);
            assert(read_line(s.take(q - p)) == Ok::<Option<(Seq<char>, Seq<char>)>, ()>(
                Some((key@, value@)),
            ));
            entries.push((key, value));
            assert(entries_text(entries@).drop_last() =~= old_entries);
            proof {
                m2 = m.insert(key@, value@);
            }
            assert(entries_map(entries_text(entries@)) == m2);
        }
        if q < v.len() {
            assert(s.skip(q - p + 1) =~= v@.skip(q + 1));
            assert(read_lines(s, number as nat, m) == read_lines(
                v@.skip(q + 1),
                (number + 1) as nat,
                m2,
            ));
            if q + 1 == v.len() {
                assert(v@.skip(q + 1) =~= Seq::<char>::empty());
                assert(index_of(Seq::<char>::empty(), '\n') == 0);
                assert(Seq::<char>::empty().take(0) =~= Seq::<char>::empty());
                assert(trim(Seq::<char>::empty()) =~= Seq::<char>::empty());
                break;
            }
            p = q + 1;
            number = number + 1;
        } else {
            assert(read_lines(s, number as nat, m) == Ok::<Map<Seq<char>, Seq<char>>, nat>(m2));
            break;
        }
    }
    Ok(SavedConfig { entries })
}


/// A key that reads back as itself: nonempty, without `=` or line breaks, not
/// starting with `#`, and without white space at either end.
pub open spec fn plain_key(k: Seq<char>) -> bool {
    &&& k.len() > 0
    &&& !is_ws(k[0])
    &&& k[0] != '#'
    &&& !is_ws(k.last())
    &&& forall|j: int| 0 <= j < k.len() ==> k[j] != '=' && k[j] != '\n'
}

/// A value that reads back as itself: without line breaks, and without white
/// space at either end.
pub open spec fn plain_value(v: Seq<char>) -> bool {
    &&& forall|j: int| 0 <= j < v.len() ==> v[j] != '\n'
    &&& v.len() > 0 ==> !is_ws(v[0]) && !is_ws(v.last())
}

/// Every saved key reads back as itself.
pub proof fn lemma_key_text_plain(k: SettingKey)
    ensures
        plain_key(key_text(k)),
{
    reveal_strlit("trigger_key");
    reveal_strlit("trigger_name");
    reveal_strlit("port");
    reveal_strlit("protocol");
    reveal_strlit("always_on_top");
    reveal_strlit("hold_window");
    reveal_strlit("custom_hold_min_ms");
    reveal_strlit("custom_hold_max_ms");
    reveal_strlit("release_pacing");
    reveal_strlit("custom_batch_size");
    reveal_strlit("custom_batch_delay_ms");
}

/// Different settings are saved under different keys.
pub proof fn lemma_key_text_distinct(a: SettingKey, b: SettingKey)
    ensures
        a != b ==> key_text(a) != key_text(b),
{
    reveal_strlit("trigger_key");
    reveal_strlit("trigger_name");
    reveal_strlit("port");
    reveal_strlit("protocol");
    reveal_strlit("always_on_top");
    reveal_strlit("hold_window");
    reveal_strlit("custom_hold_min_ms");
    reveal_strlit("custom_hold_max_ms");
    reveal_strlit("release_pacing");
    reveal_strlit("custom_batch_size");
    reveal_strlit("custom_batch_delay_ms");
    if a != b {
        if key_text(a).len() == key_text(b).len() {
            assert(key_text(a)[0] != key_text(b)[0] || key_text(a)[13] != key_text(b)[13]);
        }
    }
}

/// Nothing is read from text without characters.
pub proof fn lemma_read_lines_empty(n: nat, m: Map<Seq<char>, Seq<char>>)
    ensures
        read_lines(Seq::empty(), n, m) == Ok::<Map<Seq<char>, Seq<char>>, nat>(m),
{
    let s = Seq::<char>::empty();
    assert(index_of(s, '\n') == 0);
    assert(s.take(0) =~= s);
    lemma_trim_unchanged(s);
}

/// A line `key=value` is read as that key and value, and reading goes on with
/// the next line.
pub proof fn lemma_read_plain_line(
    k: Seq<char>,
    v: Seq<char>,
    rest: Seq<char>,
    n: nat,
    m: Map<Seq<char>, Seq<char>>,
)
    requires
        plain_key(k),
        plain_value(v),
    ensures
        read_lines(k + "="@ + v + "\n"@ + rest, n, m) == read_lines(rest, n + 1, m.insert(k, v)),
{
    reveal_strlit("=");
    reveal_strlit("\n");
    let line = k + "="@ + v;
    let s = line + "\n"@ + rest;
    assert(k + "="@ + v + "\n"@ + rest == s);
    assert forall|j: int| 0 <= j < line.len() implies s[j] != '\n' by {
        if j < k.len() {
            assert(s[j] == k[j]);
        } else if j > k.len() {
            assert(s[j] == v[j - k.len() - 1]);
        }
    }
    lemma_index_of_at(s, '\n', line.len() as int);
    assert(s.take(line.len() as int) =~= line);
    if v.len() > 0 {
        assert(line.last() == v.last());
    }
    lemma_trim_unchanged(line);
    assert(line[0] == k[0]);
    assert forall|j: int| 0 <= j < k.len() implies line[j] != '=' by {
        assert(line[j] == k[j]);
    }
    lemma_index_of_at(line, '=', k.len() as int);
    assert(line.take(k.len() as int) =~= k);
    assert(line.skip(k.len() + 1int) =~= v);
    lemma_trim_unchanged(k);
    lemma_trim_unchanged(v);
    assert(s.skip(line.len() + 1int) =~= rest);
}

} // verus!
