//! Hotkeys: how their names are read and when two taps make a double tap.
//!
//! Registering a hotkey with the system and listening for it is the
//! caller's part. What a setting asks for is decided here.

use vstd::prelude::*;
use crate::config::HotkeyConfig;
use crate::json::same_text;

verus! {

/// How the hotkey is given.
#[derive(Clone, Copy, Debug, PartialEq, Eq, Structural)]
pub enum HotkeyMode {
    /// A key pressed together with modifiers.
    Combo,
    /// One key tapped twice.
    DoubleTap,
}

/// A key that a hotkey can end in.
#[derive(Clone, Copy, Debug, PartialEq, Eq, Structural)]
pub enum KeyCode {
    /// A letter; 0 stands for `A`, 25 for `Z`.
    Letter(u8),
    /// A digit of the upper row.
    Digit(u8),
    Space,
    Enter,
    Escape,
    /// A function key, `F1` to `F12`.
    Function(u8),
}

/// The modifiers of a hotkey.
#[derive(Clone, Copy, Debug, PartialEq, Eq, Structural)]
pub struct Modifiers {
    pub control: bool,
    pub shift: bool,
    pub alt: bool,
    pub super_key: bool,
}

/// A hotkey: a key and the modifiers held with it.
#[derive(Clone, Copy, Debug, PartialEq, Eq, Structural)]
pub struct HotKey {
    pub modifiers: Modifiers,
    pub key: KeyCode,
}

/// A modifier that can be tapped twice.
#[derive(Clone, Copy, Debug, PartialEq, Eq, Structural)]
pub enum ModifierKey {
    Ctrl,
    Shift,
    Alt,
}

/// What is to be registered for a setting.
#[derive(Clone, Copy, Debug, PartialEq, Eq, Structural)]
pub enum Registration {
    /// A key with modifiers, as a hotkey of the system.
    Combo(HotKey),
    /// A key without modifiers, as a hotkey of the system, to be tapped
    /// twice.
    DoubleTapKey(HotKey),
    /// A modifier to be tapped twice, which takes a keyboard hook.
    ModifierHook(ModifierKey),
}

/// Why a setting names no hotkey.
#[derive(Debug)]
pub enum HotkeyError {
    /// The name stands for no key.
    UnknownKey(String),
    /// The combination holds modifiers only.
    NoKey(String),
}

/// A reason why a setting names no hotkey, as mathematical values.
pub enum HotkeyFault {
    UnknownKey(Seq<char>),
    NoKey(Seq<char>),
}

impl View for HotkeyError {
    type V = HotkeyFault;

    open spec fn view(&self) -> HotkeyFault {
        match self {
            HotkeyError::UnknownKey(name) => HotkeyFault::UnknownKey(name@),
            HotkeyError::NoKey(combo) => HotkeyFault::NoKey(combo@),
        }
    }
}

impl HotkeyError {
    /// The words that say what is wrong.
    pub open spec fn spec_message(&self) -> Seq<char> {
        match self {
            HotkeyError::UnknownKey(name) => "Unknown key: "@ + name@,
            HotkeyError::NoKey(combo) => "No key specified in combo: "@ + combo@,
        }
    }

    /// The words that say what is wrong.
    pub fn message(&self) -> (text: String)
        ensures
            text@ == self.spec_message(),
    {
        match self {
            HotkeyError::UnknownKey(name) => {
                let mut text = "Unknown key: ".to_owned();
                text.append(name.as_str());
                text
            },
            HotkeyError::NoKey(combo) => {
                let mut text = "No key specified in combo: ".to_owned();
                text.append(combo.as_str());
                text
            },
        }
    }
}

/// `text` in lower case, as `str::to_lowercase` gives it.
pub uninterp spec fn lowercase_of(text: Seq<char>) -> Seq<char>;

/// `text` in upper case, as `str::to_uppercase` gives it.
pub uninterp spec fn uppercase_of(text: Seq<char>) -> Seq<char>;

/// `text` without the white space at its ends, as `str::trim` gives it.
pub uninterp spec fn trimmed_of(text: Seq<char>) -> Seq<char>;

/// The parts of `text` between the occurrences of `separator`. A text
/// without the separator is one part; two separators in a row hold an empty
/// part between them.
pub open spec fn split_on(text: Seq<char>, separator: char) -> Seq<Seq<char>>
    decreases text.len(),
{
    if text.len() == 0 {
        seq![Seq::empty()]
    } else {
        let rest = split_on(text.drop_first(), separator);
        if text[0] == separator {
            seq![Seq::empty()] + rest
        } else {
            seq![seq![text[0]] + rest[0]] + rest.drop_first()
        }
    }
}

/// The characters of each string of a list.
pub open spec fn texts(parts: Seq<String>) -> Seq<Seq<char>> {
    Seq::new(parts.len(), |i: int| parts[i]@)
}

/// Calls `str::to_lowercase`.
#[verifier::external_body]
pub(crate) fn lowercase(text: &str) -> (lower: String)
    ensures
        lower@ == lowercase_of(text@),
{
    text.to_lowercase()
}

/// Calls `str::to_uppercase`.
#[verifier::external_body]
pub(crate) fn uppercase(text: &str) -> (upper: String)
    ensures
        upper@ == uppercase_of(text@),
{
    text.to_uppercase()
}

/// Calls `str::trim`.
#[verifier::external_body]
pub(crate) fn trimmed(text: &str) -> (inner: String)
    ensures
        inner@ == trimmed_of(text@),
{
    text.trim().to_owned()
}

/// Calls `str::split` with the plus sign as the separator and collects the
/// parts.
#[verifier::external_body]
pub(crate) fn split_plus(text: &str) -> (parts: Vec<String>)
    ensures
        texts(parts@) == split_on(text@, '+'),
{
    text.split('+').map(|part| part.to_owned()).collect()
}

/// The key that a name in upper case stands for: a single letter or digit,
/// `SPACE`, `ENTER` or `RETURN`, `ESCAPE` or `ESC`, `F1` to `F12`.
pub open spec fn key_named(upper: Seq<char>) -> Option<KeyCode> {
    if upper.len() == 1 && 65 <= upper[0] as u32 <= 90 {
        Some(KeyCode::Letter((upper[0] as u32 - 65) as u8))
    } else if upper.len() == 1 && 48 <= upper[0] as u32 <= 57 {
        Some(KeyCode::Digit((upper[0] as u32 - 48) as u8))
    } else if upper == "SPACE"@ {
        Some(KeyCode::Space)
    } else if upper == "ENTER"@ || upper == "RETURN"@ {
        Some(KeyCode::Enter)
    } else if upper == "ESCAPE"@ || upper == "ESC"@ {
        Some(KeyCode::Escape)
    } else if upper == "F1"@ {
        Some(KeyCode::Function(1))
    } else if upper == "F2"@ {
        Some(KeyCode::Function(2))
    } else if upper == "F3"@ {
        Some(KeyCode::Function(3))
    } else if upper == "F4"@ {
        Some(KeyCode::Function(4))
    } else if upper == "F5"@ {
        Some(KeyCode::Function(5))
    } else if upper == "F6"@ {
        Some(KeyCode::Function(6))
    } else if upper == "F7"@ {
        Some(KeyCode::Function(7))
    } else if upper == "F8"@ {
        Some(KeyCode::Function(8))
    } else if upper == "F9"@ {
        Some(KeyCode::Function(9))
    } else if upper == "F10"@ {
        Some(KeyCode::Function(10))
    } else if upper == "F11"@ {
        Some(KeyCode::Function(11))
    } else if upper == "F12"@ {
        Some(KeyCode::Function(12))
    } else {
        None
    }
}

/// The modifiers after the one that a name in lower case stands for is
/// added: `ctrl` or `control`, `shift`, `alt`, `super`, `win` or `meta`.
/// `None` where the name stands for no modifier.
pub open spec fn with_modifier(held: Modifiers, lower: Seq<char>) -> Option<Modifiers> {
    if lower == "ctrl"@ || lower == "control"@ {
        Some(Modifiers { control: true, ..held })
    } else if lower == "shift"@ {
        Some(Modifiers { shift: true, ..held })
    } else if lower == "alt"@ {
        Some(Modifiers { alt: true, ..held })
    } else if lower == "super"@ || lower == "win"@ || lower == "meta"@ {
        Some(Modifiers { super_key: true, ..held })
    } else {
        None
    }
}

/// The modifier that a name in lower case stands for, where it can be
/// tapped twice.
pub open spec fn tappable_modifier(lower: Seq<char>) -> Option<ModifierKey> {
    if lower == "ctrl"@ {
        Some(ModifierKey::Ctrl)
    } else if lower == "shift"@ {
        Some(ModifierKey::Shift)
    } else if lower == "alt"@ {
        Some(ModifierKey::Alt)
    } else {
        None
    }
}

/// No modifier held.
pub open spec fn no_modifiers() -> Modifiers {
    Modifiers { control: false, shift: false, alt: false, super_key: false }
}

/// What one part of a combination adds to what was read before it. The part
/// is read without the white space at its ends: as a modifier if its name
/// in lower case is one, else as a key by its name in upper case.
pub open spec fn combo_step(so_far: (Modifiers, Option<KeyCode>), part: Seq<char>) -> Result<
    (Modifiers, Option<KeyCode>),
    HotkeyFault,
> {
    let name = trimmed_of(part);
    match with_modifier(so_far.0, lowercase_of(name)) {
        Some(held) => Ok((held, so_far.1)),
        None => match key_named(uppercase_of(name)) {
            Some(key) => Ok((so_far.0, Some(key))),
            None => Err(HotkeyFault::UnknownKey(name)),
        },
    }
}

/// What the parts of a combination add up to, read from left to right; the
/// first part that is neither modifier nor key ends the reading.
pub open spec fn combo_fold(parts: Seq<Seq<char>>, so_far: (Modifiers, Option<KeyCode>)) -> Result<
    (Modifiers, Option<KeyCode>),
    HotkeyFault,
>
    decreases parts.len(),
{
    if parts.len() == 0 {
        Ok(so_far)
    } else {
        match combo_step(so_far, parts[0]) {
            Ok(next) => combo_fold(parts.drop_first(), next),
            Err(fault) => Err(fault),
        }
    }
}

/// The hotkey that the parts of a combination name; `combo` is the text
/// they were taken from. The last key named is the key.
pub open spec fn combo_of_parts(parts: Seq<Seq<char>>, combo: Seq<char>) -> Result<
    HotKey,
    HotkeyFault,
> {
    match combo_fold(parts, (no_modifiers(), None)) {
        Ok((modifiers, Some(key))) => Ok(HotKey { modifiers, key }),
        Ok((_, None)) => Err(HotkeyFault::NoKey(combo)),
        Err(fault) => Err(fault),
    }
}

/// The hotkey that a combination such as `Ctrl+Shift+V` names.
pub open spec fn parsed_combo(combo: Seq<char>) -> Result<HotKey, HotkeyFault> {
    combo_of_parts(split_on(combo, '+'), combo)
}

/// The mode that a setting names: `combo` is the combination, anything
/// else the double tap.
pub open spec fn mode_named(name: Seq<char>) -> HotkeyMode {
    if name == "combo"@ {
        HotkeyMode::Combo
    } else {
        HotkeyMode::DoubleTap
    }
}

/// What a setting asks to be registered.
pub open spec fn planned_registration(mode: Seq<char>, combo: Seq<char>, tap: Seq<char>) -> Result<
    Registration,
    HotkeyFault,
> {
    match mode_named(mode) {
        HotkeyMode::Combo => match parsed_combo(combo) {
            Ok(hotkey) => Ok(Registration::Combo(hotkey)),
            Err(fault) => Err(fault),
        },
        HotkeyMode::DoubleTap => match tappable_modifier(lowercase_of(tap)) {
            Some(modifier) => Ok(Registration::ModifierHook(modifier)),
            None => match key_named(uppercase_of(tap)) {
                Some(key) => Ok(
                    Registration::DoubleTapKey(HotKey { modifiers: no_modifiers(), key }),
                ),
                None => Err(HotkeyFault::UnknownKey(tap)),
            },
        },
    }
}

impl HotkeyMode {
    /// The mode that a setting names.
    pub fn from_name(name: &str) -> (mode: HotkeyMode)
        ensures
            mode == mode_named(name@),
    {
        if same_text(name, "combo") {
            HotkeyMode::Combo
        } else {
            HotkeyMode::DoubleTap
        }
    }
}

/// The function key with the given number where `upper` is its name.
fn function_key(upper: &str) -> (key: Option<KeyCode>)
    ensures
        key == if upper@ == "F1"@ {
            Some(KeyCode::Function(1))
        } else if upper@ == "F2"@ {
            Some(KeyCode::Function(2))
        } else if upper@ == "F3"@ {
            Some(KeyCode::Function(3))
        } else if upper@ == "F4"@ {
            Some(KeyCode::Function(4))
        } else if upper@ == "F5"@ {
            Some(KeyCode::Function(5))
        } else if upper@ == "F6"@ {
            Some(KeyCode::Function(6))
        } else if upper@ == "F7"@ {
            Some(KeyCode::Function(7))
        } else if upper@ == "F8"@ {
            Some(KeyCode::Function(8))
        } else if upper@ == "F9"@ {
            Some(KeyCode::Function(9))
        } else if upper@ == "F10"@ {
            Some(KeyCode::Function(10))
        } else if upper@ == "F11"@ {
            Some(KeyCode::Function(11))
        } else if upper@ == "F12"@ {
            Some(KeyCode::Function(12))
        } else {
            None::<KeyCode>
        },
{
    if same_text(upper, "F1") {
        Some(KeyCode::Function(1))
    } else if same_text(upper, "F2") {
        Some(KeyCode::Function(2))
    } else if same_text(upper, "F3") {
        Some(KeyCode::Function(3))
    } else if same_text(upper, "F4") {
        Some(KeyCode::Function(4))
    } else if same_text(upper, "F5") {
        Some(KeyCode::Function(5))
    } else if same_text(upper, "F6") {
        Some(KeyCode::Function(6))
    } else if same_text(upper, "F7") {
        Some(KeyCode::Function(7))
    } else if same_text(upper, "F8") {
        Some(KeyCode::Function(8))
    } else if same_text(upper, "F9") {
        Some(KeyCode::Function(9))
    } else if same_text(upper, "F10") {
        Some(KeyCode::Function(10))
    } else if same_text(upper, "F11") {
        Some(KeyCode::Function(11))
    } else if same_text(upper, "F12") {
        Some(KeyCode::Function(12))
    } else {
        None
    }
}

/// The key that a name in upper case stands for.
pub fn key_from_upper(upper: &str) -> (key: Option<KeyCode>)
    ensures
        key == key_named(upper@),
{
    if upper.unicode_len() == 1 {
        let c = upper.get_char(0) as u32;
        if 65 <= c && c <= 90 {
            return Some(KeyCode::Letter((c - 65) as u8));
        }
        if 48 <= c && c <= 57 {
            return Some(KeyCode::Digit((c - 48) as u8));
        }
    }
    if same_text(upper, "SPACE") {
        Some(KeyCode::Space)
    } else if same_text(upper, "ENTER") || same_text(upper, "RETURN") {
        Some(KeyCode::Enter)
    } else if same_text(upper, "ESCAPE") || same_text(upper, "ESC") {
        Some(KeyCode::Escape)
    } else {
        function_key(upper)
    }
}

/// The modifiers after the one that a name in lower case stands for is
/// added.
pub fn add_modifier(held: Modifiers, lower: &str) -> (r: Option<Modifiers>)
    ensures
        r == with_modifier(held, lower@),
{
    if same_text(lower, "ctrl") || same_text(lower, "control") {
        Some(Modifiers { control: true, ..held })
    } else if same_text(lower, "shift") {
        Some(Modifiers { shift: true, ..held })
    } else if same_text(lower, "alt") {
        Some(Modifiers { alt: true, ..held })
    } else if same_text(lower, "super") || same_text(lower, "win") || same_text(lower, "meta") {
        Some(Modifiers { super_key: true, ..held })
    } else {
        None
    }
}

/// Reads the name of a key, in any case.
pub fn parse_key_code(key: &str) -> (r: Result<KeyCode, HotkeyError>)
    ensures
        match r {
            Ok(code) => key_named(uppercase_of(key@)) == Some(code),
            Err(e) => key_named(uppercase_of(key@)) is None && e@ == HotkeyFault::UnknownKey(key@),
        },
{
    let upper = uppercase(key);
    match key_from_upper(upper.as_str()) {
        Some(code) => Ok(code),
        None => Err(HotkeyError::UnknownKey(key.to_owned())),
    }
}

/// Reads the parts of a combination; `combo` is the text they were taken
/// from.
pub fn combo_from_parts(parts: &Vec<String>, combo: &str) -> (r: Result<HotKey, HotkeyError>)
    ensures
        match r {
            Ok(hotkey) => combo_of_parts(texts(parts@), combo@) == Ok::<HotKey, HotkeyFault>(
                hotkey,
            ),
            Err(e) => combo_of_parts(texts(parts@), combo@) == Err::<HotKey, HotkeyFault>(e@),
        },
{
    let mut held = Modifiers { control: false, shift: false, alt: false, super_key: false };
    let mut key: Option<KeyCode> = None;
    let mut i: usize = 0;
    assert(texts(parts@).skip(0) =~= texts(parts@));
    while i < parts.len()
        invariant
            i <= parts.len(),
            combo_fold(texts(parts@), (no_modifiers(), None)) == combo_fold(
                texts(parts@).skip(i as int),
                (held, key),
            ),
        decreases parts.len() - i,
    {
        let ghost rest = texts(parts@).skip(i as int);
        assert(rest[0] == parts@[i as int]@);
        assert(rest.drop_first() =~= texts(parts@).skip(i + 1));
        let name = trimmed(parts[i].as_str());
        let lower = lowercase(name.as_str());
        match add_modifier(held, lower.as_str()) {
            Some(more) => {
                held = more;
            },
            None => {
                let upper = uppercase(name.as_str());
                match key_from_upper(upper.as_str()) {
                    Some(code) => {
                        key = Some(code);
                    },
                    None => {
                        return Err(HotkeyError::UnknownKey(name));
                    },
                }
            },
        }
        i += 1;
    }
    assert(texts(parts@).skip(i as int).len() == 0);
    match key {
        Some(code) => Ok(HotKey { modifiers: held, key: code }),
        None => Err(HotkeyError::NoKey(combo.to_owned())),
    }
}

/// Reads a combination such as `Ctrl+Shift+V`: names joined by plus signs,
/// each a modifier or a key, in any case and with white space around them.
/// A combination needs a key.
pub fn parse_combo_key(key_str: &str) -> (r: Result<HotKey, HotkeyError>)
    ensures
        match r {
            Ok(hotkey) => parsed_combo(key_str@) == Ok::<HotKey, HotkeyFault>(hotkey),
            Err(e) => parsed_combo(key_str@) == Err::<HotKey, HotkeyFault>(e@),
        },
{
    let parts = split_plus(key_str);
    combo_from_parts(&parts, key_str)
}

/// The modifier that a name in lower case stands for, where it can be
/// tapped twice.
pub fn modifier_from_lower(lower: &str) -> (r: Option<ModifierKey>)
    ensures
        r == tappable_modifier(lower@),
{
    if same_text(lower, "ctrl") {
        Some(ModifierKey::Ctrl)
    } else if same_text(lower, "shift") {
        Some(ModifierKey::Shift)
    } else if same_text(lower, "alt") {
        Some(ModifierKey::Alt)
    } else {
        None
    }
}

/// Says what a setting asks to be registered: in the mode `combo` the
/// combination; else the key to tap twice, which takes a keyboard hook
/// where it is a modifier.
pub fn plan_registration(config: &HotkeyConfig) -> (r: Result<Registration, HotkeyError>)
    ensures
        match r {
            Ok(registration) => planned_registration(
                config.mode@,
                config.combo_key@,
                config.double_tap_key@,
            ) == Ok::<Registration, HotkeyFault>(registration),
            Err(e) => planned_registration(config.mode@, config.combo_key@, config.double_tap_key@)
                == Err::<Registration, HotkeyFault>(e@),
        },
{
    match HotkeyMode::from_name(config.mode.as_str()) {
        HotkeyMode::Combo => match parse_combo_key(config.combo_key.as_str()) {
            Ok(hotkey) => Ok(Registration::Combo(hotkey)),
            Err(e) => Err(e),
        },
        HotkeyMode::DoubleTap => {
            let lower = lowercase(config.double_tap_key.as_str());
            match modifier_from_lower(lower.as_str()) {
                Some(modifier) => Ok(Registration::ModifierHook(modifier)),
                None => match parse_key_code(config.double_tap_key.as_str()) {
                    Ok(key) => Ok(
                        Registration::DoubleTapKey(
                            HotKey {
                                modifiers: Modifiers {
                                    control: false,
                                    shift: false,
                                    alt: false,
                                    super_key: false,
                                },
                                key,
                            },
                        ),
                    ),
                    Err(e) => Err(e),
                },
            }
        },
    }
}

/// The virtual keys that stand for a modifier: for the control key the
/// general one and both sides, for the others both sides.
pub open spec fn virtual_keys_of(modifier: ModifierKey) -> Seq<u16> {
    match modifier {
        ModifierKey::Ctrl => seq![0x11u16, 0xA2u16, 0xA3u16],
        ModifierKey::Shift => seq![0xA0u16, 0xA1u16],
        ModifierKey::Alt => seq![0xA4u16, 0xA5u16],
    }
}

/// The virtual keys to watch for a modifier.
pub fn hook_virtual_keys(modifier: ModifierKey) -> (keys: Vec<u16>)
    ensures
        keys@ == virtual_keys_of(modifier),
{
    let mut keys: Vec<u16> = Vec::new();
    match modifier {
        ModifierKey::Ctrl => {
            keys.push(0x11);
            keys.push(0xA2);
            keys.push(0xA3);
        },
        ModifierKey::Shift => {
            keys.push(0xA0);
            keys.push(0xA1);
        },
        ModifierKey::Alt => {
            keys.push(0xA4);
            keys.push(0xA5);
        },
    }
    assert(keys@ =~= virtual_keys_of(modifier));
    keys
}

/// Time between two taps; none where the clock says the second came first.
pub open spec fn elapsed(earlier: u64, later: u64) -> int {
    if later >= earlier {
        later - earlier
    } else {
        0
    }
}

/// What a tap at the time `now` does: with a tap remembered that is no
/// older than the interval it completes a double tap and is forgotten;
/// else it is remembered. The result is what is remembered afterwards and
/// whether the double tap is complete.
pub open spec fn after_tap(interval: u64, last: Option<u64>, now: u64) -> (Option<u64>, bool) {
    match last {
        Some(at) => if elapsed(at, now) <= interval {
            (None, true)
        } else {
            (Some(now), false)
        },
        None => (Some(now), false),
    }
}

/// Tells double taps from single ones.
#[derive(Clone, Copy, Debug, PartialEq, Eq, Structural)]
pub struct DoubleTapDetector {
    interval_ms: u64,
    last_tap: Option<u64>,
}

impl DoubleTapDetector {
    /// Longest time between the two taps, in milliseconds.
    pub closed spec fn interval(&self) -> u64 {
        self.interval_ms
    }

    /// Time of the tap that waits for its second, if one does.
    pub closed spec fn last(&self) -> Option<u64> {
        self.last_tap
    }

    /// A detector that has seen no tap.
    pub fn new(interval_ms: u64) -> (detector: DoubleTapDetector)
        ensures
            detector.interval() == interval_ms,
            detector.last() is None,
    {
        DoubleTapDetector { interval_ms, last_tap: None }
    }

    /// Takes a tap at the time `now_ms` and says whether it completes a
    /// double tap.
    pub fn tap(&mut self, now_ms: u64) -> (complete: bool)
        ensures
            final(self).interval() == old(self).interval(),
            (final(self).last(), complete) == after_tap(
                old(self).interval(),
                old(self).last(),
                now_ms,
            ),
    {
        match self.last_tap {
            Some(at) => {
                let gap = if now_ms >= at {
                    now_ms - at
                } else {
                    0
                };
                if gap <= self.interval_ms {
                    self.last_tap = None;
                    true
                } else {
                    self.last_tap = Some(now_ms);
                    false
                }
            },
            None => {
                self.last_tap = Some(now_ms);
                false
            },
        }
    }
}

/// The tap after a complete double tap never completes another: a double
/// tap takes two taps of its own.
pub proof fn lemma_double_tap_takes_two(interval: u64, last: Option<u64>, now: u64, next: u64)
    requires
        after_tap(interval, last, now).1,
    ensures
        !after_tap(interval, after_tap(interval, last, now).0, next).1,
{
}

} // verus!
