//! Key strokes that put text into the window that has the focus.
//!
//! Which key events stand for a text is decided here; sending them to the
//! system is the caller's part.

use vstd::prelude::*;

verus! {

/// Flag of an event that releases a key.
pub const KEYEVENTF_KEYUP: u32 = 2;

/// Flag of an event that carries a character instead of a key.
pub const KEYEVENTF_UNICODE: u32 = 4;

/// Flags of the release of a character.
pub const KEYEVENTF_UNICODE_KEYUP: u32 = 6;

/// Virtual key of the backspace.
pub const VK_BACK: u16 = 8;

/// One key event.
#[derive(Clone, Copy, Debug, PartialEq, Eq, Structural)]
pub struct KeyInput {
    pub virtual_key: u16,
    pub scan_code: u16,
    pub flags: u32,
}

/// The UTF-16 units of one character: the character itself where it fits
/// 16 bits, else a high and a low surrogate.
pub open spec fn utf16_of_char(c: char) -> Seq<u16> {
    if (c as u32) < 0x10000 {
        seq![c as u32 as u16]
    } else {
        seq![
            (0xD800 + ((c as u32) - 0x10000) / 0x400) as u16,
            (0xDC00 + ((c as u32) - 0x10000) % 0x400) as u16,
        ]
    }
}

/// The UTF-16 units of a text.
pub open spec fn utf16_of(text: Seq<char>) -> Seq<u16>
    decreases text.len(),
{
    if text.len() == 0 {
        Seq::empty()
    } else {
        utf16_of_char(text[0]) + utf16_of(text.drop_first())
    }
}

/// The event that presses or releases the character `unit`.
pub open spec fn unicode_input(unit: u16, key_down: bool) -> KeyInput {
    KeyInput {
        virtual_key: 0,
        scan_code: unit,
        flags: if key_down {
            KEYEVENTF_UNICODE
        } else {
            KEYEVENTF_UNICODE_KEYUP
        },
    }
}

/// The event that presses or releases the key `virtual_key`.
pub open spec fn key_input(virtual_key: u16, key_down: bool) -> KeyInput {
    KeyInput {
        virtual_key,
        scan_code: 0,
        flags: if key_down {
            0
        } else {
            KEYEVENTF_KEYUP
        },
    }
}

/// The events that type `units`: each unit is pressed and released.
pub open spec fn typing(units: Seq<u16>) -> Seq<KeyInput> {
    Seq::new(2 * units.len(), |i: int| unicode_input(units[i / 2], i % 2 == 0))
}

/// The events that delete `count` characters: the backspace is pressed and
/// released `count` times.
pub open spec fn deleting(count: nat) -> Seq<KeyInput> {
    Seq::new(2 * count, |i: int| key_input(VK_BACK, i % 2 == 0))
}

/// Calls `str::encode_utf16` and collects the units.
#[verifier::external_body]
pub(crate) fn utf16_units(text: &str) -> (units: Vec<u16>)
    ensures
        units@ == utf16_of(text@),
{
    text.encode_utf16().collect()
}

/// Turns text into key strokes.
#[derive(Clone, Copy, Debug, PartialEq, Eq, Structural)]
pub struct TextInserter;

impl TextInserter {
    /// An inserter.
    pub fn new() -> (inserter: TextInserter)
        ensures
            inserter == TextInserter,
    {
        TextInserter
    }

    /// The event that presses or releases the character `unit`.
    pub fn create_unicode_input(&self, unit: u16, key_down: bool) -> (input: KeyInput)
        ensures
            input == unicode_input(unit, key_down),
    {
        KeyInput {
            virtual_key: 0,
            scan_code: unit,
            flags: if key_down {
                KEYEVENTF_UNICODE
            } else {
                KEYEVENTF_UNICODE_KEYUP
            },
        }
    }

    /// The event that presses or releases the key `virtual_key`.
    pub fn create_key_input(&self, virtual_key: u16, key_down: bool) -> (input: KeyInput)
        ensures
            input == key_input(virtual_key, key_down),
    {
        KeyInput {
            virtual_key,
            scan_code: 0,
            flags: if key_down {
                0
            } else {
                KEYEVENTF_KEYUP
            },
        }
    }

    /// The events that type the given UTF-16 units.
    pub fn type_units(&self, units: &Vec<u16>) -> (inputs: Vec<KeyInput>)
        ensures
            inputs@ == typing(units@),
    {
        let mut inputs: Vec<KeyInput> = Vec::new();
        let mut i: usize = 0;
        while i < units.len()
            invariant
                i <= units.len(),
                inputs@ == typing(units@.take(i as int)),
            decreases units.len() - i,
        {
            let unit = units[i];
            inputs.push(self.create_unicode_input(unit, true));
            inputs.push(self.create_unicode_input(unit, false));
            i += 1;
            assert(inputs@ =~= typing(units@.take(i as int)));
        }
        assert(units@.take(i as int) =~= units@);
        inputs
    }

    /// The events that type `text` into the window that has the focus; none
    /// for an empty text.
    pub fn insert(&self, text: &str) -> (inputs: Vec<KeyInput>)
        ensures
            inputs@ == typing(utf16_of(text@)),
    {
        let units = utf16_units(text);
        self.type_units(&units)
    }

    /// The events that delete `count` characters before the cursor.
    pub fn delete_chars(&self, count: usize) -> (inputs: Vec<KeyInput>)
        ensures
            inputs@ == deleting(count as nat),
    {
        let mut inputs: Vec<KeyInput> = Vec::new();
        let mut i: usize = 0;
        while i < count
            invariant
                i <= count,
                inputs@ == deleting(i as nat),
            decreases count - i,
        {
            inputs.push(self.create_key_input(VK_BACK, true));
            inputs.push(self.create_key_input(VK_BACK, false));
            i += 1;
            assert(inputs@ =~= deleting(i as nat));
        }
        inputs
    }

    /// Whether the system took all the events it was given; `sent` is the
    /// number it reports.
    pub fn all_sent(&self, inputs: &Vec<KeyInput>, sent: u32) -> (all: bool)
        ensures
            all == (sent as int == inputs@.len()),
    {
        sent as usize == inputs.len()
    }
}

impl Default for TextInserter {
    fn default() -> (inserter: TextInserter) {
        TextInserter::new()
    }
}

} // verus!
