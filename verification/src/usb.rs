//! USB vendor and product ids, and the whitelist of compatible boards.
//!
//! The whitelist is bundled as text: each entry gives a vendor id and a
//! product id in hexadecimal, with or without `0x` in front. It is read once,
//! when the program starts, and a malformed entry is a configuration error.

use crate::error::{IdParseError, ViewerError};
use vstd::prelude::*;
use vstd::string::StrSliceExecFns;

verus! {

/// A whitelist entry as it is written: two hexadecimal texts.
#[derive(Clone, Debug, PartialEq, Eq)]
pub struct UsbStringDef {
    pub vid: String,
    pub pid: String,
}

/// A whitelist entry as it is used: the two ids as numbers.
#[derive(Clone, Copy, Debug, PartialEq, Eq, Structural)]
pub struct UsbDefinition {
    pub vid: u16,
    pub pid: u16,
}

/// The value of a hexadecimal digit, in either case.
pub open spec fn hex_digit_value(c: char) -> Option<nat> {
    let n = c as u32;
    if 0x30 <= n <= 0x39 {
        Some((n - 0x30) as nat)
    } else if 0x61 <= n <= 0x66 {
        Some((n - 0x61 + 10) as nat)
    } else if 0x41 <= n <= 0x46 {
        Some((n - 0x41 + 10) as nat)
    } else {
        None
    }
}

/// The text without the `0x` marks at its start, however many there are.
pub open spec fn strip_hex_marks(text: Seq<char>) -> Seq<char>
    decreases text.len(),
{
    if text.len() >= 2 && text[0] == '0' && text[1] == 'x' {
        strip_hex_marks(text.skip(2))
    } else {
        text
    }
}

/// The digits of a number: the text without a plus sign in front of them.
pub open spec fn strip_plus_sign(text: Seq<char>) -> Seq<char> {
    if text.len() >= 2 && text[0] == '+' {
        text.skip(1)
    } else {
        text
    }
}

/// Reads digits from left to right onto the number read so far. The first
/// character that is no digit, or the first digit with which the number no
/// longer fits in sixteen bits, ends the reading with its error.
pub open spec fn read_hex_digits(digits: Seq<char>, so_far: nat) -> Result<nat, IdParseError>
    decreases digits.len(),
{
    if digits.len() == 0 {
        Ok(so_far)
    } else {
        match hex_digit_value(digits[0]) {
            None => Err(IdParseError::InvalidDigit),
            Some(d) => if 16 * so_far + d > u16::MAX {
                Err(IdParseError::Overflow)
            } else {
                read_hex_digits(digits.skip(1), 16 * so_far + d)
            },
        }
    }
}

/// The id that a text stands for: after the `0x` marks and an optional plus
/// sign, one hexadecimal digit or more, with a value of at most `0xFFFF`.
pub open spec fn usb_id_of(text: Seq<char>) -> Result<u16, IdParseError> {
    let body = strip_hex_marks(text);
    if body.len() == 0 {
        Err(IdParseError::Empty)
    } else {
        match read_hex_digits(strip_plus_sign(body), 0) {
            Ok(n) => Ok(n as u16),
            Err(e) => Err(e),
        }
    }
}

/// The definition that an entry stands for. The product id is read first, so
/// that its error is the one reported when both are malformed.
pub open spec fn definition_of(vid: Seq<char>, pid: Seq<char>) -> Result<
    UsbDefinition,
    IdParseError,
> {
    match usb_id_of(pid) {
        Err(e) => Err(e),
        Ok(p) => match usb_id_of(vid) {
            Err(e) => Err(e),
            Ok(v) => Ok(UsbDefinition { vid: v, pid: p }),
        },
    }
}

fn hex_digit(c: char) -> (value: Option<u32>)
    ensures
        match value {
            Some(d) => hex_digit_value(c) == Some(d as nat) && d < 16,
            None => hex_digit_value(c) is None,
        },
{
    let n = c as u32;
    if 0x30 <= n && n <= 0x39 {
        Some(n - 0x30)
    } else if 0x61 <= n && n <= 0x66 {
        Some(n - 0x61 + 10)
    } else if 0x41 <= n && n <= 0x46 {
        Some(n - 0x41 + 10)
    } else {
        None
    }
}

/// Reads a USB id from its hexadecimal text.
pub fn parse_usb_id(text: &str) -> (id: Result<u16, IdParseError>)
    ensures
        id == usb_id_of(text@),
{
    let len = text.unicode_len();
    let mut start: usize = 0;
    assert(text@.skip(0) =~= text@);
    while len - start >= 2 && text.get_char(start) == '0' && text.get_char(start + 1) == 'x'
        invariant
            start <= len,
            len == text@.len(),
            strip_hex_marks(text@) == strip_hex_marks(text@.skip(start as int)),
        decreases len - start,
    {
        assert(text@.skip(start as int).skip(2) == text@.skip(start + 2));
        start += 2;
    }
    assert(strip_hex_marks(text@) == text@.skip(start as int));
    if start == len {
        return Err(IdParseError::Empty);
    }
    if len - start >= 2 && text.get_char(start) == '+' {
        assert(text@.skip(start as int).skip(1) == text@.skip(start + 1));
        start += 1;
    }
    let ghost digits = strip_plus_sign(strip_hex_marks(text@));
    assert(digits == text@.skip(start as int));
    assert(strip_hex_marks(text@).len() > 0);
    let mut value: u32 = 0;
    let mut i: usize = start;
    while i < len
        invariant
            start <= i <= len,
            len == text@.len(),
            value <= u16::MAX,
            strip_hex_marks(text@).len() > 0,
            digits == strip_plus_sign(strip_hex_marks(text@)),
            read_hex_digits(digits, 0) == read_hex_digits(text@.skip(i as int), value as nat),
        decreases len - i,
    {
        assert(text@.skip(i as int).skip(1) == text@.skip(i + 1));
        assert(text@.skip(i as int)[0] == text@[i as int]);
        match hex_digit(text.get_char(i)) {
            None => {
                return Err(IdParseError::InvalidDigit);
            },
            Some(d) => {
                let next: u32 = 16 * value + d;
                if next > 0xFFFF {
                    return Err(IdParseError::Overflow);
                }
                value = next;
            },
        }
        i += 1;
    }
    assert(text@.skip(len as int).len() == 0);
    Ok(value as u16)
}

impl UsbStringDef {
    pub fn new(vid: String, pid: String) -> (def: UsbStringDef)
        ensures
            def.vid == vid,
            def.pid == pid,
    {
        UsbStringDef { vid, pid }
    }
}

impl TryFrom<UsbStringDef> for UsbDefinition {
    type Error = IdParseError;

    /// Reads both ids of an entry.
    fn try_from(def: UsbStringDef) -> (read: Result<UsbDefinition, IdParseError>) {
        UsbDefinition::from_texts(def.vid.as_str(), def.pid.as_str())
    }
}

impl vstd::std_specs::convert::TryFromSpecImpl<UsbStringDef> for UsbDefinition {
    open spec fn obeys_try_from_spec() -> bool {
        true
    }

    open spec fn try_from_spec(def: UsbStringDef) -> Result<UsbDefinition, IdParseError> {
        definition_of(def.vid@, def.pid@)
    }
}

impl UsbDefinition {
    /// Reads a definition from the texts of its two ids.
    pub fn from_texts(vid: &str, pid: &str) -> (read: Result<UsbDefinition, IdParseError>)
        ensures
            read == definition_of(vid@, pid@),
    {
        let p = match parse_usb_id(pid) {
            Ok(p) => p,
            Err(e) => {
                return Err(e);
            },
        };
        let v = match parse_usb_id(vid) {
            Ok(v) => v,
            Err(e) => {
                return Err(e);
            },
        };
        Ok(UsbDefinition { vid: v, pid: p })
    }

    pub open spec fn spec_matches(&self, vid: u16, pid: u16) -> bool {
        self.vid == vid && self.pid == pid
    }

    /// Whether a port with these ids is the board of this definition.
    #[verifier::when_used_as_spec(spec_matches)]
    pub fn matches(&self, vid: u16, pid: u16) -> (same: bool)
        ensures
            same == self.spec_matches(vid, pid),
    {
        self.vid == vid && self.pid == pid
    }
}

/// Whether every entry up to a position can be read.
pub open spec fn entries_readable(defs: Seq<UsbStringDef>, upto: int) -> bool {
    forall|j: int| 0 <= j < upto ==> (#[trigger] definition_of(defs[j].vid@, defs[j].pid@)) is Ok
}

/// Reads the whitelist. Every entry must be well formed: the first that is
/// not gives the configuration error, and nothing is loaded.
pub fn load_whitelist(defs: &Vec<UsbStringDef>) -> (loaded: Result<Vec<UsbDefinition>, ViewerError>)
    ensures
        match loaded {
            Ok(list) => {
                &&& list@.len() == defs@.len()
                &&& forall|i: int|
                    0 <= i < defs@.len() ==> #[trigger] definition_of(defs@[i].vid@, defs@[i].pid@)
                        == Ok::<UsbDefinition, IdParseError>(list@[i])
            },
            Err(e) => exists|i: int|
                {
                    &&& 0 <= i < defs@.len()
                    &&& entries_readable(defs@, i)
                    &&& #[trigger] definition_of(defs@[i].vid@, defs@[i].pid@) matches Err(cause)
                    &&& e == ViewerError::ConfigError(cause)
                },
        },
{
    let mut list: Vec<UsbDefinition> = Vec::new();
    let mut i: usize = 0;
    while i < defs.len()
        invariant
            i <= defs@.len(),
            list@.len() == i,
            forall|j: int|
                0 <= j < i ==> #[trigger] definition_of(defs@[j].vid@, defs@[j].pid@) == Ok::<
                    UsbDefinition,
                    IdParseError,
                >(list@[j]),
        decreases defs@.len() - i,
    {
        match UsbDefinition::from_texts(defs[i].vid.as_str(), defs[i].pid.as_str()) {
            Ok(def) => {
                list.push(def);
            },
            Err(cause) => {
                assert(entries_readable(defs@, i as int));
                assert(definition_of(defs@[i as int].vid@, defs@[i as int].pid@) == Err::<
                    UsbDefinition,
                    IdParseError,
                >(cause));
                return Err(ViewerError::ConfigError(cause));
            },
        }
        i += 1;
    }
    Ok(list)
}

} // verus!
