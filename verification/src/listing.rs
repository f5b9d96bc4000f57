//! Describing what a directory holds: the kind of an entry, its size, and
//! its times as text.

use crate::foreign::{utc_timestamp, utc_timestamp_text};
use vstd::prelude::*;

verus! {

/// The pattern in which a time is written: year, month, day, hour, minute
/// and second.
pub open spec fn timestamp_pattern() -> Seq<char> {
    "%Y-%m-%d %H:%M:%S"@
}

/// The signed number that an unsigned count of seconds is read as: itself
/// up to the largest signed value, and wrapped around beyond it.
pub open spec fn as_signed_secs(secs: u64) -> int {
    if secs <= i64::MAX {
        secs as int
    } else {
        secs - 0x1_0000_0000_0000_0000
    }
}

/// A time as text: the moment `secs` seconds after the start of 1970 in
/// UTC, or `Unknown` where the calendar does not reach that far.
pub open spec fn time_text(secs: u64) -> Seq<char> {
    match utc_timestamp_text(as_signed_secs(secs), timestamp_pattern()) {
        Some(text) => text,
        None => "Unknown"@,
    }
}

/// Writes a time as text.
pub fn format_time(secs: u64) -> (r: String)
    ensures
        r@ == time_text(secs),
{
    let signed: i64 = if secs <= 0x7fff_ffff_ffff_ffff {
        secs as i64
    } else {
        ((secs - 0x8000_0000_0000_0000) as i64) + i64::MIN
    };
    match utc_timestamp(signed, "%Y-%m-%d %H:%M:%S") {
        Some(text) => text,
        None => String::from_str("Unknown"),
    }
}

/// The text of an optional time.
pub open spec fn optional_time_text(secs: Option<u64>) -> Option<Seq<char>> {
    match secs {
        Some(s) => Some(time_text(s)),
        None => None,
    }
}

/// Writes an optional time as text.
pub fn format_optional_time(secs: Option<u64>) -> (r: Option<String>)
    ensures
        match r {
            Some(text) => optional_time_text(secs) == Some(text@),
            None => optional_time_text(secs) is None,
        },
{
    match secs {
        Some(s) => Some(format_time(s)),
        None => None,
    }
}

/// The name of an entry's type: `directory` for a directory, `file` for
/// anything else.
pub open spec fn item_type_text(is_dir: bool) -> Seq<char> {
    if is_dir {
        "directory"@
    } else {
        "file"@
    }
}

/// The name of an entry's type.
pub fn item_type_name(is_dir: bool) -> (r: &'static str)
    ensures
        r@ == item_type_text(is_dir),
{
    if is_dir {
        "directory"
    } else {
        "file"
    }
}

/// What the disk says of an entry.
#[derive(Clone, Copy, Debug, PartialEq, Eq)]
pub struct EntryFacts {
    pub is_dir: bool,
    pub is_file: bool,
    pub len: u64,
    /// Seconds from the start of 1970 to the last change, where known.
    pub modified: Option<u64>,
}

/// One entry of a directory listing.
#[derive(Clone, Debug, PartialEq, Eq)]
pub struct DirectoryItem {
    pub name: String,
    /// `file` or `directory`.
    pub item_type: String,
    /// The length in bytes, for a regular file.
    pub size: Option<u64>,
    pub modified: Option<String>,
}

/// The mathematical value of a [`DirectoryItem`].
pub struct ItemModel {
    pub name: Seq<char>,
    pub item_type: Seq<char>,
    pub size: Option<u64>,
    pub modified: Option<Seq<char>>,
}

impl View for DirectoryItem {
    type V = ItemModel;

    open spec fn view(&self) -> ItemModel {
        ItemModel {
            name: self.name@,
            item_type: self.item_type@,
            size: self.size,
            modified: match self.modified {
                Some(m) => Some(m@),
                None => None,
            },
        }
    }
}

/// The listing entry for a name and what the disk says of it.
pub open spec fn listed(name: Seq<char>, facts: EntryFacts) -> ItemModel {
    ItemModel {
        name,
        item_type: item_type_text(facts.is_dir),
        size: if facts.is_file {
            Some(facts.len)
        } else {
            None
        },
        modified: optional_time_text(facts.modified),
    }
}

impl DirectoryItem {
    /// The listing entry for a name and what the disk says of it.
    pub fn describe(name: String, facts: EntryFacts) -> (r: DirectoryItem)
        ensures
            r@ == listed(name@, facts),
    {
        DirectoryItem {
            name,
            item_type: String::from_str(item_type_name(facts.is_dir)),
            size: if facts.is_file {
                Some(facts.len)
            } else {
                None
            },
            modified: format_optional_time(facts.modified),
        }
    }
}

/// The octal digit `d` as a character.
pub open spec fn octal_char(d: nat) -> char
    recommends
        d < 8,
{
    if d == 0 {
        '0'
    } else if d == 1 {
        '1'
    } else if d == 2 {
        '2'
    } else if d == 3 {
        '3'
    } else if d == 4 {
        '4'
    } else if d == 5 {
        '5'
    } else if d == 6 {
        '6'
    } else {
        '7'
    }
}

/// The octal rendering of `n`: no prefix, no leading zero, `"0"` for zero.
pub open spec fn octal_digits(n: nat) -> Seq<char>
    decreases n,
{
    if n < 8 {
        seq![octal_char(n)]
    } else {
        octal_digits(n / 8).push(octal_char(n % 8))
    }
}

fn octal_str(d: u32) -> (r: &'static str)
    requires
        d < 8,
    ensures
        r@ == seq![octal_char(d as nat)],
{
    proof {
        reveal_strlit("0");
        reveal_strlit("1");
        reveal_strlit("2");
        reveal_strlit("3");
        reveal_strlit("4");
        reveal_strlit("5");
        reveal_strlit("6");
        reveal_strlit("7");
    }
    match d {
        0 => "0",
        1 => "1",
        2 => "2",
        3 => "3",
        4 => "4",
        5 => "5",
        6 => "6",
        _ => "7",
    }
}

/// Appends the octal rendering of `n` to `out`.
pub fn push_octal(out: &mut String, n: u32)
    ensures
        final(out)@ == old(out)@ + octal_digits(n as nat),
    decreases n,
{
    if n >= 8 {
        push_octal(out, n / 8);
    }
    out.append(octal_str(n % 8));
}

/// How an entry may be accessed, as the platform tells it.
#[derive(Clone, Copy, Debug, PartialEq, Eq)]
pub enum Access {
    /// The permission bits of a Unix mode.
    Mode(u32),
    /// Whether the entry is read-only, where that is all there is.
    ReadOnly(bool),
}

/// The permissions as text: a mode in octal; `readonly` or `readwrite`.
pub open spec fn permissions_text(access: Access) -> Seq<char> {
    match access {
        Access::Mode(mode) => octal_digits(mode as nat),
        Access::ReadOnly(true) => "readonly"@,
        Access::ReadOnly(false) => "readwrite"@,
    }
}

/// Writes the permissions as text.
pub fn get_permissions_string(access: Access) -> (r: String)
    ensures
        r@ == permissions_text(access),
{
    match access {
        Access::Mode(mode) => {
            let mut out = String::new();
            push_octal(&mut out, mode);
            out
        },
        Access::ReadOnly(true) => String::from_str("readonly"),
        Access::ReadOnly(false) => String::from_str("readwrite"),
    }
}

/// What the disk says of one item.
#[derive(Clone, Copy, Debug, PartialEq, Eq)]
pub struct ItemFacts {
    pub is_dir: bool,
    pub len: u64,
    /// Seconds from the start of 1970, where known.
    pub created: Option<u64>,
    pub modified: Option<u64>,
    pub accessed: Option<u64>,
    pub access: Access,
}

/// The description of one file or directory.
#[derive(Clone, Debug, PartialEq, Eq)]
pub struct FileInfo {
    pub name: String,
    /// `file` or `directory`.
    pub item_type: String,
    pub size: u64,
    pub created: Option<String>,
    pub modified: Option<String>,
    pub accessed: Option<String>,
    pub permissions: String,
}

/// The mathematical value of a [`FileInfo`].
pub struct InfoModel {
    pub name: Seq<char>,
    pub item_type: Seq<char>,
    pub size: u64,
    pub created: Option<Seq<char>>,
    pub modified: Option<Seq<char>>,
    pub accessed: Option<Seq<char>>,
    pub permissions: Seq<char>,
}

/// The text of an optional string.
pub open spec fn optional_text(s: Option<String>) -> Option<Seq<char>> {
    match s {
        Some(t) => Some(t@),
        None => None,
    }
}

impl View for FileInfo {
    type V = InfoModel;

    open spec fn view(&self) -> InfoModel {
        InfoModel {
            name: self.name@,
            item_type: self.item_type@,
            size: self.size,
            created: optional_text(self.created),
            modified: optional_text(self.modified),
            accessed: optional_text(self.accessed),
            permissions: self.permissions@,
        }
    }
}

/// The description of an item from its name and what the disk says of it.
pub open spec fn described(name: Seq<char>, facts: ItemFacts) -> InfoModel {
    InfoModel {
        name,
        item_type: item_type_text(facts.is_dir),
        size: facts.len,
        created: optional_time_text(facts.created),
        modified: optional_time_text(facts.modified),
        accessed: optional_time_text(facts.accessed),
        permissions: permissions_text(facts.access),
    }
}

impl FileInfo {
    /// The description of an item from its name and what the disk says of
    /// it.
    pub fn describe(name: String, facts: ItemFacts) -> (r: FileInfo)
        ensures
            r@ == described(name@, facts),
    {
        FileInfo {
            name,
            item_type: String::from_str(item_type_name(facts.is_dir)),
            size: facts.len,
            created: format_optional_time(facts.created),
            modified: format_optional_time(facts.modified),
            accessed: format_optional_time(facts.accessed),
            permissions: get_permissions_string(facts.access),
        }
    }
}

} // verus!
