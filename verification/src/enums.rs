//! Outcome types of the binding and the numeric encodings of log levels and
//! open flags, exactly as the native journal service defines them.

use vstd::prelude::*;

verus! {

/// Errors reported by the binding.
///
/// `SDError` carries the negative return code of the native call verbatim;
/// callers must treat it as opaque except for documented well-known values.
/// All other variants are raised by this layer itself, before or after the
/// native call.
#[derive(Debug, Clone, Copy, PartialEq, Eq, Structural)]
pub enum Error {
    /// The native service returned a negative code; it is carried unchanged.
    SDError(i32),
    /// A native buffer was not valid UTF-8 where text was required.
    UTF8Error,
    /// A text argument contains an embedded terminator byte (0x00).
    NullError,
    /// A requested skip distance was negative.
    RangeError,
    /// A field-name argument was not valid UTF-8 where text was required.
    StringError,
    /// A duration cannot be represented in the native microsecond domain.
    TimeStampOutOfRange,
    /// A native `FIELD=value` buffer did not have the promised shape.
    UnexpectedDataFormat,
}

/// Log level of an entry, following the standard syslog severities.
#[derive(Debug, Clone, Copy, PartialEq, Eq, Structural)]
pub enum Level {
    Emergency,
    Alert,
    Critical,
    Error,
    Warning,
    Notice,
    Info,
    Debug,
}

impl Level {
    /// The syslog priority value of this level: 0 (emergency) to 7 (debug),
    /// the `LOG_` constants of the native headers.
    pub open spec fn spec_code(self) -> int {
        match self {
            Level::Emergency => 0,
            Level::Alert => 1,
            Level::Critical => 2,
            Level::Error => 3,
            Level::Warning => 4,
            Level::Notice => 5,
            Level::Info => 6,
            Level::Debug => 7,
        }
    }

    /// The priority record for this level, as written on the wire.
    pub open spec fn spec_raw_str(self) -> Seq<char> {
        match self {
            Level::Emergency => "PRIORITY=0"@,
            Level::Alert => "PRIORITY=1"@,
            Level::Critical => "PRIORITY=2"@,
            Level::Error => "PRIORITY=3"@,
            Level::Warning => "PRIORITY=4"@,
            Level::Notice => "PRIORITY=5"@,
            Level::Info => "PRIORITY=6"@,
            Level::Debug => "PRIORITY=7"@,
        }
    }

    /// The priority value for this level as a decimal digit.
    pub open spec fn spec_value_str(self) -> Seq<char> {
        match self {
            Level::Emergency => "0"@,
            Level::Alert => "1"@,
            Level::Critical => "2"@,
            Level::Error => "3"@,
            Level::Warning => "4"@,
            Level::Notice => "5"@,
            Level::Info => "6"@,
            Level::Debug => "7"@,
        }
    }

    /// The syslog priority value handed to the native write calls.
    pub fn code(&self) -> (r: i32)
        ensures
            r == self.spec_code(),
            0 <= r <= 7,
    {
        match self {
            Level::Emergency => 0,
            Level::Alert => 1,
            Level::Critical => 2,
            Level::Error => 3,
            Level::Warning => 4,
            Level::Notice => 5,
            Level::Info => 6,
            Level::Debug => 7,
        }
    }

    /// Return the raw level record, e.g. `Level::Critical.as_raw_str()`
    /// returns `"PRIORITY=2"`, ready to be used in a raw structured record.
    pub fn as_raw_str(&self) -> (r: &'static str)
        ensures
            r@ == self.spec_raw_str(),
    {
        match self {
            Level::Emergency => "PRIORITY=0",
            Level::Alert => "PRIORITY=1",
            Level::Critical => "PRIORITY=2",
            Level::Error => "PRIORITY=3",
            Level::Warning => "PRIORITY=4",
            Level::Notice => "PRIORITY=5",
            Level::Info => "PRIORITY=6",
            Level::Debug => "PRIORITY=7",
        }
    }

    /// Return the level's value as a string, e.g.
    /// `Level::Critical.as_value_str()` returns `"2"`.
    pub fn as_value_str(&self) -> (r: &'static str)
        ensures
            r@ == self.spec_value_str(),
    {
        match self {
            Level::Emergency => "0",
            Level::Alert => "1",
            Level::Critical => "2",
            Level::Error => "3",
            Level::Warning => "4",
            Level::Notice => "5",
            Level::Info => "6",
            Level::Debug => "7",
        }
    }
}

/// The raw level record is exactly `PRIORITY=` followed by the level's
/// value string, which in turn is the decimal digit of the level's code.
pub proof fn lemma_level_strings_agree(level: Level)
    ensures
        level.spec_raw_str() == "PRIORITY="@ + level.spec_value_str(),
        level.spec_value_str().len() == 1,
        level.spec_value_str()[0] as int == '0' as int + level.spec_code(),
{
    reveal_strlit("PRIORITY=");
    reveal_strlit("PRIORITY=0");
    reveal_strlit("PRIORITY=1");
    reveal_strlit("PRIORITY=2");
    reveal_strlit("PRIORITY=3");
    reveal_strlit("PRIORITY=4");
    reveal_strlit("PRIORITY=5");
    reveal_strlit("PRIORITY=6");
    reveal_strlit("PRIORITY=7");
    reveal_strlit("0");
    reveal_strlit("1");
    reveal_strlit("2");
    reveal_strlit("3");
    reveal_strlit("4");
    reveal_strlit("5");
    reveal_strlit("6");
    reveal_strlit("7");
    assert(level.spec_raw_str() =~= "PRIORITY="@ + level.spec_value_str());
}

/// Outcome of a position-changing operation on the journal cursor.
///
/// - `Done`: the full requested movement was executed.
/// - `Limited(actual)`: the movement was truncated at a boundary of the
///   journal; `actual` is the distance actually moved, never negative.
/// - `EoF`: no movement was executed, the cursor already sat at the
///   boundary.  This is the equivalent of `Limited(0)`.
#[derive(Debug, Clone, Copy, PartialEq, Eq, Structural)]
pub enum CursorMovement {
    Done,
    Limited(i32),
    EoF,
}

/// Outcome of one step of an enumeration (fields of an entry, field names
/// of the journal, unique values of a field): either one more item, or the
/// end of the enumeration.
#[derive(Debug, PartialEq, Eq)]
pub enum Enumeration<T> {
    Value(T),
    EoF,
}

/// Outcome of testing a cursor token against the current position.
#[derive(Debug, Clone, Copy, PartialEq, Eq, Structural)]
pub enum CursorCheck {
    Matches,
    DoesNotMatch,
}

/// Wake reason reported after waiting on or processing journal events.
#[derive(Debug, Clone, Copy, PartialEq, Eq, Structural)]
pub enum Event {
    NOOP,
    Append,
    Invalidate,
}

/// File-related options for opening a journal.
#[derive(Debug, Clone, Copy, PartialEq, Eq, Structural)]
pub enum FileFlags {
    RuntimeOnly,
    LocalOnly,
    LocalRuntimeOnly,
    AllFiles,
}

/// User-related options for opening a journal.
#[derive(Debug, Clone, Copy, PartialEq, Eq, Structural)]
pub enum UserFlags {
    SystemOnly,
    CurrentUserOnly,
    CurrentUserAndSystemOnly,
    AllUsers,
}

/// Namespace-related options for opening a journal.
#[derive(Debug, Clone, Copy, PartialEq, Eq, Structural)]
pub enum NamespaceFlags {
    SelectedNamespaceOnly,
    DefaultNamespaceIncluded,
}

/// Path-related options for opening a journal.
#[derive(Debug, Clone, Copy, PartialEq, Eq, Structural)]
pub enum PathFlags {
    FullPath,
    PathToOSRoot,
}

impl FileFlags {
    /// The native bit for this option: `RUNTIME_ONLY` is bit 1 and
    /// `LOCAL_ONLY` is bit 0 of the native open flags.
    pub open spec fn spec_bits(self) -> int {
        match self {
            FileFlags::RuntimeOnly => 2,
            FileFlags::LocalOnly => 1,
            FileFlags::LocalRuntimeOnly => 3,
            FileFlags::AllFiles => 0,
        }
    }

    /// The native open-flag bits selected by this option.
    pub fn bits(&self) -> (r: i32)
        ensures
            r == self.spec_bits(),
    {
        match self {
            FileFlags::RuntimeOnly => 2,
            FileFlags::LocalOnly => 1,
            FileFlags::LocalRuntimeOnly => 3,
            FileFlags::AllFiles => 0,
        }
    }
}

impl UserFlags {
    /// The native bit for this option: `SYSTEM` is bit 2 and
    /// `CURRENT_USER` is bit 3 of the native open flags.
    pub open spec fn spec_bits(self) -> int {
        match self {
            UserFlags::SystemOnly => 4,
            UserFlags::CurrentUserOnly => 8,
            UserFlags::CurrentUserAndSystemOnly => 12,
            UserFlags::AllUsers => 0,
        }
    }

    /// The native open-flag bits selected by this option.
    pub fn bits(&self) -> (r: i32)
        ensures
            r == self.spec_bits(),
    {
        match self {
            UserFlags::SystemOnly => 4,
            UserFlags::CurrentUserOnly => 8,
            UserFlags::CurrentUserAndSystemOnly => 12,
            UserFlags::AllUsers => 0,
        }
    }
}

impl NamespaceFlags {
    /// The native bit for this option: `INCLUDE_DEFAULT_NAMESPACE` is bit 6
    /// of the native open flags.
    pub open spec fn spec_bits(self) -> int {
        match self {
            NamespaceFlags::SelectedNamespaceOnly => 0,
            NamespaceFlags::DefaultNamespaceIncluded => 64,
        }
    }

    /// The native open-flag bits selected by this option.
    pub fn bits(&self) -> (r: i32)
        ensures
            r == self.spec_bits(),
    {
        match self {
            NamespaceFlags::SelectedNamespaceOnly => 0,
            NamespaceFlags::DefaultNamespaceIncluded => 64,
        }
    }
}

impl PathFlags {
    /// The native bit for this option: `OS_ROOT` is bit 4 of the native
    /// open flags.
    pub open spec fn spec_bits(self) -> int {
        match self {
            PathFlags::FullPath => 0,
            PathFlags::PathToOSRoot => 16,
        }
    }

    /// The native open-flag bits selected by this option.
    pub fn bits(&self) -> (r: i32)
        ensures
            r == self.spec_bits(),
    {
        match self {
            PathFlags::FullPath => 0,
            PathFlags::PathToOSRoot => 16,
        }
    }
}

/// The native bit requesting that every namespace be opened at once:
/// `ALL_NAMESPACES`, bit 5 of the native open flags.
pub const ALL_NAMESPACES_BIT: i32 = 32;

} // verus!
