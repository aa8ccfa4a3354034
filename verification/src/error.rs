//! The error-code space and the two-tier error taxonomy.
//!
//! Codes are a closed, totally-ordered set of named constants stored as
//! 64-bit unsigned values, partitioned into namespaces: `0x000` holds the
//! no-error sentinel, `0x100`..`0x1FF` generic I/O and data errors,
//! `0x1000`..`0x1FFF` domain-solver errors, `0x10000`..`0x1FFFF`
//! application-lifecycle errors, and the top of the range holds the
//! `Unknown` and `Other` sentinels.

use vstd::prelude::*;

verus! {

use vstd::std_specs::cmp::PartialOrdSpec;

/// The closed space of numeric error codes.
///
/// Every code has a fixed integer value (`to_integer`), and any `u64`
/// resolves back to a code (`from_integer`), with values outside the
/// defined set mapping to `Unknown`.
#[derive(Clone, Copy, Debug, PartialEq, Eq, Structural)]
pub enum ErrorCode {
    NoError,
    NotAFile,
    NotADirectory,
    FileNotFound,
    DirectoryUnusable,
    FileExtensionNotMatched,
    DataNotFound,
    DataEmpty,
    EnumVisitorEmpty,
    UniqueBoxLocked,
    UniqueRefLocked,
    SerializationFailed,
    DeserializationFailed,
    LackOfPipelines,
    SolverNotFound,
    OREngineEnvironmentLost,
    OREngineConnectionOvertime,
    OREngineModelingException,
    OREngineSolvingException,
    OREngineTerminated,
    ORModelNoSolution,
    ORModelUnbounded,
    ORSolutionInvalid,
    ApplicationFailed,
    ApplicationError,
    ApplicationException,
    ApplicationStopped,
    Other,
    Unknown,
}

impl ErrorCode {
    /// The integer value of each code: the stable wire representation.
    pub open spec fn spec_to_integer(self) -> u64 {
        match self {
            ErrorCode::NoError => 0,
            ErrorCode::NotAFile => 0x100,
            ErrorCode::NotADirectory => 0x101,
            ErrorCode::FileNotFound => 0x102,
            ErrorCode::DirectoryUnusable => 0x103,
            ErrorCode::FileExtensionNotMatched => 0x104,
            ErrorCode::DataNotFound => 0x105,
            ErrorCode::DataEmpty => 0x106,
            ErrorCode::EnumVisitorEmpty => 0x107,
            ErrorCode::UniqueBoxLocked => 0x108,
            ErrorCode::UniqueRefLocked => 0x109,
            ErrorCode::SerializationFailed => 0x10a,
            ErrorCode::DeserializationFailed => 0x10b,
            ErrorCode::LackOfPipelines => 0x1000,
            ErrorCode::SolverNotFound => 0x1001,
            ErrorCode::OREngineEnvironmentLost => 0x1002,
            ErrorCode::OREngineConnectionOvertime => 0x1003,
            ErrorCode::OREngineModelingException => 0x1004,
            ErrorCode::OREngineSolvingException => 0x1005,
            ErrorCode::OREngineTerminated => 0x1006,
            ErrorCode::ORModelNoSolution => 0x1007,
            ErrorCode::ORModelUnbounded => 0x1008,
            ErrorCode::ORSolutionInvalid => 0x1009,
            ErrorCode::ApplicationFailed => 0x10000,
            ErrorCode::ApplicationError => 0x10001,
            ErrorCode::ApplicationException => 0x10002,
            ErrorCode::ApplicationStopped => 0x10003,
            ErrorCode::Other => 0xffff_ffff_ffff_fffe,
            ErrorCode::Unknown => 0xffff_ffff_ffff_ffff,
        }
    }

    /// The code denoted by an integer: the matching constant where one is
    /// defined, and `Unknown` for every other value.
    pub open spec fn spec_from_integer(v: u64) -> ErrorCode {
        if v == 0 {
            ErrorCode::NoError
        } else if v == 0x100 {
            ErrorCode::NotAFile
        } else if v == 0x101 {
            ErrorCode::NotADirectory
        } else if v == 0x102 {
            ErrorCode::FileNotFound
        } else if v == 0x103 {
            ErrorCode::DirectoryUnusable
        } else if v == 0x104 {
            ErrorCode::FileExtensionNotMatched
        } else if v == 0x105 {
            ErrorCode::DataNotFound
        } else if v == 0x106 {
            ErrorCode::DataEmpty
        } else if v == 0x107 {
            ErrorCode::EnumVisitorEmpty
        } else if v == 0x108 {
            ErrorCode::UniqueBoxLocked
        } else if v == 0x109 {
            ErrorCode::UniqueRefLocked
        } else if v == 0x10a {
            ErrorCode::SerializationFailed
        } else if v == 0x10b {
            ErrorCode::DeserializationFailed
        } else if v == 0x1000 {
            ErrorCode::LackOfPipelines
        } else if v == 0x1001 {
            ErrorCode::SolverNotFound
        } else if v == 0x1002 {
            ErrorCode::OREngineEnvironmentLost
        } else if v == 0x1003 {
            ErrorCode::OREngineConnectionOvertime
        } else if v == 0x1004 {
            ErrorCode::OREngineModelingException
        } else if v == 0x1005 {
            ErrorCode::OREngineSolvingException
        } else if v == 0x1006 {
            ErrorCode::OREngineTerminated
        } else if v == 0x1007 {
            ErrorCode::ORModelNoSolution
        } else if v == 0x1008 {
            ErrorCode::ORModelUnbounded
        } else if v == 0x1009 {
            ErrorCode::ORSolutionInvalid
        } else if v == 0x10000 {
            ErrorCode::ApplicationFailed
        } else if v == 0x10001 {
            ErrorCode::ApplicationError
        } else if v == 0x10002 {
            ErrorCode::ApplicationException
        } else if v == 0x10003 {
            ErrorCode::ApplicationStopped
        } else if v == 0xffff_ffff_ffff_fffe {
            ErrorCode::Other
        } else {
            ErrorCode::Unknown
        }
    }

    /// The stable integer value of this code. Total and injective: no two
    /// codes share a value.
    pub fn to_integer(self) -> (r: u64)
        ensures
            r == self.spec_to_integer(),
    {
        match self {
            ErrorCode::NoError => 0,
            ErrorCode::NotAFile => 0x100,
            ErrorCode::NotADirectory => 0x101,
            ErrorCode::FileNotFound => 0x102,
            ErrorCode::DirectoryUnusable => 0x103,
            ErrorCode::FileExtensionNotMatched => 0x104,
            ErrorCode::DataNotFound => 0x105,
            ErrorCode::DataEmpty => 0x106,
            ErrorCode::EnumVisitorEmpty => 0x107,
            ErrorCode::UniqueBoxLocked => 0x108,
            ErrorCode::UniqueRefLocked => 0x109,
            ErrorCode::SerializationFailed => 0x10a,
            ErrorCode::DeserializationFailed => 0x10b,
            ErrorCode::LackOfPipelines => 0x1000,
            ErrorCode::SolverNotFound => 0x1001,
            ErrorCode::OREngineEnvironmentLost => 0x1002,
            ErrorCode::OREngineConnectionOvertime => 0x1003,
            ErrorCode::OREngineModelingException => 0x1004,
            ErrorCode::OREngineSolvingException => 0x1005,
            ErrorCode::OREngineTerminated => 0x1006,
            ErrorCode::ORModelNoSolution => 0x1007,
            ErrorCode::ORModelUnbounded => 0x1008,
            ErrorCode::ORSolutionInvalid => 0x1009,
            ErrorCode::ApplicationFailed => 0x10000,
            ErrorCode::ApplicationError => 0x10001,
            ErrorCode::ApplicationException => 0x10002,
            ErrorCode::ApplicationStopped => 0x10003,
            ErrorCode::Other => 0xffff_ffff_ffff_fffe,
            ErrorCode::Unknown => 0xffff_ffff_ffff_ffff,
        }
    }

    /// Resolve an integer to a code. Total: an unrecognized value gives
    /// `Unknown` rather than failing, since inputs may come from untrusted
    /// or cross-version sources.
    pub fn from_integer(v: u64) -> (r: ErrorCode)
        ensures
            r == ErrorCode::spec_from_integer(v),
    {
        if v == 0 {
            ErrorCode::NoError
        } else if v == 0x100 {
            ErrorCode::NotAFile
        } else if v == 0x101 {
            ErrorCode::NotADirectory
        } else if v == 0x102 {
            ErrorCode::FileNotFound
        } else if v == 0x103 {
            ErrorCode::DirectoryUnusable
        } else if v == 0x104 {
            ErrorCode::FileExtensionNotMatched
        } else if v == 0x105 {
            ErrorCode::DataNotFound
        } else if v == 0x106 {
            ErrorCode::DataEmpty
        } else if v == 0x107 {
            ErrorCode::EnumVisitorEmpty
        } else if v == 0x108 {
            ErrorCode::UniqueBoxLocked
        } else if v == 0x109 {
            ErrorCode::UniqueRefLocked
        } else if v == 0x10a {
            ErrorCode::SerializationFailed
        } else if v == 0x10b {
            ErrorCode::DeserializationFailed
        } else if v == 0x1000 {
            ErrorCode::LackOfPipelines
        } else if v == 0x1001 {
            ErrorCode::SolverNotFound
        } else if v == 0x1002 {
            ErrorCode::OREngineEnvironmentLost
        } else if v == 0x1003 {
            ErrorCode::OREngineConnectionOvertime
        } else if v == 0x1004 {
            ErrorCode::OREngineModelingException
        } else if v == 0x1005 {
            ErrorCode::OREngineSolvingException
        } else if v == 0x1006 {
            ErrorCode::OREngineTerminated
        } else if v == 0x1007 {
            ErrorCode::ORModelNoSolution
        } else if v == 0x1008 {
            ErrorCode::ORModelUnbounded
        } else if v == 0x1009 {
            ErrorCode::ORSolutionInvalid
        } else if v == 0x10000 {
            ErrorCode::ApplicationFailed
        } else if v == 0x10001 {
            ErrorCode::ApplicationError
        } else if v == 0x10002 {
            ErrorCode::ApplicationException
        } else if v == 0x10003 {
            ErrorCode::ApplicationStopped
        } else if v == 0xffff_ffff_ffff_fffe {
            ErrorCode::Other
        } else {
            ErrorCode::Unknown
        }
    }
}

impl ErrorCode {
    /// The canonical textual form of each code: lowercase and
    /// space-separated where one is declared, and nothing for the three
    /// internal-only codes, which are unnamed by design.
    pub open spec fn spec_name(self) -> Option<Seq<char>> {
        match self {
            ErrorCode::NoError => Some("none"@),
            ErrorCode::NotAFile => Some("not a file"@),
            ErrorCode::NotADirectory => Some("not a directory"@),
            ErrorCode::FileNotFound => Some("file not found"@),
            ErrorCode::DirectoryUnusable => Some("directory unusable"@),
            ErrorCode::FileExtensionNotMatched => Some("file extension not matched"@),
            ErrorCode::DataNotFound => Some("data not found"@),
            ErrorCode::DataEmpty => Some("data empty"@),
            ErrorCode::EnumVisitorEmpty => None,
            ErrorCode::UniqueBoxLocked => None,
            ErrorCode::UniqueRefLocked => None,
            ErrorCode::SerializationFailed => Some("serialization failed"@),
            ErrorCode::DeserializationFailed => Some("deserialization failed"@),
            ErrorCode::LackOfPipelines => Some("lack of pipelines"@),
            ErrorCode::SolverNotFound => Some("solver not found"@),
            ErrorCode::OREngineEnvironmentLost => Some("or engine environment lost"@),
            ErrorCode::OREngineConnectionOvertime => Some("or engine connection overtime"@),
            ErrorCode::OREngineModelingException => Some("or engine modeling exception"@),
            ErrorCode::OREngineSolvingException => Some("or engine solving exception"@),
            ErrorCode::OREngineTerminated => Some("or engine terminated"@),
            ErrorCode::ORModelNoSolution => Some("or model no solution"@),
            ErrorCode::ORModelUnbounded => Some("or model unbounded"@),
            ErrorCode::ORSolutionInvalid => Some("or solution invalid"@),
            ErrorCode::ApplicationFailed => Some("application failed"@),
            ErrorCode::ApplicationError => Some("application error"@),
            ErrorCode::ApplicationException => Some("application exception"@),
            ErrorCode::ApplicationStopped => Some("application stopped"@),
            ErrorCode::Other => Some("other"@),
            ErrorCode::Unknown => Some("unknown"@),
        }
    }

    /// The code whose declared textual form is exactly `s`, if any. The
    /// internal-only codes declare none, so no string resolves to them.
    pub open spec fn spec_parse(s: Seq<char>) -> Option<ErrorCode> {
        if s == "none"@ {
            Some(ErrorCode::NoError)
        } else if s == "not a file"@ {
            Some(ErrorCode::NotAFile)
        } else if s == "not a directory"@ {
            Some(ErrorCode::NotADirectory)
        } else if s == "file not found"@ {
            Some(ErrorCode::FileNotFound)
        } else if s == "directory unusable"@ {
            Some(ErrorCode::DirectoryUnusable)
        } else if s == "file extension not matched"@ {
            Some(ErrorCode::FileExtensionNotMatched)
        } else if s == "data not found"@ {
            Some(ErrorCode::DataNotFound)
        } else if s == "data empty"@ {
            Some(ErrorCode::DataEmpty)
        } else if s == "serialization failed"@ {
            Some(ErrorCode::SerializationFailed)
        } else if s == "deserialization failed"@ {
            Some(ErrorCode::DeserializationFailed)
        } else if s == "lack of pipelines"@ {
            Some(ErrorCode::LackOfPipelines)
        } else if s == "solver not found"@ {
            Some(ErrorCode::SolverNotFound)
        } else if s == "or engine environment lost"@ {
            Some(ErrorCode::OREngineEnvironmentLost)
        } else if s == "or engine connection overtime"@ {
            Some(ErrorCode::OREngineConnectionOvertime)
        } else if s == "or engine modeling exception"@ {
            Some(ErrorCode::OREngineModelingException)
        } else if s == "or engine solving exception"@ {
            Some(ErrorCode::OREngineSolvingException)
        } else if s == "or engine terminated"@ {
            Some(ErrorCode::OREngineTerminated)
        } else if s == "or model no solution"@ {
            Some(ErrorCode::ORModelNoSolution)
        } else if s == "or model unbounded"@ {
            Some(ErrorCode::ORModelUnbounded)
        } else if s == "or solution invalid"@ {
            Some(ErrorCode::ORSolutionInvalid)
        } else if s == "application failed"@ {
            Some(ErrorCode::ApplicationFailed)
        } else if s == "application error"@ {
            Some(ErrorCode::ApplicationError)
        } else if s == "application exception"@ {
            Some(ErrorCode::ApplicationException)
        } else if s == "application stopped"@ {
            Some(ErrorCode::ApplicationStopped)
        } else if s == "other"@ {
            Some(ErrorCode::Other)
        } else if s == "unknown"@ {
            Some(ErrorCode::Unknown)
        } else {
            None
        }
    }

    /// The canonical textual form of this code, or nothing for the three
    /// internal-only codes: absence of a name is distinct from not being
    /// a valid code.
    pub fn name(self) -> (r: Option<&'static str>)
        ensures
            r.deep_view() == self.spec_name(),
    {
        match self {
            ErrorCode::NoError => Some("none"),
            ErrorCode::NotAFile => Some("not a file"),
            ErrorCode::NotADirectory => Some("not a directory"),
            ErrorCode::FileNotFound => Some("file not found"),
            ErrorCode::DirectoryUnusable => Some("directory unusable"),
            ErrorCode::FileExtensionNotMatched => Some("file extension not matched"),
            ErrorCode::DataNotFound => Some("data not found"),
            ErrorCode::DataEmpty => Some("data empty"),
            ErrorCode::EnumVisitorEmpty => None,
            ErrorCode::UniqueBoxLocked => None,
            ErrorCode::UniqueRefLocked => None,
            ErrorCode::SerializationFailed => Some("serialization failed"),
            ErrorCode::DeserializationFailed => Some("deserialization failed"),
            ErrorCode::LackOfPipelines => Some("lack of pipelines"),
            ErrorCode::SolverNotFound => Some("solver not found"),
            ErrorCode::OREngineEnvironmentLost => Some("or engine environment lost"),
            ErrorCode::OREngineConnectionOvertime => Some("or engine connection overtime"),
            ErrorCode::OREngineModelingException => Some("or engine modeling exception"),
            ErrorCode::OREngineSolvingException => Some("or engine solving exception"),
            ErrorCode::OREngineTerminated => Some("or engine terminated"),
            ErrorCode::ORModelNoSolution => Some("or model no solution"),
            ErrorCode::ORModelUnbounded => Some("or model unbounded"),
            ErrorCode::ORSolutionInvalid => Some("or solution invalid"),
            ErrorCode::ApplicationFailed => Some("application failed"),
            ErrorCode::ApplicationError => Some("application error"),
            ErrorCode::ApplicationException => Some("application exception"),
            ErrorCode::ApplicationStopped => Some("application stopped"),
            ErrorCode::Other => Some("other"),
            ErrorCode::Unknown => Some("unknown"),
        }
    }

    /// Resolve a declared textual form back to its code: the inverse of
    /// [`Self::name`], by case-sensitive exact match. Internal-only codes
    /// are unparsable by design, so external code cannot fabricate them
    /// by name.
    pub fn parse(s: &str) -> (r: Option<ErrorCode>)
        ensures
            r == ErrorCode::spec_parse(s@),
    {
        if str_eq(s, "none") {
            Some(ErrorCode::NoError)
        } else if str_eq(s, "not a file") {
            Some(ErrorCode::NotAFile)
        } else if str_eq(s, "not a directory") {
            Some(ErrorCode::NotADirectory)
        } else if str_eq(s, "file not found") {
            Some(ErrorCode::FileNotFound)
        } else if str_eq(s, "directory unusable") {
            Some(ErrorCode::DirectoryUnusable)
        } else if str_eq(s, "file extension not matched") {
            Some(ErrorCode::FileExtensionNotMatched)
        } else if str_eq(s, "data not found") {
            Some(ErrorCode::DataNotFound)
        } else if str_eq(s, "data empty") {
            Some(ErrorCode::DataEmpty)
        } else if str_eq(s, "serialization failed") {
            Some(ErrorCode::SerializationFailed)
        } else if str_eq(s, "deserialization failed") {
            Some(ErrorCode::DeserializationFailed)
        } else if str_eq(s, "lack of pipelines") {
            Some(ErrorCode::LackOfPipelines)
        } else if str_eq(s, "solver not found") {
            Some(ErrorCode::SolverNotFound)
        } else if str_eq(s, "or engine environment lost") {
            Some(ErrorCode::OREngineEnvironmentLost)
        } else if str_eq(s, "or engine connection overtime") {
            Some(ErrorCode::OREngineConnectionOvertime)
        } else if str_eq(s, "or engine modeling exception") {
            Some(ErrorCode::OREngineModelingException)
        } else if str_eq(s, "or engine solving exception") {
            Some(ErrorCode::OREngineSolvingException)
        } else if str_eq(s, "or engine terminated") {
            Some(ErrorCode::OREngineTerminated)
        } else if str_eq(s, "or model no solution") {
            Some(ErrorCode::ORModelNoSolution)
        } else if str_eq(s, "or model unbounded") {
            Some(ErrorCode::ORModelUnbounded)
        } else if str_eq(s, "or solution invalid") {
            Some(ErrorCode::ORSolutionInvalid)
        } else if str_eq(s, "application failed") {
            Some(ErrorCode::ApplicationFailed)
        } else if str_eq(s, "application error") {
            Some(ErrorCode::ApplicationError)
        } else if str_eq(s, "application exception") {
            Some(ErrorCode::ApplicationException)
        } else if str_eq(s, "application stopped") {
            Some(ErrorCode::ApplicationStopped)
        } else if str_eq(s, "other") {
            Some(ErrorCode::Other)
        } else if str_eq(s, "unknown") {
            Some(ErrorCode::Unknown)
        } else {
            None
        }
    }
}

/// Exact equality of two string slices, by content.
fn str_eq(a: &str, b: &str) -> (r: bool)
    ensures
        r == (a@ == b@),
{
    let sa: String = a.to_owned();
    let sb: String = b.to_owned();
    sa == sb
}

/// Converting an integer to a code goes through the total lookup: any
/// unrecognized value becomes `Unknown`.
impl From<u64> for ErrorCode {
    fn from(value: u64) -> (r: Self) {
        ErrorCode::from_integer(value)
    }
}

impl vstd::std_specs::convert::FromSpecImpl<u64> for ErrorCode {
    open spec fn obeys_from_spec() -> bool {
        true
    }

    open spec fn from_spec(value: u64) -> Self {
        ErrorCode::spec_from_integer(value)
    }
}

/// Converting a code to an integer yields its stable wire value.
impl From<ErrorCode> for u64 {
    fn from(code: ErrorCode) -> (r: u64) {
        code.to_integer()
    }
}

impl vstd::std_specs::convert::FromSpecImpl<ErrorCode> for u64 {
    open spec fn obeys_from_spec() -> bool {
        true
    }

    open spec fn from_spec(code: ErrorCode) -> u64 {
        code.spec_to_integer()
    }
}

/// Codes are totally ordered by their integer values.
impl PartialOrd for ErrorCode {
    fn partial_cmp(&self, other: &Self) -> (r: Option<core::cmp::Ordering>) {
        let a = self.to_integer();
        let b = other.to_integer();
        if a < b {
            Some(core::cmp::Ordering::Less)
        } else if a == b {
            Some(core::cmp::Ordering::Equal)
        } else {
            Some(core::cmp::Ordering::Greater)
        }
    }
}

impl vstd::std_specs::cmp::PartialOrdSpecImpl for ErrorCode {
    open spec fn obeys_partial_cmp_spec() -> bool {
        true
    }

    open spec fn partial_cmp_spec(&self, other: &Self) -> Option<core::cmp::Ordering> {
        if self.spec_to_integer() < other.spec_to_integer() {
            Some(core::cmp::Ordering::Less)
        } else if self.spec_to_integer() == other.spec_to_integer() {
            Some(core::cmp::Ordering::Equal)
        } else {
            Some(core::cmp::Ordering::Greater)
        }
    }
}

/// Law: converting a code to its integer and back yields the same code,
/// for every defined code.
pub proof fn lemma_integer_round_trip(c: ErrorCode)
    ensures
        ErrorCode::spec_from_integer(c.spec_to_integer()) == c,
{
}

/// Law: the integer encoding is injective; no two codes share a value.
pub proof fn lemma_integer_injective(a: ErrorCode, b: ErrorCode)
    ensures
        a.spec_to_integer() == b.spec_to_integer() ==> a == b,
{
    lemma_integer_round_trip(a);
    lemma_integer_round_trip(b);
}

/// Law: an integer that equals no defined code's value resolves to
/// `Unknown`.
pub proof fn lemma_from_integer_undefined(v: u64)
    requires
        forall|c: ErrorCode| c.spec_to_integer() != v,
    ensures
        ErrorCode::spec_from_integer(v) == ErrorCode::Unknown,
{
    assert(ErrorCode::NoError.spec_to_integer() != v);
    assert(ErrorCode::NotAFile.spec_to_integer() != v);
    assert(ErrorCode::NotADirectory.spec_to_integer() != v);
    assert(ErrorCode::FileNotFound.spec_to_integer() != v);
    assert(ErrorCode::DirectoryUnusable.spec_to_integer() != v);
    assert(ErrorCode::FileExtensionNotMatched.spec_to_integer() != v);
    assert(ErrorCode::DataNotFound.spec_to_integer() != v);
    assert(ErrorCode::DataEmpty.spec_to_integer() != v);
    assert(ErrorCode::EnumVisitorEmpty.spec_to_integer() != v);
    assert(ErrorCode::UniqueBoxLocked.spec_to_integer() != v);
    assert(ErrorCode::UniqueRefLocked.spec_to_integer() != v);
    assert(ErrorCode::SerializationFailed.spec_to_integer() != v);
    assert(ErrorCode::DeserializationFailed.spec_to_integer() != v);
    assert(ErrorCode::LackOfPipelines.spec_to_integer() != v);
    assert(ErrorCode::SolverNotFound.spec_to_integer() != v);
    assert(ErrorCode::OREngineEnvironmentLost.spec_to_integer() != v);
    assert(ErrorCode::OREngineConnectionOvertime.spec_to_integer() != v);
    assert(ErrorCode::OREngineModelingException.spec_to_integer() != v);
    assert(ErrorCode::OREngineSolvingException.spec_to_integer() != v);
    assert(ErrorCode::OREngineTerminated.spec_to_integer() != v);
    assert(ErrorCode::ORModelNoSolution.spec_to_integer() != v);
    assert(ErrorCode::ORModelUnbounded.spec_to_integer() != v);
    assert(ErrorCode::ORSolutionInvalid.spec_to_integer() != v);
    assert(ErrorCode::ApplicationFailed.spec_to_integer() != v);
    assert(ErrorCode::ApplicationError.spec_to_integer() != v);
    assert(ErrorCode::ApplicationException.spec_to_integer() != v);
    assert(ErrorCode::ApplicationStopped.spec_to_integer() != v);
    assert(ErrorCode::Other.spec_to_integer() != v);
    assert(ErrorCode::Unknown.spec_to_integer() != v);
}

/// Law: the two top-of-range sentinels sit at the very top of the `u64`
/// domain, and no other code shares either value.
pub proof fn lemma_sentinel_values()
    ensures
        ErrorCode::Unknown.spec_to_integer() == u64::MAX,
        ErrorCode::Other.spec_to_integer() == u64::MAX - 1,
        forall|c: ErrorCode|
            c != ErrorCode::Unknown ==> #[trigger] c.spec_to_integer() != u64::MAX,
        forall|c: ErrorCode|
            c != ErrorCode::Other ==> #[trigger] c.spec_to_integer() != u64::MAX - 1,
{
    assert forall|c: ErrorCode|
        c != ErrorCode::Unknown implies #[trigger] c.spec_to_integer() != u64::MAX by {
        lemma_integer_injective(c, ErrorCode::Unknown);
    }
    assert forall|c: ErrorCode|
        c != ErrorCode::Other implies #[trigger] c.spec_to_integer() != u64::MAX - 1 by {
        lemma_integer_injective(c, ErrorCode::Other);
    }
}

/// Law: parsing a code's declared textual form yields that code back,
/// for every named code.
pub proof fn lemma_parse_name(c: ErrorCode)
    ensures
        c.spec_name() matches Some(s) ==> ErrorCode::spec_parse(s) == Some(c),
{
    reveal_strlit("none");
    reveal_strlit("not a file");
    reveal_strlit("not a directory");
    reveal_strlit("file not found");
    reveal_strlit("directory unusable");
    reveal_strlit("file extension not matched");
    reveal_strlit("data not found");
    reveal_strlit("data empty");
    reveal_strlit("serialization failed");
    reveal_strlit("deserialization failed");
    reveal_strlit("lack of pipelines");
    reveal_strlit("solver not found");
    reveal_strlit("or engine environment lost");
    reveal_strlit("or engine connection overtime");
    reveal_strlit("or engine modeling exception");
    reveal_strlit("or engine solving exception");
    reveal_strlit("or engine terminated");
    reveal_strlit("or model no solution");
    reveal_strlit("or model unbounded");
    reveal_strlit("or solution invalid");
    reveal_strlit("application failed");
    reveal_strlit("application error");
    reveal_strlit("application exception");
    reveal_strlit("application stopped");
    reveal_strlit("other");
    reveal_strlit("unknown");
    assert(("none"@).len() == 4);
    assert(("not a file"@).len() == 10);
    assert(("not a directory"@).len() == 15);
    assert(("file not found"@).len() == 14);
    assert(("directory unusable"@).len() == 18);
    assert(("file extension not matched"@).len() == 26);
    assert(("data not found"@).len() == 14);
    assert(("data empty"@).len() == 10);
    assert(("serialization failed"@).len() == 20);
    assert(("deserialization failed"@).len() == 22);
    assert(("lack of pipelines"@).len() == 17);
    assert(("solver not found"@).len() == 16);
    assert(("or engine environment lost"@).len() == 26);
    assert(("or engine connection overtime"@).len() == 29);
    assert(("or engine modeling exception"@).len() == 28);
    assert(("or engine solving exception"@).len() == 27);
    assert(("or engine terminated"@).len() == 20);
    assert(("or model no solution"@).len() == 20);
    assert(("or model unbounded"@).len() == 18);
    assert(("or solution invalid"@).len() == 19);
    assert(("application failed"@).len() == 18);
    assert(("application error"@).len() == 17);
    assert(("application exception"@).len() == 21);
    assert(("application stopped"@).len() == 19);
    assert(("other"@).len() == 5);
    assert(("unknown"@).len() == 7);
    // Equal-length names are told apart by a character where they differ.
    assert(("not a file"@)[0] == 'n' && ("data empty"@)[0] == 'd');
    assert(("file not found"@)[0] == 'f' && ("data not found"@)[0] == 'd');
    assert(("file extension not matched"@)[0] == 'f' && ("or engine environment lost"@)[0]
        == 'o');
    assert(("serialization failed"@)[0] == 's' && ("or engine terminated"@)[0] == 'o'
        && ("or model no solution"@)[0] == 'o');
    assert(("or engine terminated"@)[3] == 'e' && ("or model no solution"@)[3] == 'm');
    assert(("directory unusable"@)[0] == 'd' && ("or model unbounded"@)[0] == 'o'
        && ("application failed"@)[0] == 'a');
    assert(("lack of pipelines"@)[0] == 'l' && ("application error"@)[0] == 'a');
    assert(("or solution invalid"@)[0] == 'o' && ("application stopped"@)[0] == 'a');
}

/// Law: the three internal-only codes declare no textual form.
pub proof fn lemma_internal_codes_unnamed()
    ensures
        ErrorCode::EnumVisitorEmpty.spec_name() is None,
        ErrorCode::UniqueBoxLocked.spec_name() is None,
        ErrorCode::UniqueRefLocked.spec_name() is None,
{
}

/// The message capability: every error value exposes the human-readable
/// description supplied at construction, unchanged.
pub trait Error {
    /// The message the error was constructed with.
    spec fn spec_what(&self) -> Seq<char>;

    /// The human-readable description supplied at construction.
    fn what(&self) -> (r: &str)
        ensures
            r@ == self.spec_what(),
    ;
}

/// Logic errors: contract or precondition violations, detectable without
/// an operation classification. They carry no code, and that absence is a
/// type-level fact: no method of this trait or its implementors queries a
/// code.
pub trait LogicError: Error {

}

/// Runtime errors: operational failures the caller may branch on. Every
/// runtime error carries a code from the error-code space.
pub trait RuntimeError: Error {
    /// The code the error was constructed with.
    spec fn spec_code(&self) -> ErrorCode;

    /// The code classifying this operational failure.
    fn code(&self) -> (r: ErrorCode)
        ensures
            r == self.spec_code(),
    ;
}

/// The context capability of extended errors: an optional typed value
/// describing the offending input.
pub trait ExError<T>: Error {
    /// The context value the error was constructed with.
    spec fn spec_arg(&self) -> Option<T>;

    /// The data value implicated in the failure, if one was supplied.
    fn arg(&self) -> (r: &Option<T>)
        ensures
            *r == self.spec_arg(),
    ;
}

/// Extended logic errors: logic errors that also carry a context value.
pub trait ExLogicError<T>: LogicError + ExError<T> {

}

/// Extended runtime errors: runtime errors that also carry a context
/// value.
pub trait ExRuntimeError<T>: RuntimeError + ExError<T> {

}

/// The kinds of logic error. The kind carries no behavior of its own: it
/// is an identity used for categorization and exhaustive matching at call
/// sites.
#[derive(Clone, Copy, Debug, PartialEq, Eq, Structural)]
pub enum LogicKind {
    InvalidArgument,
    DomainError,
    LengthError,
    OutOfRange,
}

/// The kinds of runtime error. As with [`LogicKind`], the kind is pure
/// identity.
#[derive(Clone, Copy, Debug, PartialEq, Eq, Structural)]
pub enum RuntimeKind {
    ApplicationError,
    RangeError,
    OverflowError,
    UnderflowError,
    SystemError,
    FilesystemError,
}

/// A plain logic error: a kind and a message.
pub struct LogicFailure {
    kind: LogicKind,
    msg: String,
}

impl LogicFailure {
    /// The kind the error was constructed with.
    pub closed spec fn spec_kind(self) -> LogicKind {
        self.kind
    }

    /// Construct a plain logic error. Construction never fails: it is
    /// pure data assembly.
    pub fn new(kind: LogicKind, msg: String) -> (r: Self)
        ensures
            r.spec_kind() == kind,
            r.spec_what() == msg@,
    {
        LogicFailure { kind, msg }
    }

    /// The kind of this error.
    pub fn kind(&self) -> (r: LogicKind)
        ensures
            r == self.spec_kind(),
    {
        self.kind
    }
}

impl Error for LogicFailure {
    closed spec fn spec_what(&self) -> Seq<char> {
        self.msg@
    }

    fn what(&self) -> (r: &str) {
        self.msg.as_str()
    }
}

impl LogicError for LogicFailure {

}

/// An extended logic error: a kind, a message, and an optional context
/// value describing the offending input.
pub struct ExLogicFailure<T> {
    kind: LogicKind,
    msg: String,
    arg: Option<T>,
}

impl<T> ExLogicFailure<T> {
    /// The kind the error was constructed with.
    pub closed spec fn spec_kind(self) -> LogicKind {
        self.kind
    }

    /// Construct an extended logic error. Construction never fails. The
    /// context value, if present, is owned by the error.
    pub fn new(kind: LogicKind, msg: String, arg: Option<T>) -> (r: Self)
        ensures
            r.spec_kind() == kind,
            r.spec_what() == msg@,
            r.spec_arg() == arg,
    {
        ExLogicFailure { kind, msg, arg }
    }

    /// The kind of this error.
    pub fn kind(&self) -> (r: LogicKind)
        ensures
            r == self.spec_kind(),
    {
        self.kind
    }
}

impl<T> Error for ExLogicFailure<T> {
    closed spec fn spec_what(&self) -> Seq<char> {
        self.msg@
    }

    fn what(&self) -> (r: &str) {
        self.msg.as_str()
    }
}

impl<T> LogicError for ExLogicFailure<T> {

}

impl<T> ExError<T> for ExLogicFailure<T> {
    closed spec fn spec_arg(&self) -> Option<T> {
        self.arg
    }

    fn arg(&self) -> (r: &Option<T>) {
        &self.arg
    }
}

impl<T> ExLogicError<T> for ExLogicFailure<T> {

}

/// A plain runtime error: a kind, a code from the error-code space, and a
/// message.
pub struct RuntimeFailure {
    kind: RuntimeKind,
    code: ErrorCode,
    msg: String,
}

impl RuntimeFailure {
    /// The kind the error was constructed with.
    pub closed spec fn spec_kind(self) -> RuntimeKind {
        self.kind
    }

    /// Construct a plain runtime error. Construction never fails. An
    /// empty message is valid.
    pub fn new(kind: RuntimeKind, code: ErrorCode, msg: String) -> (r: Self)
        ensures
            r.spec_kind() == kind,
            r.spec_code() == code,
            r.spec_what() == msg@,
    {
        RuntimeFailure { kind, code, msg }
    }

    /// The kind of this error.
    pub fn kind(&self) -> (r: RuntimeKind)
        ensures
            r == self.spec_kind(),
    {
        self.kind
    }
}

impl Error for RuntimeFailure {
    closed spec fn spec_what(&self) -> Seq<char> {
        self.msg@
    }

    fn what(&self) -> (r: &str) {
        self.msg.as_str()
    }
}

impl RuntimeError for RuntimeFailure {
    closed spec fn spec_code(&self) -> ErrorCode {
        self.code
    }

    fn code(&self) -> (r: ErrorCode) {
        self.code
    }
}

/// An extended runtime error: a kind, a code, a message, and an optional
/// context value describing the offending input.
pub struct ExRuntimeFailure<T> {
    kind: RuntimeKind,
    code: ErrorCode,
    msg: String,
    arg: Option<T>,
}

impl<T> ExRuntimeFailure<T> {
    /// The kind the error was constructed with.
    pub closed spec fn spec_kind(self) -> RuntimeKind {
        self.kind
    }

    /// Construct an extended runtime error. Construction never fails. The
    /// context value, if present, is owned by the error.
    pub fn new(kind: RuntimeKind, code: ErrorCode, msg: String, arg: Option<T>) -> (r: Self)
        ensures
            r.spec_kind() == kind,
            r.spec_code() == code,
            r.spec_what() == msg@,
            r.spec_arg() == arg,
    {
        ExRuntimeFailure { kind, code, msg, arg }
    }

    /// The kind of this error.
    pub fn kind(&self) -> (r: RuntimeKind)
        ensures
            r == self.spec_kind(),
    {
        self.kind
    }
}

impl<T> Error for ExRuntimeFailure<T> {
    closed spec fn spec_what(&self) -> Seq<char> {
        self.msg@
    }

    fn what(&self) -> (r: &str) {
        self.msg.as_str()
    }
}

impl<T> RuntimeError for ExRuntimeFailure<T> {
    closed spec fn spec_code(&self) -> ErrorCode {
        self.code
    }

    fn code(&self) -> (r: ErrorCode) {
        self.code
    }
}

impl<T> ExError<T> for ExRuntimeFailure<T> {
    closed spec fn spec_arg(&self) -> Option<T> {
        self.arg
    }

    fn arg(&self) -> (r: &Option<T>) {
        &self.arg
    }
}

impl<T> ExRuntimeError<T> for ExRuntimeFailure<T> {

}

/// Law: comparison of codes agrees with comparison of their integer
/// values; in particular `a < b` exactly when
/// `to_integer(a) < to_integer(b)`.
pub proof fn lemma_order_by_integer(a: ErrorCode, b: ErrorCode)
    ensures
        a.partial_cmp_spec(&b) == Some(core::cmp::Ordering::Less) <==> a.spec_to_integer()
            < b.spec_to_integer(),
        a.partial_cmp_spec(&b) == Some(core::cmp::Ordering::Equal) <==> a == b,
        a.partial_cmp_spec(&b) == Some(core::cmp::Ordering::Greater) <==> a.spec_to_integer()
            > b.spec_to_integer(),
{
    lemma_integer_injective(a, b);
}

} // verus!
