use error_core::ErrorCode;

fn all_codes() -> Vec<ErrorCode> {
    vec![
        ErrorCode::NoError,
        ErrorCode::NotAFile,
        ErrorCode::NotADirectory,
        ErrorCode::FileNotFound,
        ErrorCode::DirectoryUnusable,
        ErrorCode::FileExtensionNotMatched,
        ErrorCode::DataNotFound,
        ErrorCode::DataEmpty,
        ErrorCode::EnumVisitorEmpty,
        ErrorCode::UniqueBoxLocked,
        ErrorCode::UniqueRefLocked,
        ErrorCode::SerializationFailed,
        ErrorCode::DeserializationFailed,
        ErrorCode::LackOfPipelines,
        ErrorCode::SolverNotFound,
        ErrorCode::OREngineEnvironmentLost,
        ErrorCode::OREngineConnectionOvertime,
        ErrorCode::OREngineModelingException,
        ErrorCode::OREngineSolvingException,
        ErrorCode::OREngineTerminated,
        ErrorCode::ORModelNoSolution,
        ErrorCode::ORModelUnbounded,
        ErrorCode::ORSolutionInvalid,
        ErrorCode::ApplicationFailed,
        ErrorCode::ApplicationError,
        ErrorCode::ApplicationException,
        ErrorCode::ApplicationStopped,
        ErrorCode::Other,
        ErrorCode::Unknown,
    ]
}

#[test]
fn integer_round_trip_for_every_code() {
    for c in all_codes() {
        assert_eq!(ErrorCode::from_integer(c.to_integer()), c);
    }
}

#[test]
fn exact_integer_values() {
    assert_eq!(ErrorCode::NoError.to_integer(), 0);
    assert_eq!(ErrorCode::NotAFile.to_integer(), 0x100);
    assert_eq!(ErrorCode::DeserializationFailed.to_integer(), 0x10b);
    assert_eq!(ErrorCode::LackOfPipelines.to_integer(), 0x1000);
    assert_eq!(ErrorCode::ORSolutionInvalid.to_integer(), 0x1009);
    assert_eq!(ErrorCode::ApplicationFailed.to_integer(), 0x10000);
    assert_eq!(ErrorCode::ApplicationStopped.to_integer(), 0x10003);
}

#[test]
fn undefined_values_resolve_to_unknown() {
    for v in [1u64, 0xff, 0x10c, 0x1ff, 0x100a, 0x1fff, 0x10004, 0x1ffff, 42, u64::MAX - 2] {
        assert_eq!(ErrorCode::from_integer(v), ErrorCode::Unknown);
    }
}

#[test]
fn sentinel_values_top_of_range() {
    assert_eq!(ErrorCode::Unknown.to_integer(), u64::MAX);
    assert_eq!(ErrorCode::Other.to_integer(), u64::MAX - 1);
    for c in all_codes() {
        if c != ErrorCode::Unknown {
            assert_ne!(c.to_integer(), u64::MAX);
        }
        if c != ErrorCode::Other {
            assert_ne!(c.to_integer(), u64::MAX - 1);
        }
    }
}

#[test]
fn integer_values_all_distinct() {
    let codes = all_codes();
    for a in &codes {
        for b in &codes {
            if a != b {
                assert_ne!(a.to_integer(), b.to_integer());
            }
        }
    }
}

#[test]
fn parse_inverts_name_for_every_named_code() {
    for c in all_codes() {
        if let Some(n) = c.name() {
            assert_eq!(ErrorCode::parse(n), Some(c));
        }
    }
}

#[test]
fn exact_names() {
    assert_eq!(ErrorCode::NoError.name(), Some("none"));
    assert_eq!(ErrorCode::NotAFile.name(), Some("not a file"));
    assert_eq!(
        ErrorCode::OREngineConnectionOvertime.name(),
        Some("or engine connection overtime")
    );
    assert_eq!(ErrorCode::ApplicationException.name(), Some("application exception"));
    assert_eq!(ErrorCode::Other.name(), Some("other"));
    assert_eq!(ErrorCode::Unknown.name(), Some("unknown"));
}

#[test]
fn internal_only_codes_have_no_name() {
    assert_eq!(ErrorCode::EnumVisitorEmpty.name(), None);
    assert_eq!(ErrorCode::UniqueBoxLocked.name(), None);
    assert_eq!(ErrorCode::UniqueRefLocked.name(), None);
}

#[test]
fn internal_only_codes_cannot_be_parsed() {
    assert_eq!(ErrorCode::parse("enum visitor empty"), None);
    assert_eq!(ErrorCode::parse("unique box locked"), None);
    assert_eq!(ErrorCode::parse("unique ref locked"), None);
    assert_eq!(ErrorCode::parse("EnumVisitorEmpty"), None);
}

#[test]
fn parse_is_case_sensitive_and_exact() {
    assert_eq!(ErrorCode::parse("not a file"), Some(ErrorCode::NotAFile));
    assert_eq!(ErrorCode::parse("Not A File"), None);
    assert_eq!(ErrorCode::parse("NONE"), None);
    assert_eq!(ErrorCode::parse("or engine terminated"), Some(ErrorCode::OREngineTerminated));
    assert_eq!(ErrorCode::parse("OR engine terminated"), None);
    assert_eq!(ErrorCode::parse("not a file "), None);
    assert_eq!(ErrorCode::parse(""), None);
}

#[test]
fn from_and_into_conversions() {
    assert_eq!(ErrorCode::from(0x1000u64), ErrorCode::LackOfPipelines);
    assert_eq!(ErrorCode::from(7u64), ErrorCode::Unknown);
    let v: u64 = ErrorCode::DataEmpty.into();
    assert_eq!(v, 0x106);
    assert_eq!(u64::from(ErrorCode::Unknown), u64::MAX);
}

#[test]
fn codes_are_ordered_by_integer_value() {
    let codes = all_codes();
    for a in &codes {
        for b in &codes {
            assert_eq!(*a < *b, a.to_integer() < b.to_integer());
        }
    }
    assert!(ErrorCode::NoError < ErrorCode::NotAFile);
    assert!(ErrorCode::DataEmpty < ErrorCode::LackOfPipelines);
    assert!(ErrorCode::ORSolutionInvalid < ErrorCode::ApplicationFailed);
    assert!(ErrorCode::ApplicationStopped < ErrorCode::Other);
    assert!(ErrorCode::Other < ErrorCode::Unknown);
}
