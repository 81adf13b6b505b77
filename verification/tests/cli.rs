//! End-to-end behaviour of the argument model: crate-specification
//! parsing, output-target mapping, verbosity, the cross-field rule,
//! and the grammar's error cases.

use cargo_download::{
    parse_from_argv, ArgsError, Crate, CrateError, CrateVersion, CrateVersionError, MatchError,
    Matches, Options, Output, Requirement, Version,
};

fn argv(parts: &[&str]) -> Vec<String> {
    parts.iter().map(|p| p.to_string()).collect()
}

#[test]
fn bare_name_parses_to_any_requirement() {
    let c = Crate::from_str("foo").unwrap();
    assert_eq!(c.name(), "foo");
    assert!(c.exact_version().is_none());
    assert_eq!(c.version_requirement().as_text(), "*");
    assert_eq!(c.to_text(), "foo=*");
}

#[test]
fn underscore_and_hyphen_names_are_valid() {
    assert_eq!(Crate::from_str("serde_json").unwrap().name(), "serde_json");
    assert_eq!(Crate::from_str("tokio-util").unwrap().name(), "tokio-util");
}

#[test]
fn exact_version_round_trips() {
    let c = Crate::from_str("serde==1.0.0").unwrap();
    assert_eq!(c.name(), "serde");
    let v = c.exact_version().unwrap();
    assert_eq!((v.major, v.minor, v.patch), (1, 0, 0));
    assert_eq!(v.pre, "");
    assert_eq!(v.build, "");
    assert_eq!(c.to_text(), "serde==1.0.0");
}

#[test]
fn exact_version_with_pre_and_build() {
    let c = Crate::from_str("a==1.2.3-alpha.1+b42").unwrap();
    let v = c.exact_version().unwrap();
    assert_eq!((v.major, v.minor, v.patch), (1, 2, 3));
    assert_eq!(v.pre, "alpha.1");
    assert_eq!(v.build, "b42");
    assert_eq!(c.to_text(), "a==1.2.3-alpha.1+b42");
    // The requirement projection keeps the pre-release part and drops
    // the build metadata.
    assert_eq!(c.version_requirement().as_text(), "=1.2.3-alpha.1");
}

#[test]
fn range_requirement_matches_direct_parse() {
    let c = Crate::from_str("foo=^1.2").unwrap();
    assert_eq!(c.name(), "foo");
    assert!(c.exact_version().is_none());
    let direct = match CrateVersion::from_str("^1.2").unwrap() {
        CrateVersion::Other(r) => r,
        CrateVersion::Exact(_) => panic!("^1.2 is a range, not a pin"),
    };
    assert_eq!(c.version_requirement(), direct);
}

#[test]
fn requirement_text_is_canonical() {
    // A bare 1.2 means caret 1.2; the canonical text shows the caret.
    let c = Crate::from_str("serde=1.0.0").unwrap();
    assert_eq!(c.version_requirement().as_text(), "^1.0.0");
    let c = Crate::from_str("foo=~0.3").unwrap();
    assert_eq!(c.version_requirement().as_text(), "~0.3");
    let c = Crate::from_str("bar=>=1, <2").unwrap();
    assert_eq!(c.version_requirement().as_text(), ">=1, <2");
}

#[test]
fn whitespace_around_split_parts_is_trimmed() {
    let spaced = Crate::from_str(" foo = 1.0.0 ").unwrap();
    let plain = Crate::from_str("foo=1.0.0").unwrap();
    assert_eq!(spaced, plain);
    assert_eq!(spaced.name(), "foo");
}

#[test]
fn invalid_names_fail_with_name_error() {
    for bad in ["fo o", "foo/bar", "f@o", "caf\u{e9}!"] {
        match Crate::from_str(bad) {
            Err(CrateError::Name(n)) => assert_eq!(n, bad),
            other => panic!("{:?} for {:?}", other, bad),
        }
    }
}

#[test]
fn empty_name_is_invalid() {
    match Crate::from_str("") {
        Err(CrateError::Name(n)) => assert_eq!(n, ""),
        other => panic!("{:?}", other),
    }
}

#[test]
fn invalid_name_with_version_part_is_rejected() {
    match Crate::from_str("f@o=1.0.0") {
        Err(CrateError::Name(n)) => assert_eq!(n, "f@o"),
        other => panic!("{:?}", other),
    }
    match Crate::from_str("=1.0.0") {
        Err(CrateError::Name(n)) => assert_eq!(n, ""),
        other => panic!("{:?}", other),
    }
    // The name is checked before the version part is even looked at.
    match Crate::from_str("fo o=bad!") {
        Err(CrateError::Name(n)) => assert_eq!(n, "fo o"),
        other => panic!("{:?}", other),
    }
}

#[test]
fn name_error_message_carries_the_text() {
    let e = Crate::from_str("fo o").unwrap_err();
    assert_eq!(e.message(), "invalid crate name `fo o`");
    assert!(e.cause().is_none());
}

#[test]
fn bad_exact_version_is_a_syntax_error() {
    match Crate::from_str("foo==1.0") {
        Err(CrateError::Version(CrateVersionError::Syntax(t))) => assert_eq!(t, "1.0"),
        other => panic!("{:?}", other),
    }
    let e = Crate::from_str("foo==nope").unwrap_err();
    assert_eq!(
        e.message(),
        "invalid crate version: invalid semantic version `nope`"
    );
    assert!(e.cause().is_some());
}

#[test]
fn bad_requirement_is_a_semantics_error() {
    match Crate::from_str("foo=bad!") {
        Err(CrateError::Version(CrateVersionError::Semantics(t))) => assert_eq!(t, "bad!"),
        other => panic!("{:?}", other),
    }
}

#[test]
fn output_target_mapping_is_total() {
    assert_eq!(Output::from_text("-"), Output::Stdout);
    assert_eq!(Output::from_text("out.tar"), Output::Path("out.tar".to_string()));
    assert_eq!(Output::from_text(""), Output::Path(String::new()));
    assert_eq!(Output::from_text("--"), Output::Path("--".to_string()));
    assert!(Output::Stdout.is_stdout());
    assert!(!Output::from_text("x").is_stdout());
}

#[test]
fn output_renders_back_to_text() {
    assert_eq!(Output::Stdout.to_text(), "-");
    assert_eq!(Output::from_text("a/b.tar").to_text(), "a/b.tar");
}

#[test]
fn end_to_end_download_with_extract() {
    let opts = parse_from_argv(&argv(&["prog", "serde=1.0.0", "-x"])).unwrap();
    assert_eq!(opts.verbosity, 0);
    assert!(opts.extract);
    assert!(opts.output.is_none());
    assert_eq!(opts.crate_.name(), "serde");
    assert!(opts.crate_.exact_version().is_none());
    assert_eq!(opts.crate_.version_requirement().as_text(), "^1.0.0");
}

#[test]
fn extract_to_stdout_is_rejected() {
    match parse_from_argv(&argv(&["prog", "serde", "-o", "-", "-x"])) {
        Err(ArgsError::CantExtractToStdout) => {},
        other => panic!("{:?}", other),
    }
    let e = parse_from_argv(&argv(&["prog", "serde", "-x", "--output", "-"])).unwrap_err();
    assert_eq!(e.message(), "cannot extract a crate to standard output");
}

#[test]
fn extract_to_path_or_default_succeeds() {
    let opts = parse_from_argv(&argv(&["prog", "serde", "-o", "out.tar", "-x"])).unwrap();
    assert_eq!(opts.output, Some(Output::Path("out.tar".to_string())));
    assert!(opts.extract);
    let opts = parse_from_argv(&argv(&["prog", "serde", "-x"])).unwrap();
    assert_eq!(opts.output, None);
    assert!(opts.extract);
}

#[test]
fn stdout_output_without_extract_succeeds() {
    let opts = parse_from_argv(&argv(&["prog", "serde", "-o", "-"])).unwrap();
    assert_eq!(opts.output, Some(Output::Stdout));
    assert!(!opts.extract);
}

#[test]
fn verbosity_defaults_to_zero() {
    let opts = parse_from_argv(&argv(&["prog", "serde"])).unwrap();
    assert_eq!(opts.verbosity, 0);
    assert!(!opts.verbose());
    assert!(!opts.quiet());
}

#[test]
fn three_verbose_flags_give_three() {
    let opts = parse_from_argv(&argv(&["prog", "-v", "-v", "-v", "serde"])).unwrap();
    assert_eq!(opts.verbosity, 3);
    assert!(opts.verbose());
    let opts = parse_from_argv(&argv(&["prog", "-vvv", "serde"])).unwrap();
    assert_eq!(opts.verbosity, 3);
}

#[test]
fn two_quiet_flags_give_minus_two() {
    let opts = parse_from_argv(&argv(&["prog", "-qq", "serde"])).unwrap();
    assert_eq!(opts.verbosity, -2);
    assert!(opts.quiet());
    let opts = parse_from_argv(&argv(&["prog", "--quiet", "--quiet", "serde"])).unwrap();
    assert_eq!(opts.verbosity, -2);
}

#[test]
fn grouped_shorts_count() {
    let opts = parse_from_argv(&argv(&["prog", "-vv", "tokio"])).unwrap();
    assert_eq!(opts.verbosity, 2);
    assert_eq!(opts.crate_.name(), "tokio");
}

#[test]
fn verbose_and_quiet_conflict_at_the_grammar() {
    match parse_from_argv(&argv(&["prog", "-v", "-q", "serde"])) {
        Err(ArgsError::Parse(MatchError::ConflictingFlags)) => {},
        other => panic!("{:?}", other),
    }
    match parse_from_argv(&argv(&["prog", "--verbose", "--quiet", "serde"])) {
        Err(ArgsError::Parse(MatchError::ConflictingFlags)) => {},
        other => panic!("{:?}", other),
    }
}

#[test]
fn subcommand_token_is_stripped_at_index_one() {
    let with = parse_from_argv(&argv(&["bin", "download", "foo"])).unwrap();
    let without = parse_from_argv(&argv(&["bin", "foo"])).unwrap();
    assert_eq!(with, without);
    assert_eq!(with.crate_.name(), "foo");
}

#[test]
fn lone_download_token_is_stripped_and_crate_is_missing() {
    match parse_from_argv(&argv(&["bin", "download"])) {
        Err(ArgsError::Parse(MatchError::MissingCrate)) => {},
        other => panic!("{:?}", other),
    }
}

#[test]
fn download_after_index_one_is_a_plain_token() {
    // Here `download` is the positional crate token, not the
    // subcommand name.
    let opts = parse_from_argv(&argv(&["bin", "-v", "download"])).unwrap();
    assert_eq!(opts.crate_.name(), "download");
}

#[test]
fn long_output_forms() {
    let a = parse_from_argv(&argv(&["prog", "serde", "--output", "dir"])).unwrap();
    let b = parse_from_argv(&argv(&["prog", "serde", "--output=dir"])).unwrap();
    let c = parse_from_argv(&argv(&["prog", "serde", "-odir"])).unwrap();
    let d = parse_from_argv(&argv(&["prog", "serde", "-o=dir"])).unwrap();
    assert_eq!(a.output, Some(Output::Path("dir".to_string())));
    assert_eq!(a, b);
    assert_eq!(a, c);
    assert_eq!(a, d);
}

#[test]
fn long_extract_flag() {
    let opts = parse_from_argv(&argv(&["prog", "--extract", "serde"])).unwrap();
    assert!(opts.extract);
    // Repetition is tolerated and means nothing more.
    let opts = parse_from_argv(&argv(&["prog", "-x", "-x", "serde"])).unwrap();
    assert!(opts.extract);
}

#[test]
fn grammar_error_cases() {
    match parse_from_argv(&argv(&["prog", "--bogus", "serde"])) {
        Err(ArgsError::Parse(MatchError::UnknownFlag(n))) => assert_eq!(n, "bogus"),
        other => panic!("{:?}", other),
    }
    match parse_from_argv(&argv(&["prog", "-z", "serde"])) {
        Err(ArgsError::Parse(MatchError::UnknownShort(c))) => assert_eq!(c, 'z'),
        other => panic!("{:?}", other),
    }
    match parse_from_argv(&argv(&["prog", "serde", "-o"])) {
        Err(ArgsError::Parse(MatchError::MissingValue)) => {},
        other => panic!("{:?}", other),
    }
    match parse_from_argv(&argv(&["prog", "--extract=yes", "serde"])) {
        Err(ArgsError::Parse(MatchError::UnexpectedFlagValue(n))) => assert_eq!(n, "extract"),
        other => panic!("{:?}", other),
    }
    match parse_from_argv(&argv(&["prog", "serde", "-o", "a", "-o", "b"])) {
        Err(ArgsError::Parse(MatchError::DuplicateOutput)) => {},
        other => panic!("{:?}", other),
    }
    match parse_from_argv(&argv(&["prog"])) {
        Err(ArgsError::Parse(MatchError::MissingCrate)) => {},
        other => panic!("{:?}", other),
    }
    match parse_from_argv(&argv(&["prog", "serde", "tokio"])) {
        Err(ArgsError::Parse(MatchError::UnexpectedArgument(t))) => assert_eq!(t, "tokio"),
        other => panic!("{:?}", other),
    }
}

#[test]
fn help_and_version_shorthands() {
    match parse_from_argv(&argv(&["prog", "-H"])) {
        Err(ArgsError::Parse(MatchError::HelpRequested)) => {},
        other => panic!("{:?}", other),
    }
    match parse_from_argv(&argv(&["prog", "--help"])) {
        Err(ArgsError::Parse(MatchError::HelpRequested)) => {},
        other => panic!("{:?}", other),
    }
    match parse_from_argv(&argv(&["prog", "-V"])) {
        Err(ArgsError::Parse(MatchError::VersionRequested)) => {},
        other => panic!("{:?}", other),
    }
}

#[test]
fn double_dash_ends_flag_matching() {
    let opts = parse_from_argv(&argv(&["prog", "--", "-x"])).unwrap();
    // After `--`, the token `-x` is the positional crate token; its
    // characters are all allowed in a name.
    assert_eq!(opts.crate_.name(), "-x");
    assert!(!opts.extract);
}

#[test]
fn crate_error_is_wrapped_at_the_top_level() {
    match parse_from_argv(&argv(&["prog", "fo o"])) {
        Err(ArgsError::Crate(CrateError::Name(n))) => assert_eq!(n, "fo o"),
        other => panic!("{:?}", other),
    }
    let e = parse_from_argv(&argv(&["prog", "fo o"])).unwrap_err();
    assert_eq!(e.message(), "invalid crate spec: invalid crate name `fo o`");
}

#[test]
fn cause_chain_is_walkable() {
    let e = parse_from_argv(&argv(&["prog", "-z", "serde"])).unwrap_err();
    assert!(e.parse_cause().is_some());
    assert!(e.crate_cause().is_none());
    let e = parse_from_argv(&argv(&["prog", "fo o"])).unwrap_err();
    let inner = e.crate_cause().unwrap();
    assert_eq!(inner.message(), "invalid crate name `fo o`");
}

#[test]
fn grammar_error_messages() {
    let e = parse_from_argv(&argv(&["prog", "-z", "serde"])).unwrap_err();
    assert_eq!(e.message(), "parse error: unknown flag `-z`");
    let e = parse_from_argv(&argv(&["prog", "--bogus", "serde"])).unwrap_err();
    assert_eq!(e.message(), "parse error: unknown flag `--bogus`");
}

#[test]
fn try_from_computes_the_signed_difference() {
    let m = Matches {
        verbose_count: 3,
        quiet_count: 1,
        crate_spec: "serde".to_string(),
        extract: false,
        output: None,
    };
    let opts = Options::try_from(m).unwrap();
    assert_eq!(opts.verbosity, 2);
}

#[test]
fn version_rendering_is_exact() {
    let v = Version {
        major: 10,
        minor: 0,
        patch: 205,
        pre: String::new(),
        build: String::new(),
    };
    assert_eq!(v.to_text(), "10.0.205");
    let r = Requirement::any();
    assert_eq!(r.as_text(), "*");
}
