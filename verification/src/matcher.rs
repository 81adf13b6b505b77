//! The argument grammar: one required positional `CRATE[=VERSION]`
//! token, `-x`/`--extract`, `-o PATH`/`--output PATH`, the repeatable
//! and mutually exclusive `-v`/`--verbose` and `-q`/`--quiet`, and the
//! help and version shorthands `-H` and `-V`. Matching an argument
//! list against this grammar yields a match-set ([`Matches`]) or a
//! grammar-level error.
//!
//! The accepted surface: `--name`, `--name=VALUE` and `--name VALUE`
//! long forms; grouped short flags (`-vvx`); a short option's value
//! either appended (`-oPATH`, `-o=PATH`) or as the next token; and a
//! bare `--` after which every token is positional. Flag occurrences
//! are counted and the counts saturate at the largest signed machine
//! integer, so the verbosity difference always fits.

use vstd::prelude::*;
use vstd::string::*;

verus! {

/// Grammar-level failure of argument matching.
#[derive(Debug, Clone, PartialEq, Eq)]
pub enum MatchError {
    /// A long flag outside the grammar; carries its name.
    UnknownFlag(String),
    /// A short flag outside the grammar; carries its character.
    UnknownShort(char),
    /// The output option came last with no value to take.
    MissingValue,
    /// A long flag that takes no value was written `--flag=...`;
    /// carries the flag's name.
    UnexpectedFlagValue(String),
    /// The output option was given more than once.
    DuplicateOutput,
    /// Verbose and quiet flags in the same invocation.
    ConflictingFlags,
    /// No positional crate-specification token.
    MissingCrate,
    /// A second positional token; carries it.
    UnexpectedArgument(String),
    /// The help shorthand or long flag was given.
    HelpRequested,
    /// The version shorthand or long flag was given.
    VersionRequested,
}

/// Mathematical model of a [`MatchError`].
pub enum MatchErrorModel {
    UnknownFlag(Seq<char>),
    UnknownShort(char),
    MissingValue,
    UnexpectedFlagValue(Seq<char>),
    DuplicateOutput,
    ConflictingFlags,
    MissingCrate,
    UnexpectedArgument(Seq<char>),
    HelpRequested,
    VersionRequested,
}

impl View for MatchError {
    type V = MatchErrorModel;

    open spec fn view(&self) -> MatchErrorModel {
        match self {
            MatchError::UnknownFlag(s) => MatchErrorModel::UnknownFlag(s@),
            MatchError::UnknownShort(c) => MatchErrorModel::UnknownShort(*c),
            MatchError::MissingValue => MatchErrorModel::MissingValue,
            MatchError::UnexpectedFlagValue(s) => MatchErrorModel::UnexpectedFlagValue(s@),
            MatchError::DuplicateOutput => MatchErrorModel::DuplicateOutput,
            MatchError::ConflictingFlags => MatchErrorModel::ConflictingFlags,
            MatchError::MissingCrate => MatchErrorModel::MissingCrate,
            MatchError::UnexpectedArgument(s) => MatchErrorModel::UnexpectedArgument(s@),
            MatchError::HelpRequested => MatchErrorModel::HelpRequested,
            MatchError::VersionRequested => MatchErrorModel::VersionRequested,
        }
    }
}

/// The match-set: what the grammar extracted from the argument list.
#[derive(Debug, Clone, PartialEq, Eq)]
pub struct Matches {
    /// Occurrences of the verbose flag.
    pub verbose_count: usize,
    /// Occurrences of the quiet flag.
    pub quiet_count: usize,
    /// The positional crate-specification token.
    pub crate_spec: String,
    /// Whether the extraction flag was present.
    pub extract: bool,
    /// The output option's value, when given.
    pub output: Option<String>,
}

/// Mathematical model of a [`Matches`].
pub struct MatchesModel {
    pub verbose_count: int,
    pub quiet_count: int,
    pub crate_spec: Seq<char>,
    pub extract: bool,
    pub output: Option<Seq<char>>,
}

impl View for Matches {
    type V = MatchesModel;

    open spec fn view(&self) -> MatchesModel {
        MatchesModel {
            verbose_count: self.verbose_count as int,
            quiet_count: self.quiet_count as int,
            crate_spec: self.crate_spec@,
            extract: self.extract,
            output: match self.output {
                Some(ref s) => Some(s@),
                None => None,
            },
        }
    }
}

/// Matching state: the fields gathered so far.
struct Accum {
    verbose: usize,
    quiet: usize,
    extract: bool,
    output: Option<String>,
    positional: Option<String>,
}

/// Mathematical model of the matching state.
pub struct AccumModel {
    pub verbose: int,
    pub quiet: int,
    pub extract: bool,
    pub output: Option<Seq<char>>,
    pub positional: Option<Seq<char>>,
}

impl View for Accum {
    type V = AccumModel;

    closed spec fn view(&self) -> AccumModel {
        AccumModel {
            verbose: self.verbose as int,
            quiet: self.quiet as int,
            extract: self.extract,
            output: match self.output {
                Some(ref s) => Some(s@),
                None => None,
            },
            positional: match self.positional {
                Some(ref s) => Some(s@),
                None => None,
            },
        }
    }
}

/// The state before any token is matched.
pub open spec fn spec_initial_state() -> AccumModel {
    AccumModel { verbose: 0, quiet: 0, extract: false, output: None, positional: None }
}

/// An occurrence count, increased by one but saturating at the largest
/// signed machine integer.
pub open spec fn sat_inc(c: int) -> int {
    if c < isize::MAX as int {
        c + 1
    } else {
        c
    }
}

/// Closing the match: verbose and quiet flags may not both occur, and
/// the positional token is required.
pub open spec fn spec_finish(st: AccumModel) -> Result<MatchesModel, MatchErrorModel> {
    if st.verbose > 0 && st.quiet > 0 {
        Err(MatchErrorModel::ConflictingFlags)
    } else {
        match st.positional {
            None => Err(MatchErrorModel::MissingCrate),
            Some(c) => Ok(
                MatchesModel {
                    verbose_count: st.verbose,
                    quiet_count: st.quiet,
                    crate_spec: c,
                    extract: st.extract,
                    output: st.output,
                },
            ),
        }
    }
}

/// One step over the token list: flags begin with `-`, a lone `--`
/// ends flag matching, anything else is the positional token.
pub open spec fn spec_run(toks: Seq<Seq<char>>, st: AccumModel) -> Result<
    MatchesModel,
    MatchErrorModel,
>
    decreases toks.len(), 0int, 0int,
{
    if toks.len() == 0 {
        spec_finish(st)
    } else {
        let t = toks[0];
        let rest = toks.skip(1);
        if t.len() >= 2 && t[0] == '-' && t[1] == '-' {
            if t.len() == 2 {
                spec_run_positionals(rest, st)
            } else {
                spec_long(t.skip(2), rest, st)
            }
        } else if t.len() >= 2 && t[0] == '-' {
            spec_shorts(t.skip(1), rest, st)
        } else {
            if st.positional is Some {
                Err(MatchErrorModel::UnexpectedArgument(t))
            } else {
                spec_run(rest, AccumModel { positional: Some(t), ..st })
            }
        }
    }
}

/// A long flag `--name` or `--name=value`; `body` is the token without
/// the two dashes.
pub open spec fn spec_long(body: Seq<char>, rest: Seq<Seq<char>>, st: AccumModel) -> Result<
    MatchesModel,
    MatchErrorModel,
>
    decreases rest.len(), 1int, 0int,
{
    let name = match crate::textops::spec_first_eq(body) {
        Some(i) => body.take(i),
        None => body,
    };
    let val = match crate::textops::spec_first_eq(body) {
        Some(i) => Some(body.skip(i + 1)),
        None => None::<Seq<char>>,
    };
    if name == "extract"@ {
        if val is Some {
            Err(MatchErrorModel::UnexpectedFlagValue(name))
        } else {
            spec_run(rest, AccumModel { extract: true, ..st })
        }
    } else if name == "verbose"@ {
        if val is Some {
            Err(MatchErrorModel::UnexpectedFlagValue(name))
        } else {
            spec_run(rest, AccumModel { verbose: sat_inc(st.verbose), ..st })
        }
    } else if name == "quiet"@ {
        if val is Some {
            Err(MatchErrorModel::UnexpectedFlagValue(name))
        } else {
            spec_run(rest, AccumModel { quiet: sat_inc(st.quiet), ..st })
        }
    } else if name == "output"@ {
        if st.output is Some {
            Err(MatchErrorModel::DuplicateOutput)
        } else {
            match val {
                Some(v) => spec_run(rest, AccumModel { output: Some(v), ..st }),
                None => {
                    if rest.len() == 0 {
                        Err(MatchErrorModel::MissingValue)
                    } else {
                        spec_run(rest.skip(1), AccumModel { output: Some(rest[0]), ..st })
                    }
                },
            }
        }
    } else if name == "help"@ {
        Err(MatchErrorModel::HelpRequested)
    } else if name == "version"@ {
        Err(MatchErrorModel::VersionRequested)
    } else {
        Err(MatchErrorModel::UnknownFlag(name))
    }
}

/// A group of short flags; `cs` is the token without its leading dash.
/// The output option consumes the rest of the token (a leading `=`
/// sign is dropped) or, when the rest is empty, the next token.
pub open spec fn spec_shorts(cs: Seq<char>, rest: Seq<Seq<char>>, st: AccumModel) -> Result<
    MatchesModel,
    MatchErrorModel,
>
    decreases rest.len(), 1int, cs.len(),
{
    if cs.len() == 0 {
        spec_run(rest, st)
    } else {
        let c = cs[0];
        if c == 'x' {
            spec_shorts(cs.skip(1), rest, AccumModel { extract: true, ..st })
        } else if c == 'v' {
            spec_shorts(cs.skip(1), rest, AccumModel { verbose: sat_inc(st.verbose), ..st })
        } else if c == 'q' {
            spec_shorts(cs.skip(1), rest, AccumModel { quiet: sat_inc(st.quiet), ..st })
        } else if c == 'H' {
            Err(MatchErrorModel::HelpRequested)
        } else if c == 'V' {
            Err(MatchErrorModel::VersionRequested)
        } else if c == 'o' {
            if st.output is Some {
                Err(MatchErrorModel::DuplicateOutput)
            } else {
                let tail = cs.skip(1);
                if tail.len() > 0 {
                    let v = if tail[0] == '=' {
                        tail.skip(1)
                    } else {
                        tail
                    };
                    spec_run(rest, AccumModel { output: Some(v), ..st })
                } else if rest.len() == 0 {
                    Err(MatchErrorModel::MissingValue)
                } else {
                    spec_run(rest.skip(1), AccumModel { output: Some(rest[0]), ..st })
                }
            }
        } else {
            Err(MatchErrorModel::UnknownShort(c))
        }
    }
}

/// After a lone `--`: every remaining token is positional.
pub open spec fn spec_run_positionals(toks: Seq<Seq<char>>, st: AccumModel) -> Result<
    MatchesModel,
    MatchErrorModel,
>
    decreases toks.len(), 0int, 1int,
{
    if toks.len() == 0 {
        spec_finish(st)
    } else if st.positional is Some {
        Err(MatchErrorModel::UnexpectedArgument(toks[0]))
    } else {
        spec_run_positionals(toks.skip(1), AccumModel { positional: Some(toks[0]), ..st })
    }
}

/// What matching a token list against the grammar yields.
pub open spec fn spec_match(toks: Seq<Seq<char>>) -> Result<MatchesModel, MatchErrorModel> {
    spec_run(toks, spec_initial_state())
}

/// Law: the grammar never accepts verbose and quiet flags together —
/// whenever matching succeeds, at most one of the two occurrence
/// counts is positive, each is exactly what was counted, and neither
/// fell below the starting state's.
pub proof fn lemma_conflict_rejected(toks: Seq<Seq<char>>)
    ensures
        spec_match(toks) matches Ok(m) ==> !(m.verbose_count > 0 && m.quiet_count > 0),
{
    lemma_run_counts(toks, spec_initial_state());
}

/// Occurrence counts only grow while matching, and an accepted match
/// carries counts that passed the closing conflict check.
proof fn lemma_run_counts(toks: Seq<Seq<char>>, st: AccumModel)
    ensures
        spec_run(toks, st) matches Ok(m) ==> !(m.verbose_count > 0 && m.quiet_count > 0)
            && m.verbose_count >= st.verbose && m.quiet_count >= st.quiet,
    decreases toks.len(), 0int, 0int,
{
    if toks.len() > 0 {
        let t = toks[0];
        let rest = toks.skip(1);
        if t.len() >= 2 && t[0] == '-' && t[1] == '-' {
            if t.len() == 2 {
                lemma_positionals_counts(rest, st);
            } else {
                lemma_long_counts(t.skip(2), rest, st);
            }
        } else if t.len() >= 2 && t[0] == '-' {
            lemma_shorts_counts(t.skip(1), rest, st);
        } else if !(st.positional is Some) {
            lemma_run_counts(rest, AccumModel { positional: Some(t), ..st });
        }
    }
}

proof fn lemma_long_counts(body: Seq<char>, rest: Seq<Seq<char>>, st: AccumModel)
    ensures
        spec_long(body, rest, st) matches Ok(m) ==> !(m.verbose_count > 0 && m.quiet_count > 0)
            && m.verbose_count >= st.verbose && m.quiet_count >= st.quiet,
    decreases rest.len(), 1int, 0int,
{
    let name = match crate::textops::spec_first_eq(body) {
        Some(i) => body.take(i),
        None => body,
    };
    if name == "extract"@ {
        lemma_run_counts(rest, AccumModel { extract: true, ..st });
    } else if name == "verbose"@ {
        lemma_run_counts(rest, AccumModel { verbose: sat_inc(st.verbose), ..st });
    } else if name == "quiet"@ {
        lemma_run_counts(rest, AccumModel { quiet: sat_inc(st.quiet), ..st });
    } else if name == "output"@ && !(st.output is Some) {
        if crate::textops::spec_first_eq(body) is Some {
            let i = crate::textops::spec_first_eq(body)->Some_0;
            lemma_run_counts(rest, AccumModel { output: Some(body.skip(i + 1)), ..st });
        } else if rest.len() > 0 {
            lemma_run_counts(rest.skip(1), AccumModel { output: Some(rest[0]), ..st });
        }
    }
}

proof fn lemma_shorts_counts(cs: Seq<char>, rest: Seq<Seq<char>>, st: AccumModel)
    ensures
        spec_shorts(cs, rest, st) matches Ok(m) ==> !(m.verbose_count > 0 && m.quiet_count > 0)
            && m.verbose_count >= st.verbose && m.quiet_count >= st.quiet,
    decreases rest.len(), 1int, cs.len(),
{
    if cs.len() == 0 {
        lemma_run_counts(rest, st);
    } else {
        let c = cs[0];
        if c == 'x' {
            lemma_shorts_counts(cs.skip(1), rest, AccumModel { extract: true, ..st });
        } else if c == 'v' {
            lemma_shorts_counts(cs.skip(1), rest, AccumModel { verbose: sat_inc(st.verbose), ..st });
        } else if c == 'q' {
            lemma_shorts_counts(cs.skip(1), rest, AccumModel { quiet: sat_inc(st.quiet), ..st });
        } else if c == 'o' && !(st.output is Some) {
            let tail = cs.skip(1);
            if tail.len() > 0 {
                let v = if tail[0] == '=' {
                    tail.skip(1)
                } else {
                    tail
                };
                lemma_run_counts(rest, AccumModel { output: Some(v), ..st });
            } else if rest.len() > 0 {
                lemma_run_counts(rest.skip(1), AccumModel { output: Some(rest[0]), ..st });
            }
        }
    }
}

proof fn lemma_positionals_counts(toks: Seq<Seq<char>>, st: AccumModel)
    ensures
        spec_run_positionals(toks, st) matches Ok(m) ==> !(m.verbose_count > 0 && m.quiet_count
            > 0) && m.verbose_count >= st.verbose && m.quiet_count >= st.quiet,
    decreases toks.len(), 0int, 1int,
{
    if toks.len() > 0 && !(st.positional is Some) {
        lemma_positionals_counts(toks.skip(1), AccumModel { positional: Some(toks[0]), ..st });
    }
}

/// The diagnostic text of a grammar-level failure.
pub open spec fn spec_match_error_text(e: MatchErrorModel) -> Seq<char> {
    match e {
        MatchErrorModel::UnknownFlag(s) => "unknown flag `--"@ + s + "`"@,
        MatchErrorModel::UnknownShort(c) => "unknown flag `-"@ + seq![c] + "`"@,
        MatchErrorModel::MissingValue => "the output option requires a value"@,
        MatchErrorModel::UnexpectedFlagValue(s) => "flag `--"@ + s + "` takes no value"@,
        MatchErrorModel::DuplicateOutput => "the output option cannot be used multiple times"@,
        MatchErrorModel::ConflictingFlags => "verbose and quiet flags cannot be used together"@,
        MatchErrorModel::MissingCrate => "missing required argument CRATE[=VERSION]"@,
        MatchErrorModel::UnexpectedArgument(s) => "unexpected argument `"@ + s + "`"@,
        MatchErrorModel::HelpRequested => "help requested"@,
        MatchErrorModel::VersionRequested => "version requested"@,
    }
}

impl MatchError {
    /// Renders the failure for display.
    pub fn message(&self) -> (r: String)
        ensures
            r@ == spec_match_error_text(self@),
    {
        match self {
            MatchError::UnknownFlag(s) => {
                let mut out = String::from_str("unknown flag `--");
                out.append(s.as_str());
                out.append("`");
                out
            },
            MatchError::UnknownShort(c) => {
                let mut out = String::from_str("unknown flag `-");
                crate::textops::push_char(&mut out, *c);
                out.append("`");
                out
            },
            MatchError::MissingValue => String::from_str("the output option requires a value"),
            MatchError::UnexpectedFlagValue(s) => {
                let mut out = String::from_str("flag `--");
                out.append(s.as_str());
                out.append("` takes no value");
                out
            },
            MatchError::DuplicateOutput => String::from_str(
                "the output option cannot be used multiple times",
            ),
            MatchError::ConflictingFlags => String::from_str(
                "verbose and quiet flags cannot be used together",
            ),
            MatchError::MissingCrate => String::from_str("missing required argument CRATE[=VERSION]"),
            MatchError::UnexpectedArgument(s) => {
                let mut out = String::from_str("unexpected argument `");
                out.append(s.as_str());
                out.append("`");
                out
            },
            MatchError::HelpRequested => String::from_str("help requested"),
            MatchError::VersionRequested => String::from_str("version requested"),
        }
    }
}

/// The model of an executable matching result.
pub open spec fn match_result_model(r: Result<Matches, MatchError>) -> Result<
    MatchesModel,
    MatchErrorModel,
> {
    match r {
        Ok(m) => Ok(m@),
        Err(e) => Err(e@),
    }
}

/// Occurrence counts never pass the largest signed machine integer.
pub open spec fn counts_bounded(r: Result<Matches, MatchError>) -> bool {
    r matches Ok(m) ==> m.verbose_count <= isize::MAX as usize && m.quiet_count <= isize::MAX
        as usize
}

/// Increases an occurrence count, saturating at the largest signed
/// machine integer.
fn sat_inc_exec(c: usize) -> (r: usize)
    ensures
        r as int == sat_inc(c as int),
{
    if c < isize::MAX as usize {
        c + 1
    } else {
        c
    }
}

/// Closes the match over the gathered state.
fn finish(st: Accum) -> (r: Result<Matches, MatchError>)
    requires
        st.verbose <= isize::MAX as usize,
        st.quiet <= isize::MAX as usize,
    ensures
        match_result_model(r) == spec_finish(st@),
        counts_bounded(r),
{
    if st.verbose > 0 && st.quiet > 0 {
        Err(MatchError::ConflictingFlags)
    } else {
        match st.positional {
            None => Err(MatchError::MissingCrate),
            Some(c) => Ok(
                Matches {
                    verbose_count: st.verbose,
                    quiet_count: st.quiet,
                    crate_spec: c,
                    extract: st.extract,
                    output: st.output,
                },
            ),
        }
    }
}

/// Matches the tokens from position `i` on.
fn run_from(toks: &Vec<String>, i: usize, st: Accum) -> (r: Result<Matches, MatchError>)
    requires
        i <= toks@.len(),
        st.verbose <= isize::MAX as usize,
        st.quiet <= isize::MAX as usize,
    ensures
        match_result_model(r) == spec_run(toks.deep_view().skip(i as int), st@),
        counts_bounded(r),
    decreases toks@.len() - i, 0int, 0int,
{
    let ghost remaining = toks.deep_view().skip(i as int);
    if i >= toks.len() {
        return finish(st);
    }
    let t = &toks[i];
    let tlen = t.as_str().unicode_len();
    proof {
        assert(remaining[0] == t@);
        assert(remaining.skip(1) =~= toks.deep_view().skip(i as int + 1));
    }
    if tlen >= 2 && t.as_str().get_char(0) == '-' && t.as_str().get_char(1) == '-' {
        if tlen == 2 {
            run_positionals(toks, i + 1, st)
        } else {
            run_long(toks, i + 1, t.as_str(), st)
        }
    } else if tlen >= 2 && t.as_str().get_char(0) == '-' {
        run_shorts(toks, i + 1, t.as_str(), 1, st)
    } else {
        if st.positional.is_some() {
            Err(MatchError::UnexpectedArgument(t.clone()))
        } else {
            run_from(toks, i + 1, Accum { positional: Some(t.clone()), ..st })
        }
    }
}

/// Matches one long flag token `--name[=value]`; `i` already points
/// past it.
fn run_long(toks: &Vec<String>, i: usize, t: &str, st: Accum) -> (r: Result<Matches, MatchError>)
    requires
        i <= toks@.len(),
        t@.len() > 2,
        st.verbose <= isize::MAX as usize,
        st.quiet <= isize::MAX as usize,
    ensures
        match_result_model(r) == spec_long(t@.skip(2), toks.deep_view().skip(i as int), st@),
        counts_bounded(r),
    decreases toks@.len() - i, 2int, 0int,
{
    proof {
        reveal_strlit("extract");
        reveal_strlit("verbose");
        reveal_strlit("quiet");
        reveal_strlit("output");
        reveal_strlit("help");
        reveal_strlit("version");
    }
    let tlen = t.unicode_len();
    let body = t.substring_char(2, tlen);
    proof {
        assert(body@ =~= t@.skip(2));
    }
    let blen = body.unicode_len();
    let eq_pos = crate::textops::find_first_eq(body);
    let (name, has_val): (&str, bool) = match eq_pos {
        Some(k) => {
            proof {
                crate::textops::lemma_first_eq_characterization(body@);
            }
            (body.substring_char(0, k), true)
        },
        None => (body, false),
    };
    proof {
        match crate::textops::spec_first_eq(body@) {
            Some(k) => {
                assert(name@ =~= body@.take(k));
            },
            None => {},
        }
    }
    if crate::textops::str_eq(name, "extract") {
        if has_val {
            Err(MatchError::UnexpectedFlagValue(name.to_owned()))
        } else {
            run_from(toks, i, Accum { extract: true, ..st })
        }
    } else if crate::textops::str_eq(name, "verbose") {
        if has_val {
            Err(MatchError::UnexpectedFlagValue(name.to_owned()))
        } else {
            run_from(toks, i, Accum { verbose: sat_inc_exec(st.verbose), ..st })
        }
    } else if crate::textops::str_eq(name, "quiet") {
        if has_val {
            Err(MatchError::UnexpectedFlagValue(name.to_owned()))
        } else {
            run_from(toks, i, Accum { quiet: sat_inc_exec(st.quiet), ..st })
        }
    } else if crate::textops::str_eq(name, "output") {
        if st.output.is_some() {
            Err(MatchError::DuplicateOutput)
        } else {
            match eq_pos {
                Some(k) => {
                    let v = body.substring_char(k + 1, blen).to_owned();
                    proof {
                        assert(v@ =~= body@.skip(k as int + 1));
                    }
                    run_from(toks, i, Accum { output: Some(v), ..st })
                },
                None => {
                    if i >= toks.len() {
                        Err(MatchError::MissingValue)
                    } else {
                        let v = toks[i].clone();
                        proof {
                            assert(toks.deep_view().skip(i as int)[0] == v@);
                            assert(toks.deep_view().skip(i as int).skip(1) =~= toks.deep_view().skip(
                                i as int + 1,
                            ));
                        }
                        run_from(toks, i + 1, Accum { output: Some(v), ..st })
                    }
                },
            }
        }
    } else if crate::textops::str_eq(name, "help") {
        Err(MatchError::HelpRequested)
    } else if crate::textops::str_eq(name, "version") {
        Err(MatchError::VersionRequested)
    } else {
        Err(MatchError::UnknownFlag(name.to_owned()))
    }
}

/// Matches the short flags of one token from character `j` on; `i`
/// already points past the token.
fn run_shorts(toks: &Vec<String>, i: usize, cs: &str, j: usize, st: Accum) -> (r: Result<
    Matches,
    MatchError,
>)
    requires
        i <= toks@.len(),
        j <= cs@.len(),
        st.verbose <= isize::MAX as usize,
        st.quiet <= isize::MAX as usize,
    ensures
        match_result_model(r) == spec_shorts(
            cs@.skip(j as int),
            toks.deep_view().skip(i as int),
            st@,
        ),
        counts_bounded(r),
    decreases toks@.len() - i, 1int, cs@.len() - j,
{
    let cslen = cs.unicode_len();
    if j >= cslen {
        return run_from(toks, i, st);
    }
    let c = cs.get_char(j);
    proof {
        assert(cs@.skip(j as int)[0] == cs@[j as int]);
        assert(cs@.skip(j as int).skip(1) =~= cs@.skip(j as int + 1));
    }
    if c == 'x' {
        run_shorts(toks, i, cs, j + 1, Accum { extract: true, ..st })
    } else if c == 'v' {
        run_shorts(toks, i, cs, j + 1, Accum { verbose: sat_inc_exec(st.verbose), ..st })
    } else if c == 'q' {
        run_shorts(toks, i, cs, j + 1, Accum { quiet: sat_inc_exec(st.quiet), ..st })
    } else if c == 'H' {
        Err(MatchError::HelpRequested)
    } else if c == 'V' {
        Err(MatchError::VersionRequested)
    } else if c == 'o' {
        if st.output.is_some() {
            Err(MatchError::DuplicateOutput)
        } else {
            if j + 1 < cslen {
                let vstart = if cs.get_char(j + 1) == '=' {
                    j + 2
                } else {
                    j + 1
                };
                let v = cs.substring_char(vstart, cslen).to_owned();
                proof {
                    let tail = cs@.skip(j as int + 1);
                    assert(tail[0] == cs@[j as int + 1]);
                    if cs@[j as int + 1] == '=' {
                        assert(v@ =~= tail.skip(1));
                    } else {
                        assert(v@ =~= tail);
                    }
                }
                run_from(toks, i, Accum { output: Some(v), ..st })
            } else if i >= toks.len() {
                Err(MatchError::MissingValue)
            } else {
                let v = toks[i].clone();
                proof {
                    assert(toks.deep_view().skip(i as int)[0] == v@);
                    assert(toks.deep_view().skip(i as int).skip(1) =~= toks.deep_view().skip(
                        i as int + 1,
                    ));
                }
                run_from(toks, i + 1, Accum { output: Some(v), ..st })
            }
        }
    } else {
        Err(MatchError::UnknownShort(c))
    }
}

/// Matches the tokens from position `i` on as positionals only.
fn run_positionals(toks: &Vec<String>, i: usize, st: Accum) -> (r: Result<Matches, MatchError>)
    requires
        i <= toks@.len(),
        st.verbose <= isize::MAX as usize,
        st.quiet <= isize::MAX as usize,
    ensures
        match_result_model(r) == spec_run_positionals(toks.deep_view().skip(i as int), st@),
        counts_bounded(r),
    decreases toks@.len() - i, 0int, 1int,
{
    if i >= toks.len() {
        return finish(st);
    }
    let t = &toks[i];
    proof {
        assert(toks.deep_view().skip(i as int)[0] == t@);
        assert(toks.deep_view().skip(i as int).skip(1) =~= toks.deep_view().skip(i as int + 1));
    }
    if st.positional.is_some() {
        Err(MatchError::UnexpectedArgument(t.clone()))
    } else {
        run_positionals(toks, i + 1, Accum { positional: Some(t.clone()), ..st })
    }
}

/// Matches a token list (the arguments without the program name)
/// against the grammar.
pub fn match_args(toks: &Vec<String>) -> (r: Result<Matches, MatchError>)
    ensures
        match_result_model(r) == spec_match(toks.deep_view()),
        counts_bounded(r),
{
    proof {
        assert(toks.deep_view().skip(0) =~= toks.deep_view());
    }
    run_from(
        toks,
        0,
        Accum { verbose: 0, quiet: 0, extract: false, output: None, positional: None },
    )
}

} // verus!
