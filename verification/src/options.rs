//! Assembling the validated [`Options`] value out of the match-set,
//! and the top-level entry that takes a full argument list.

use vstd::prelude::*;
use vstd::string::*;

use crate::crate_spec::{spec_parse_crate, Crate, CrateError, CrateErrorModel, CrateModel};
use crate::matcher::{
    match_args, spec_match, MatchError, MatchErrorModel, Matches, MatchesModel,
};
use crate::output::{spec_output_of, Output, OutputModel};

verus! {

/// Options received from the command line.
#[derive(Debug, Clone, PartialEq, Eq)]
pub struct Options {
    /// Verbosity of the logging output: the number of verbose flags
    /// minus the number of quiet flags.
    pub verbosity: isize,
    /// Crate to download.
    pub crate_: Crate,
    /// Whether to extract the crate's archive.
    pub extract: bool,
    /// Where to output the crate's archive; `None` leaves the default
    /// location to the consumer.
    pub output: Option<Output>,
}

/// Mathematical model of an [`Options`] value.
pub struct OptionsModel {
    pub verbosity: int,
    pub crate_: CrateModel,
    pub extract: bool,
    pub output: Option<OutputModel>,
}

impl View for Options {
    type V = OptionsModel;

    open spec fn view(&self) -> OptionsModel {
        OptionsModel {
            verbosity: self.verbosity as int,
            crate_: self.crate_@,
            extract: self.extract,
            output: match self.output {
                Some(ref o) => Some(o@),
                None => None,
            },
        }
    }
}

/// Error that can occur while parsing command-line arguments.
#[derive(Debug, Clone, PartialEq, Eq)]
pub enum ArgsError {
    /// The argument list does not fit the grammar.
    Parse(MatchError),
    /// The crate-specification token is invalid.
    Crate(CrateError),
    /// Extraction was requested together with output to standard
    /// output.
    CantExtractToStdout,
}

/// Mathematical model of an [`ArgsError`].
pub enum ArgsErrorModel {
    Parse(MatchErrorModel),
    Crate(CrateErrorModel),
    CantExtractToStdout,
}

impl View for ArgsError {
    type V = ArgsErrorModel;

    open spec fn view(&self) -> ArgsErrorModel {
        match self {
            ArgsError::Parse(e) => ArgsErrorModel::Parse(e@),
            ArgsError::Crate(e) => ArgsErrorModel::Crate(e@),
            ArgsError::CantExtractToStdout => ArgsErrorModel::CantExtractToStdout,
        }
    }
}

/// The diagnostic text of a top-level failure, the cause chain walked
/// into one line.
pub open spec fn spec_args_error_text(e: ArgsErrorModel) -> Seq<char> {
    match e {
        ArgsErrorModel::Parse(m) => "parse error: "@ + crate::matcher::spec_match_error_text(m),
        ArgsErrorModel::Crate(c) => "invalid crate spec: "@ + crate::crate_spec::spec_crate_error_text(
            c,
        ),
        ArgsErrorModel::CantExtractToStdout => "cannot extract a crate to standard output"@,
    }
}

impl ArgsError {
    /// Renders the failure for display, the deepest actionable cause
    /// included.
    pub fn message(&self) -> (r: String)
        ensures
            r@ == spec_args_error_text(self@),
    {
        match self {
            ArgsError::Parse(e) => {
                let mut out = String::from_str("parse error: ");
                let inner = e.message();
                out.append(inner.as_str());
                out
            },
            ArgsError::Crate(e) => {
                let mut out = String::from_str("invalid crate spec: ");
                let inner = e.message();
                out.append(inner.as_str());
                out
            },
            ArgsError::CantExtractToStdout => String::from_str(
                "cannot extract a crate to standard output",
            ),
        }
    }

    /// The grammar-level cause, where there is one.
    pub fn parse_cause(&self) -> (r: Option<&MatchError>)
        ensures
            match r {
                Some(e) => self@ == ArgsErrorModel::Parse(e@),
                None => !(self@ is Parse),
            },
    {
        match self {
            ArgsError::Parse(e) => Some(e),
            _ => None,
        }
    }

    /// The crate-specification cause, where there is one.
    pub fn crate_cause(&self) -> (r: Option<&CrateError>)
        ensures
            match r {
                Some(e) => self@ == ArgsErrorModel::Crate(e@),
                None => !(self@ is Crate),
            },
    {
        match self {
            ArgsError::Crate(e) => Some(e),
            _ => None,
        }
    }
}

/// What assembling a match-set yields: the crate token is parsed, the
/// output string is mapped to its target, and the cross-field rule —
/// no extraction to standard output — is enforced only after all
/// fields parsed. The verbosity is the signed difference of the two
/// occurrence counts.
pub open spec fn spec_assemble(m: MatchesModel) -> Result<OptionsModel, ArgsErrorModel> {
    match spec_parse_crate(m.crate_spec) {
        Err(e) => Err(ArgsErrorModel::Crate(e)),
        Ok(c) => {
            let output = match m.output {
                Some(s) => Some(spec_output_of(s)),
                None => None,
            };
            if m.extract && output == Some(OutputModel::Stdout) {
                Err(ArgsErrorModel::CantExtractToStdout)
            } else {
                Ok(
                    OptionsModel {
                        verbosity: m.verbose_count - m.quiet_count,
                        crate_: c,
                        extract: m.extract,
                        output,
                    },
                )
            }
        },
    }
}

/// The model of an assembly or top-level parsing result.
pub open spec fn options_result_model(r: Result<Options, ArgsError>) -> Result<
    OptionsModel,
    ArgsErrorModel,
> {
    match r {
        Ok(o) => Ok(o@),
        Err(e) => Err(e@),
    }
}

impl Options {
    /// Whether the verbosity was raised above the default.
    pub fn verbose(&self) -> (r: bool)
        ensures
            r == (self@.verbosity > 0),
    {
        self.verbosity > 0
    }

    /// Whether the verbosity was lowered below the default.
    pub fn quiet(&self) -> (r: bool)
        ensures
            r == (self@.verbosity < 0),
    {
        self.verbosity < 0
    }

    /// Assembles the validated options out of a match-set.
    pub fn try_from(m: Matches) -> (r: Result<Options, ArgsError>)
        requires
            m.verbose_count <= isize::MAX as usize,
            m.quiet_count <= isize::MAX as usize,
        ensures
            options_result_model(r) == spec_assemble(m@),
    {
        let crate_ = match Crate::from_str(m.crate_spec.as_str()) {
            Ok(c) => c,
            Err(e) => {
                return Err(ArgsError::Crate(e));
            },
        };
        let extract = m.extract;
        let output = match &m.output {
            Some(s) => Some(Output::from_text(s.as_str())),
            None => None,
        };
        let to_stdout = match &output {
            Some(o) => o.is_stdout(),
            None => false,
        };
        if extract && to_stdout {
            return Err(ArgsError::CantExtractToStdout);
        }
        let verbosity: isize = (m.verbose_count as isize) - (m.quiet_count as isize);
        Ok(Options { verbosity, crate_, extract, output })
    }
}

/// What parsing a full argument list yields: when the token right
/// after the program name is the literal `download` — the invocation
/// as a host tool's subcommand — it is dropped; the program name is
/// dropped; the rest is matched against the grammar and assembled.
pub open spec fn spec_parse_argv(argv: Seq<Seq<char>>) -> Result<OptionsModel, ArgsErrorModel> {
    let stripped = if argv.len() >= 2 && argv[1] == "download"@ {
        argv.remove(1)
    } else {
        argv
    };
    let toks = if stripped.len() <= 1 {
        Seq::<Seq<char>>::empty()
    } else {
        stripped.skip(1)
    };
    match spec_match(toks) {
        Err(e) => Err(ArgsErrorModel::Parse(e)),
        Ok(m) => spec_assemble(m),
    }
}

/// Parses application options from the given argument list (*all*
/// arguments, the program name included).
pub fn parse_from_argv(argv: &Vec<String>) -> (r: Result<Options, ArgsError>)
    ensures
        options_result_model(r) == spec_parse_argv(argv.deep_view()),
{
    let strip = argv.len() >= 2 && crate::textops::str_eq(argv[1].as_str(), "download");
    let start: usize = if strip {
        2
    } else {
        1
    };
    let mut toks: Vec<String> = Vec::new();
    let mut i: usize = start;
    while i < argv.len()
        invariant
            start <= i,
            i <= argv@.len() || i == start,
            toks@.len() == i - start || (toks@.len() == 0 && i == start),
            forall|k: int| 0 <= k < toks@.len() ==> toks.deep_view()[k] == argv.deep_view()[start
                + k],
        decreases argv@.len() - i,
    {
        let ghost old_toks = toks.deep_view();
        toks.push(argv[i].clone());
        i = i + 1;
        proof {
            assert forall|k: int| 0 <= k < toks@.len() implies toks.deep_view()[k]
                == argv.deep_view()[start + k] by {
                if k < old_toks.len() {
                    assert(toks.deep_view()[k] == old_toks[k]);
                } else {
                    assert(toks.deep_view()[k] == argv.deep_view()[i - 1]);
                }
            }
        }
    }
    proof {
        let av = argv.deep_view();
        let stripped = if av.len() >= 2 && av[1] == "download"@ {
            av.remove(1)
        } else {
            av
        };
        let spec_toks = if stripped.len() <= 1 {
            Seq::<Seq<char>>::empty()
        } else {
            stripped.skip(1)
        };
        assert(toks.deep_view() =~= spec_toks);
    }
    match match_args(&toks) {
        Err(e) => Err(ArgsError::Parse(e)),
        Ok(m) => Options::try_from(m),
    }
}

/// Law: with the crate token well-formed, assembly fails with the
/// cross-field error exactly when extraction is requested together
/// with output to standard output, and succeeds otherwise — with a
/// path or absent output, extraction never fails assembly.
pub proof fn lemma_extract_stdout_exclusion(m: MatchesModel)
    requires
        spec_parse_crate(m.crate_spec) is Ok,
    ensures
        spec_assemble(m) == Err::<OptionsModel, ArgsErrorModel>(
            ArgsErrorModel::CantExtractToStdout,
        ) <==> (m.extract && (m.output matches Some(s) && spec_output_of(s) is Stdout)),
        spec_assemble(m) is Ok <==> !(m.extract && (m.output matches Some(s) && spec_output_of(s)
            is Stdout)),
{
}

/// Law: the invariant of every assembled [`Options`] value — whatever
/// the argument list, a successful parse never combines extraction
/// with output to standard output.
pub proof fn lemma_options_invariant(argv: Seq<Seq<char>>)
    ensures
        spec_parse_argv(argv) matches Ok(o) ==> !(o.extract && o.output == Some(
            OutputModel::Stdout,
        )),
{
}

/// Law: an argument list whose second element is the literal
/// `download` (and whose third, if any, is not) parses exactly as the
/// list with that element removed; the normalization looks at index
/// one only.
pub proof fn lemma_subcommand_normalization(argv: Seq<Seq<char>>)
    requires
        argv.len() >= 2,
        argv[1] == "download"@,
        argv.len() == 2 || argv[2] != "download"@,
    ensures
        spec_parse_argv(argv) == spec_parse_argv(argv.remove(1)),
{
    let stripped = argv.remove(1);
    assert(stripped.len() == argv.len() - 1);
    if stripped.len() >= 2 {
        assert(stripped[1] == argv[2]);
    }
    if stripped.len() <= 1 {
        assert(stripped.skip(1) =~= Seq::<Seq<char>>::empty());
    }
}

} // verus!
