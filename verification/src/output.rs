//! Destination of the downloaded crate's data.

use vstd::prelude::*;
use vstd::string::*;

verus! {

/// Where the program's output should go.
#[derive(Debug, Clone, PartialEq, Eq)]
pub enum Output {
    /// Output goes to a file or directory at the given path.
    Path(String),
    /// Output goes to the standard output stream.
    Stdout,
}

/// Mathematical model of an [`Output`] value.
pub enum OutputModel {
    Path(Seq<char>),
    Stdout,
}

impl View for Output {
    type V = OutputModel;

    open spec fn view(&self) -> OutputModel {
        match self {
            Output::Path(p) => OutputModel::Path(p@),
            Output::Stdout => OutputModel::Stdout,
        }
    }
}

/// What [`Output::from_text`] returns: `-` maps to `Stdout`, every other
/// string (the empty string included) to `Path` around that exact string.
pub open spec fn spec_output_of(s: Seq<char>) -> OutputModel {
    if s == "-"@ {
        OutputModel::Stdout
    } else {
        OutputModel::Path(s)
    }
}

/// The text form of an output target.
pub open spec fn spec_output_text(o: OutputModel) -> Seq<char> {
    match o {
        OutputModel::Path(p) => p,
        OutputModel::Stdout => "-"@,
    }
}

impl Output {
    /// Total, pure mapping from a path-like string: the literal `-`
    /// selects standard output, anything else is taken verbatim as a
    /// filesystem path (no existence check, no normalization).
    pub fn from_text(s: &str) -> (r: Output)
        ensures
            r@ == spec_output_of(s@),
    {
        proof {
            reveal_strlit("-");
        }
        if s.unicode_len() == 1 && s.get_char(0) == '-' {
            proof {
                assert(s@ =~= "-"@);
            }
            Output::Stdout
        } else {
            Output::Path(s.to_owned())
        }
    }

    /// Renders the target back to text: a path as itself, standard
    /// output as the literal `-`.
    pub fn to_text(&self) -> (r: String)
        ensures
            r@ == spec_output_text(self@),
    {
        match self {
            Output::Path(p) => p.clone(),
            Output::Stdout => {
                proof {
                    reveal_strlit("-");
                }
                String::from_str("-")
            },
        }
    }

    /// Whether this output is the standard output stream.
    pub fn is_stdout(&self) -> (r: bool)
        ensures
            r == (self@ is Stdout),
    {
        match self {
            Output::Stdout => true,
            Output::Path(_) => false,
        }
    }
}

} // verus!
