//! The crate-specification mini-language: `NAME[=VERSION]`, parsed
//! into a name plus either an exact version pin or a version-range
//! requirement.

use vstd::prelude::*;
use vstd::string::*;

use crate::requirement::{spec_exact_req_text, spec_req_canon, Requirement};
use crate::textops::{find_first_eq, spec_char_alphanumeric, spec_first_eq, spec_trim};
use crate::version::{spec_version_parse, spec_version_text, Version, VersionModel};

verus! {

/// The version part of a crate specification: either an exact pin
/// (written with a leading `=` sign) or a range requirement.
#[derive(Debug, Clone, PartialEq, Eq)]
pub enum CrateVersion {
    /// Exactly this version, like `=1.0.0`.
    Exact(Version),
    /// A range requirement, like `^1.0.0`; a specification without a
    /// version part carries the universal requirement here.
    Other(Requirement),
}

/// Mathematical model of a [`CrateVersion`].
pub enum CrateVersionModel {
    Exact(VersionModel),
    Other(Seq<char>),
}

impl View for CrateVersion {
    type V = CrateVersionModel;

    open spec fn view(&self) -> CrateVersionModel {
        match self {
            CrateVersion::Exact(v) => CrateVersionModel::Exact(v@),
            CrateVersion::Other(r) => CrateVersionModel::Other(r@),
        }
    }
}

/// Error in the version part of a crate specification.
#[derive(Debug, Clone, PartialEq, Eq)]
pub enum CrateVersionError {
    /// The text after the leading `=` sign is not a well-formed
    /// semantic version; carries that text.
    Syntax(String),
    /// The text is not a well-formed range-requirement expression;
    /// carries that text.
    Semantics(String),
}

/// Mathematical model of a [`CrateVersionError`].
pub enum CrateVersionErrorModel {
    Syntax(Seq<char>),
    Semantics(Seq<char>),
}

impl View for CrateVersionError {
    type V = CrateVersionErrorModel;

    open spec fn view(&self) -> CrateVersionErrorModel {
        match self {
            CrateVersionError::Syntax(s) => CrateVersionErrorModel::Syntax(s@),
            CrateVersionError::Semantics(s) => CrateVersionErrorModel::Semantics(s@),
        }
    }
}

/// Error in a crate specification.
#[derive(Debug, Clone, PartialEq, Eq)]
pub enum CrateError {
    /// The crate name is empty or holds a character outside the
    /// allowed set; carries the offending text.
    Name(String),
    /// The version part failed to parse.
    Version(CrateVersionError),
}

/// Mathematical model of a [`CrateError`].
pub enum CrateErrorModel {
    Name(Seq<char>),
    Version(CrateVersionErrorModel),
}

impl View for CrateError {
    type V = CrateErrorModel;

    open spec fn view(&self) -> CrateErrorModel {
        match self {
            CrateError::Name(s) => CrateErrorModel::Name(s@),
            CrateError::Version(e) => CrateErrorModel::Version(e@),
        }
    }
}

/// A character a crate name may hold: alphanumeric, `-` or `_`.
pub open spec fn valid_name_char(c: char) -> bool {
    spec_char_alphanumeric(c) || c == '-' || c == '_'
}

/// A well-formed crate name: non-empty, every character allowed.
pub open spec fn valid_name(s: Seq<char>) -> bool {
    s.len() > 0 && forall|i: int| 0 <= i < s.len() ==> valid_name_char(s[i])
}

/// What parsing a version sub-string yields: a leading `=` sign pins
/// an exact version, anything else is read as a range requirement.
pub open spec fn spec_parse_version(s: Seq<char>) -> Result<
    CrateVersionModel,
    CrateVersionErrorModel,
> {
    if s.len() > 0 && s[0] == '=' {
        match spec_version_parse(s.skip(1)) {
            Some(v) => Ok(CrateVersionModel::Exact(v)),
            None => Err(CrateVersionErrorModel::Syntax(s.skip(1))),
        }
    } else {
        match spec_req_canon(s) {
            Some(c) => Ok(CrateVersionModel::Other(c)),
            None => Err(CrateVersionErrorModel::Semantics(s)),
        }
    }
}

/// What parsing a crate-specification token yields. The token splits
/// at its first `=` sign and both parts are trimmed; the name is
/// validated on both paths, so an invalid name is never stored.
/// Without a version part the version defaults to the universal
/// requirement; with one, the version part is parsed.
pub open spec fn spec_parse_crate(s: Seq<char>) -> Result<CrateModel, CrateErrorModel> {
    match spec_first_eq(s) {
        None => {
            let name = spec_trim(s);
            if valid_name(name) {
                Ok(CrateModel { name, version: CrateVersionModel::Other("*"@) })
            } else {
                Err(CrateErrorModel::Name(name))
            }
        },
        Some(i) => {
            let name = spec_trim(s.take(i));
            if !valid_name(name) {
                Err(CrateErrorModel::Name(name))
            } else {
                let vtext = spec_trim(s.skip(i + 1));
                match spec_parse_version(vtext) {
                    Ok(v) => Ok(CrateModel { name, version: v }),
                    Err(e) => Err(CrateErrorModel::Version(e)),
                }
            }
        },
    }
}

/// Specification of a crate to download.
#[derive(Debug, Clone, PartialEq, Eq)]
pub struct Crate {
    name: String,
    version: CrateVersion,
}

/// Mathematical model of a [`Crate`].
pub struct CrateModel {
    pub name: Seq<char>,
    pub version: CrateVersionModel,
}

impl View for Crate {
    type V = CrateModel;

    closed spec fn view(&self) -> CrateModel {
        CrateModel { name: self.name@, version: self.version@ }
    }
}

/// Whether every character of `s` may stand in a crate name, and `s`
/// is non-empty.
fn is_valid_name(s: &str) -> (r: bool)
    ensures
        r == valid_name(s@),
{
    let len = s.unicode_len();
    if len == 0 {
        return false;
    }
    let mut i: usize = 0;
    while i < len
        invariant
            i <= len,
            len == s@.len(),
            forall|k: int| 0 <= k < i ==> valid_name_char(s@[k]),
        decreases len - i,
    {
        let c = s.get_char(i);
        if !(c.is_alphanumeric() || c == '-' || c == '_') {
            return false;
        }
        i = i + 1;
    }
    true
}

impl CrateVersion {
    /// Parses the version sub-string of a crate specification.
    pub fn from_str(s: &str) -> (r: Result<CrateVersion, CrateVersionError>)
        ensures
            match r {
                Ok(v) => spec_parse_version(s@) == Ok::<CrateVersionModel, CrateVersionErrorModel>(
                    v@,
                ),
                Err(e) => spec_parse_version(s@) == Err::<
                    CrateVersionModel,
                    CrateVersionErrorModel,
                >(e@),
            },
    {
        let len = s.unicode_len();
        if len > 0 && s.get_char(0) == '=' {
            let rest = s.substring_char(1, len);
            proof {
                assert(rest@ =~= s@.skip(1));
            }
            match crate::version::parse_version(rest) {
                Some(v) => Ok(CrateVersion::Exact(v)),
                None => Err(CrateVersionError::Syntax(rest.to_owned())),
            }
        } else {
            match Requirement::parse(s) {
                Some(req) => Ok(CrateVersion::Other(req)),
                None => Err(CrateVersionError::Semantics(s.to_owned())),
            }
        }
    }

    /// Renders the version part in its canonical text form: `=` plus
    /// the version for an exact pin, the requirement's own text
    /// otherwise.
    pub fn to_text(&self) -> (r: String)
        ensures
            r@ == spec_crate_version_text(self@),
    {
        proof {
            reveal_strlit("=");
        }
        match self {
            CrateVersion::Exact(v) => {
                let mut out = String::new();
                out.append("=");
                v.push_text(&mut out);
                out
            },
            CrateVersion::Other(r) => r.as_text().to_owned(),
        }
    }
}

/// Canonical text of a crate version: `=1.0.0` for an exact pin, the
/// requirement's canonical text otherwise.
pub open spec fn spec_crate_version_text(v: CrateVersionModel) -> Seq<char> {
    match v {
        CrateVersionModel::Exact(vm) => seq!['='] + spec_version_text(vm),
        CrateVersionModel::Other(t) => t,
    }
}

/// Canonical text of a crate specification: `name=version`.
pub open spec fn spec_crate_text(c: CrateModel) -> Seq<char> {
    c.name + seq!['='] + spec_crate_version_text(c.version)
}

impl Crate {
    /// Parses a crate-specification token.
    pub fn from_str(s: &str) -> (r: Result<Crate, CrateError>)
        ensures
            match r {
                Ok(c) => spec_parse_crate(s@) == Ok::<CrateModel, CrateErrorModel>(c@),
                Err(e) => spec_parse_crate(s@) == Err::<CrateModel, CrateErrorModel>(e@),
            },
    {
        let len = s.unicode_len();
        match find_first_eq(s) {
            None => {
                let name = s.trim();
                if is_valid_name(name) {
                    Ok(
                        Crate {
                            name: name.to_owned(),
                            version: CrateVersion::Other(Requirement::any()),
                        },
                    )
                } else {
                    Err(CrateError::Name(name.to_owned()))
                }
            },
            Some(i) => {
                proof {
                    crate::textops::lemma_first_eq_characterization(s@);
                }
                let name = s.substring_char(0, i).trim();
                proof {
                    assert(s@.subrange(0, i as int) =~= s@.take(i as int));
                }
                if !is_valid_name(name) {
                    return Err(CrateError::Name(name.to_owned()));
                }
                let vpart = s.substring_char(i + 1, len).trim();
                proof {
                    assert(s@.subrange(i + 1, len as int) =~= s@.skip(i + 1));
                }
                match CrateVersion::from_str(vpart) {
                    Ok(v) => Ok(Crate { name: name.to_owned(), version: v }),
                    Err(e) => Err(CrateError::Version(e)),
                }
            },
        }
    }

    /// The crate's name.
    pub fn name(&self) -> (r: &str)
        ensures
            r@ == self@.name,
    {
        self.name.as_str()
    }

    /// The pinned version, where the specification pinned one exactly.
    pub fn exact_version(&self) -> (r: Option<&Version>)
        ensures
            match r {
                Some(v) => self@.version == CrateVersionModel::Exact(v@),
                None => self@.version is Other,
            },
    {
        match &self.version {
            CrateVersion::Exact(v) => Some(v),
            CrateVersion::Other(_) => None,
        }
    }

    /// The requirement-shaped projection of the version: an exact pin
    /// projects to the requirement matching exactly that version, a
    /// range requirement to itself. Downstream resolution works
    /// uniformly against this shape.
    pub fn version_requirement(&self) -> (r: Requirement)
        ensures
            r@ == spec_version_requirement(self@.version),
    {
        match &self.version {
            CrateVersion::Exact(v) => Requirement::exact(v),
            CrateVersion::Other(req) => req.duplicate(),
        }
    }

    /// Renders the specification in its canonical `name=version` form.
    pub fn to_text(&self) -> (r: String)
        ensures
            r@ == spec_crate_text(self@),
    {
        proof {
            reveal_strlit("=");
        }
        let mut out = self.name.clone();
        out.append("=");
        let vtext = self.version.to_text();
        out.append(vtext.as_str());
        proof {
            assert(out@ =~= spec_crate_text(self@));
        }
        out
    }
}

/// The diagnostic text of a version-part failure.
pub open spec fn spec_crate_version_error_text(e: CrateVersionErrorModel) -> Seq<char> {
    match e {
        CrateVersionErrorModel::Syntax(t) => "invalid semantic version `"@ + t + "`"@,
        CrateVersionErrorModel::Semantics(t) => "invalid version requirement `"@ + t + "`"@,
    }
}

/// The diagnostic text of a crate-specification failure, with the
/// version-level cause appended where there is one.
pub open spec fn spec_crate_error_text(e: CrateErrorModel) -> Seq<char> {
    match e {
        CrateErrorModel::Name(n) => "invalid crate name `"@ + n + "`"@,
        CrateErrorModel::Version(v) => "invalid crate version: "@ + spec_crate_version_error_text(v),
    }
}

impl CrateVersionError {
    /// Renders the failure for display.
    pub fn message(&self) -> (r: String)
        ensures
            r@ == spec_crate_version_error_text(self@),
    {
        match self {
            CrateVersionError::Syntax(t) => {
                let mut out = String::from_str("invalid semantic version `");
                out.append(t.as_str());
                out.append("`");
                out
            },
            CrateVersionError::Semantics(t) => {
                let mut out = String::from_str("invalid version requirement `");
                out.append(t.as_str());
                out.append("`");
                out
            },
        }
    }
}

impl CrateError {
    /// Renders the failure for display, the cause chain walked into
    /// one line.
    pub fn message(&self) -> (r: String)
        ensures
            r@ == spec_crate_error_text(self@),
    {
        match self {
            CrateError::Name(n) => {
                let mut out = String::from_str("invalid crate name `");
                out.append(n.as_str());
                out.append("`");
                out
            },
            CrateError::Version(e) => {
                let mut out = String::from_str("invalid crate version: ");
                let inner = e.message();
                out.append(inner.as_str());
                out
            },
        }
    }

    /// The version-level cause, where there is one.
    pub fn cause(&self) -> (r: Option<&CrateVersionError>)
        ensures
            match r {
                Some(e) => self@ == CrateErrorModel::Version(e@),
                None => self@ is Name,
            },
    {
        match self {
            CrateError::Version(e) => Some(e),
            CrateError::Name(_) => None,
        }
    }
}

/// Canonical text of the requirement-shaped projection of a version.
pub open spec fn spec_version_requirement(v: CrateVersionModel) -> Seq<char> {
    match v {
        CrateVersionModel::Exact(vm) => spec_exact_req_text(vm),
        CrateVersionModel::Other(t) => t,
    }
}

/// Law: a valid bare name (non-empty, alphanumeric/`-`/`_` only,
/// without an `=` sign or surrounding whitespace) parses to exactly
/// that name with the universal version requirement.
pub proof fn lemma_parse_bare_name(n: Seq<char>)
    requires
        valid_name(n),
        forall|k: int| 0 <= k < n.len() ==> n[k] != '=',
        spec_trim(n) == n,
    ensures
        spec_parse_crate(n) == Ok::<CrateModel, CrateErrorModel>(
            CrateModel { name: n, version: CrateVersionModel::Other("*"@) },
        ),
{
    crate::textops::lemma_first_eq_none(n);
}

/// Law: for a valid name `n` and a version text `t` that parses to `v`
/// and is `v`'s canonical rendering, the token `n==t` parses to the
/// exact pin of `v` under the name `n`, and rendering that crate back
/// to text yields `n==t` again.
pub proof fn lemma_parse_exact_round_trip(n: Seq<char>, t: Seq<char>, v: VersionModel)
    requires
        valid_name(n),
        forall|k: int| 0 <= k < n.len() ==> n[k] != '=',
        spec_trim(n) == n,
        spec_version_parse(t) == Some(v),
        spec_version_text(v) == t,
        spec_trim(seq!['='] + t) == seq!['='] + t,
    ensures
        spec_parse_crate(n + seq!['='] + (seq!['='] + t)) == Ok::<CrateModel, CrateErrorModel>(
            CrateModel { name: n, version: CrateVersionModel::Exact(v) },
        ),
        spec_crate_text(CrateModel { name: n, version: CrateVersionModel::Exact(v) }) == n + seq![
            '=',
        ] + (seq!['='] + t),
{
    let vpart = seq!['='] + t;
    crate::textops::lemma_first_eq_concat(n, vpart);
    assert(vpart.skip(1) =~= t);
    assert(spec_crate_text(CrateModel { name: n, version: CrateVersionModel::Exact(v) }) =~= n
        + seq!['='] + vpart);
}

/// Law: whitespace around the `=`-split parts never changes the
/// result — a token `a=b` parses exactly as the token built from the
/// trimmed parts. (The hypotheses hold of any real split: the part
/// before the first `=` sign has none, trimming keeps it that way, and
/// trimming is idempotent.)
pub proof fn lemma_split_parts_trimmed(a: Seq<char>, b: Seq<char>)
    requires
        forall|k: int| 0 <= k < a.len() ==> a[k] != '=',
        forall|k: int| 0 <= k < spec_trim(a).len() ==> spec_trim(a)[k] != '=',
        spec_trim(spec_trim(a)) == spec_trim(a),
        spec_trim(spec_trim(b)) == spec_trim(b),
    ensures
        spec_parse_crate(a + seq!['='] + b) == spec_parse_crate(
            spec_trim(a) + seq!['='] + spec_trim(b),
        ),
{
    crate::textops::lemma_first_eq_concat(a, b);
    crate::textops::lemma_first_eq_concat(spec_trim(a), spec_trim(b));
}

/// Law: for a valid name `n` and a requirement text `r` accepted by
/// the range grammar (not written with a leading `=` sign), the token
/// `n=r` parses to the range requirement under the name `n`, with the
/// same canonical requirement as parsing `r` directly as a version
/// sub-string.
pub proof fn lemma_parse_range_requirement(n: Seq<char>, r: Seq<char>, c: Seq<char>)
    requires
        valid_name(n),
        forall|k: int| 0 <= k < n.len() ==> n[k] != '=',
        spec_trim(n) == n,
        spec_req_canon(r) == Some(c),
        r.len() == 0 || r[0] != '=',
        spec_trim(r) == r,
    ensures
        spec_parse_crate(n + seq!['='] + r) == Ok::<CrateModel, CrateErrorModel>(
            CrateModel { name: n, version: CrateVersionModel::Other(c) },
        ),
        spec_parse_version(r) == Ok::<CrateVersionModel, CrateVersionErrorModel>(
            CrateVersionModel::Other(c),
        ),
{
    crate::textops::lemma_first_eq_concat(n, r);
}

} // verus!
