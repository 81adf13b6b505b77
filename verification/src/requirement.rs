//! A semantic-version range requirement (comparators, caret/tilde
//! shorthand, wildcards, comma-separated conjunctions), kept in its
//! canonical text form.

use vstd::prelude::*;
use vstd::string::*;

verus! {

/// A version-range requirement, held as the canonical text that the
/// semantic-versioning requirement grammar renders it to (for example
/// `1.2` canonicalizes to `^1.2`, and the universal requirement is
/// `*`). Two requirements with the same canonical text accept the same
/// versions.
#[derive(Debug, Clone, PartialEq, Eq)]
pub struct Requirement {
    text: String,
}

impl View for Requirement {
    type V = Seq<char>;

    closed spec fn view(&self) -> Seq<char> {
        self.text@
    }
}

/// What `semver::VersionReq::parse` followed by that crate's canonical
/// rendering yields for a given character sequence: the canonical text
/// of the requirement, or `None` where the text is not a well-formed
/// requirement expression.
pub uninterp spec fn spec_req_canon(s: Seq<char>) -> Option<Seq<char>>;

/// Relies on `semver::VersionReq::parse` (accepts a requirement
/// expression or rejects malformed text) and on that type's `Display`
/// (renders the parsed requirement in its canonical syntax).
#[verifier::external_body]
fn parse_requirement_text(s: &str) -> (r: Option<String>)
    ensures
        r is Some <==> spec_req_canon(s@) is Some,
        r matches Some(t) ==> spec_req_canon(s@) == Some(t@),
{
    match semver::VersionReq::parse(s) {
        Ok(req) => Some(req.to_string()),
        Err(_) => None,
    }
}

/// Relies on `semver::VersionReq::STAR`, the requirement with no
/// constraint: it equals `VersionReq::parse("*")` and renders as `*`.
#[verifier::external_body]
fn star_requirement_text() -> (r: String)
    ensures
        r@ == "*"@,
        spec_req_canon(r@) == Some(r@),
{
    semver::VersionReq::STAR.to_string()
}

impl Requirement {
    /// Parses a requirement expression; the result carries the
    /// expression's canonical text.
    pub fn parse(s: &str) -> (r: Option<Requirement>)
        ensures
            r is Some <==> spec_req_canon(s@) is Some,
            r matches Some(req) ==> spec_req_canon(s@) == Some(req@),
    {
        match parse_requirement_text(s) {
            Some(text) => Some(Requirement { text }),
            None => None,
        }
    }

    /// The universal requirement, satisfied by any version; its
    /// canonical text is `*`.
    pub fn any() -> (r: Requirement)
        ensures
            r@ == "*"@,
    {
        Requirement { text: star_requirement_text() }
    }

    /// The requirement that matches exactly the given version:
    /// `=major.minor.patch`, with the pre-release part appended when
    /// there is one. Build metadata plays no role in requirements and
    /// is left out.
    pub fn exact(v: &crate::version::Version) -> (r: Requirement)
        ensures
            r@ == spec_exact_req_text(v@),
    {
        proof {
            reveal_strlit("=");
            reveal_strlit(".");
            reveal_strlit("-");
        }
        let mut text = String::new();
        text.append("=");
        crate::textops::push_decimal(&mut text, v.major);
        text.append(".");
        crate::textops::push_decimal(&mut text, v.minor);
        text.append(".");
        crate::textops::push_decimal(&mut text, v.patch);
        if v.pre.as_str().unicode_len() > 0 {
            text.append("-");
            text.append(v.pre.as_str());
        }
        proof {
            assert(text@ =~= spec_exact_req_text(v@));
        }
        Requirement { text }
    }

    /// A copy of the requirement.
    pub fn duplicate(&self) -> (r: Requirement)
        ensures
            r@ == self@,
    {
        Requirement { text: self.text.clone() }
    }

    /// The requirement's canonical text.
    pub fn as_text(&self) -> (r: &str)
        ensures
            r@ == self@,
    {
        self.text.as_str()
    }
}

/// Canonical text of the requirement matching exactly one version.
pub open spec fn spec_exact_req_text(v: crate::version::VersionModel) -> Seq<char> {
    seq!['='] + crate::textops::spec_decimal(v.major as int) + seq!['.']
        + crate::textops::spec_decimal(v.minor as int) + seq!['.'] + crate::textops::spec_decimal(
        v.patch as int,
    ) + (if v.pre.len() > 0 {
        seq!['-'] + v.pre
    } else {
        Seq::<char>::empty()
    })
}

} // verus!
