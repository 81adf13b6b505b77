//! A single, fully qualified semantic version: `major.minor.patch`
//! plus optional pre-release and build-metadata identifiers.

use vstd::prelude::*;
use vstd::string::*;

use crate::textops::{push_decimal, spec_decimal};

verus! {

/// A fully specified semantic version.
#[derive(Debug, Clone, PartialEq, Eq)]
pub struct Version {
    pub major: u64,
    pub minor: u64,
    pub patch: u64,
    /// Pre-release identifiers, empty when there are none.
    pub pre: String,
    /// Build metadata, empty when there is none.
    pub build: String,
}

/// Mathematical model of a [`Version`].
pub struct VersionModel {
    pub major: u64,
    pub minor: u64,
    pub patch: u64,
    pub pre: Seq<char>,
    pub build: Seq<char>,
}

impl View for Version {
    type V = VersionModel;

    open spec fn view(&self) -> VersionModel {
        VersionModel {
            major: self.major,
            minor: self.minor,
            patch: self.patch,
            pre: self.pre@,
            build: self.build@,
        }
    }
}

/// What `semver::Version::parse` returns for a given character
/// sequence: the parsed components, or `None` where the text is not a
/// well-formed semantic version.
pub uninterp spec fn spec_version_parse(s: Seq<char>) -> Option<VersionModel>;

/// Relies on `semver::Version::parse`: parses a fully qualified
/// semantic version, whose components this crate's [`Version`] then
/// carries as plain values (the pre-release and build identifier lists
/// as their text).
#[verifier::external_body]
pub fn parse_version(s: &str) -> (r: Option<Version>)
    ensures
        r is Some <==> spec_version_parse(s@) is Some,
        r matches Some(v) ==> spec_version_parse(s@) == Some(v@),
{
    match semver::Version::parse(s) {
        Ok(v) => Some(Version {
            major: v.major,
            minor: v.minor,
            patch: v.patch,
            pre: v.pre.as_str().to_owned(),
            build: v.build.as_str().to_owned(),
        }),
        Err(_) => None,
    }
}

/// The canonical text of a version: `major.minor.patch`, then `-pre`
/// when the pre-release part is non-empty, then `+build` when the
/// build-metadata part is non-empty.
pub open spec fn spec_version_text(v: VersionModel) -> Seq<char> {
    spec_decimal(v.major as int) + seq!['.'] + spec_decimal(v.minor as int) + seq!['.']
        + spec_decimal(v.patch as int) + (if v.pre.len() > 0 {
        seq!['-'] + v.pre
    } else {
        Seq::<char>::empty()
    }) + (if v.build.len() > 0 {
        seq!['+'] + v.build
    } else {
        Seq::<char>::empty()
    })
}

impl Version {
    /// Renders the version in its canonical text form.
    pub fn to_text(&self) -> (r: String)
        ensures
            r@ == spec_version_text(self@),
    {
        let mut out = String::new();
        self.push_text(&mut out);
        out
    }

    /// Appends the canonical text form to `out`.
    pub fn push_text(&self, out: &mut String)
        ensures
            final(out)@ == old(out)@ + spec_version_text(self@),
    {
        proof {
            reveal_strlit(".");
            reveal_strlit("-");
            reveal_strlit("+");
        }
        push_decimal(out, self.major);
        out.append(".");
        push_decimal(out, self.minor);
        out.append(".");
        push_decimal(out, self.patch);
        if self.pre.as_str().unicode_len() > 0 {
            out.append("-");
            out.append(self.pre.as_str());
        }
        if self.build.as_str().unicode_len() > 0 {
            out.append("+");
            out.append(self.build.as_str());
        }
        proof {
            assert(out@ =~= old(out)@ + spec_version_text(self@));
        }
    }
}

} // verus!
