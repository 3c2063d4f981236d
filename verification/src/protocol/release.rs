//! The parts of a release name.

use vstd::prelude::*;

verus! {

/// The parts of a release name that a lookup reads. Each part is a piece of
/// the name that was parsed.
#[derive(Clone, Copy, Debug)]
pub struct ParsedRelease<'a> {
    /// The package, where the name gives one.
    pub package: Option<&'a str>,
    /// The version as it was written, without the build code, where the name
    /// holds a version.
    pub version_short: Option<&'a str>,
    /// The build hash, where the name holds one.
    pub build_hash: Option<&'a str>,
}

/// The characters of a string that may be absent.
pub open spec fn text_of(s: Option<&str>) -> Option<Seq<char>> {
    match s {
        Some(s) => Some(s@),
        None => None,
    }
}

impl<'a> ParsedRelease<'a> {
    /// The package, the short version and the build hash, in this order.
    pub open spec fn view(&self) -> (Option<Seq<char>>, Option<Seq<char>>, Option<Seq<char>>) {
        (text_of(self.package), text_of(self.version_short), text_of(self.build_hash))
    }
}

/// What the release parser makes of the release name `raw`: nothing where it
/// rejects the name, and else the package, the short version and the build
/// hash, in this order, each where the name holds it.
pub uninterp spec fn release_parts(raw: Seq<char>) -> Option<
    (Option<Seq<char>>, Option<Seq<char>>, Option<Seq<char>>),
>;

/// Trusted: `Release::parse` of the crate `sentry_release_parser`, and of the
/// release that it returns `Release::package`, `Release::build_hash` and, of
/// its `Release::version`, `Version::raw_short`. The result is a function of
/// the name alone; the contract gives it the name `release_parts` and says
/// nothing else of it.
#[verifier::external_body]
pub(crate) fn parse_release_name<'a>(raw: &'a str) -> (r: Option<ParsedRelease<'a>>)
    ensures
        match r {
            Some(parsed) => release_parts(raw@) == Some(parsed@),
            None => release_parts(raw@) is None,
        },
{
    let release = sentry_release_parser::Release::parse(raw).ok()?;
    Some(
        ParsedRelease {
            package: release.package(),
            version_short: release.version().map(|version| version.raw_short()),
            build_hash: release.build_hash(),
        },
    )
}

} // verus!
