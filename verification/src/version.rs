//! Build-time version resolution: given the semantic version of the linked
//! runtime and the set of schema snapshot versions that are available, select
//! the single best compatible snapshot.

use vstd::prelude::*;

use crate::strutil::{push_decimal_u64, spec_decimal, string_push_char};

verus! {

/// A semantic version triple. Pre-release and build metadata play no role in
/// snapshot selection, so a version is modelled as its three numeric parts.
#[derive(Clone, Copy, Debug, PartialEq, Eq, Structural)]
pub struct Version {
    pub major: u64,
    pub minor: u64,
    pub patch: u64,
}

impl Version {
    /// Lexicographic order on (major, minor, patch).
    pub open spec fn spec_le(self, other: Version) -> bool {
        self.major < other.major
            || (self.major == other.major && self.minor < other.minor)
            || (self.major == other.major && self.minor == other.minor
                && self.patch <= other.patch)
    }

    /// The all-zero version, which marks an empty initial release.
    pub open spec fn spec_is_zero(self) -> bool {
        self.major == 0 && self.minor == 0 && self.patch == 0
    }

    pub fn new(major: u64, minor: u64, patch: u64) -> (r: Version)
        ensures
            r == (Version { major, minor, patch }),
    {
        Version { major, minor, patch }
    }

    pub fn le(&self, other: &Version) -> (r: bool)
        ensures
            r == self.spec_le(*other),
    {
        self.major < other.major
            || (self.major == other.major && self.minor < other.minor)
            || (self.major == other.major && self.minor == other.minor
                && self.patch <= other.patch)
    }

    pub fn is_zero(&self) -> (r: bool)
        ensures
            r == self.spec_is_zero(),
    {
        self.major == 0 && self.minor == 0 && self.patch == 0
    }
}

/// What the outside semantic-version parser makes of a text: the numeric
/// triple, or nothing when the text is not a semantic version.
pub uninterp spec fn spec_parsed_version(s: Seq<char>) -> Option<(u64, u64, u64)>;

/// Relies on semver's `Version::parse`: whether a text parses, and the triple
/// it parses to, depend on the text alone. Pre-release and build metadata play
/// no role in snapshot selection and are dropped.
#[verifier::external_body]
pub fn parse_version(s: &str) -> (r: Option<Version>)
    ensures
        match r {
            Some(v) => spec_parsed_version(s@) == Some((v.major, v.minor, v.patch)),
            None => spec_parsed_version(s@) is None,
        },
{
    semver::Version::parse(s).ok().map(
        |v| Version { major: v.major, minor: v.minor, patch: v.patch },
    )
}

impl Version {
    /// The `major.minor.patch` spelling.
    pub open spec fn spec_text(self) -> Seq<char> {
        spec_decimal(self.major as nat) + "."@ + spec_decimal(self.minor as nat) + "."@
            + spec_decimal(self.patch as nat)
    }

    /// Spell the version as `major.minor.patch`.
    pub fn to_text(&self) -> (r: String)
        ensures
            r@ == self.spec_text(),
    {
        let mut out = String::new();
        push_decimal_u64(&mut out, self.major);
        out.append(".");
        push_decimal_u64(&mut out, self.minor);
        out.append(".");
        push_decimal_u64(&mut out, self.patch);
        proof {
            assert(out@ =~= self.spec_text());
        }
        out
    }
}

/// How a snapshot version is required to relate to the linked runtime version.
#[derive(Clone, Copy, Debug, PartialEq, Eq, Structural)]
pub enum CompatibilityMode {
    /// The snapshot must equal the linked version in major.minor.patch.
    Exact,
    /// Conventional caret compatibility: the linked version must be at least
    /// the snapshot version and share its major component; when the major
    /// component is zero the minor component must match as well, and when both
    /// are zero the patch must match too.
    Caret,
}

/// Whether snapshot `candidate` is usable with linked runtime version `linked`.
pub open spec fn spec_compatible(
    candidate: Version,
    linked: Version,
    mode: CompatibilityMode,
) -> bool {
    match mode {
        CompatibilityMode::Exact => candidate == linked,
        CompatibilityMode::Caret => {
            &&& candidate.spec_le(linked)
            &&& candidate.major == linked.major
            &&& (candidate.major == 0 ==> candidate.minor == linked.minor)
            &&& (candidate.major == 0 && candidate.minor == 0
                ==> candidate.patch == linked.patch)
        },
    }
}

pub fn compatible(candidate: &Version, linked: &Version, mode: CompatibilityMode) -> (r: bool)
    ensures
        r == spec_compatible(*candidate, *linked, mode),
{
    match mode {
        CompatibilityMode::Exact => {
            candidate.major == linked.major && candidate.minor == linked.minor
                && candidate.patch == linked.patch
        },
        CompatibilityMode::Caret => {
            candidate.le(linked) && candidate.major == linked.major
                && (candidate.major != 0 || candidate.minor == linked.minor)
                && (candidate.major != 0 || candidate.minor != 0
                    || candidate.patch == linked.patch)
        },
    }
}

/// No available snapshot is compatible with the linked version. The error
/// carries every candidate that was considered, so that a diagnostic can
/// enumerate them.
#[derive(Debug, Clone)]
pub struct ResolveError {
    pub linked: Version,
    pub candidates: Vec<Version>,
}

/// One line per candidate version, each indented and ended by a line feed.
pub open spec fn spec_candidate_lines(cs: Seq<Version>) -> Seq<char>
    decreases cs.len(),
{
    if cs.len() == 0 {
        Seq::empty()
    } else {
        seq!['\t'] + cs[0].spec_text() + seq!['\n'] + spec_candidate_lines(cs.drop_first())
    }
}

impl ResolveError {
    /// The diagnostic of a failed resolution: the linked version, then every
    /// available candidate version on its own line.
    pub open spec fn spec_message(self) -> Seq<char> {
        "Unsupported runtime version "@ + self.linked.spec_text()
            + "\nsupported versions are:\n"@ + spec_candidate_lines(self.candidates@)
    }

    /// Render the diagnostic, enumerating every available candidate.
    pub fn message(&self) -> (r: String)
        ensures
            r@ == self.spec_message(),
    {
        let mut out = String::new();
        out.append("Unsupported runtime version ");
        let lt = self.linked.to_text();
        out.append(lt.as_str());
        out.append("\nsupported versions are:\n");
        let ghost pre = out@;
        let n = self.candidates.len();
        let mut i: usize = 0;
        proof {
            assert(self.candidates@.skip(0) =~= self.candidates@);
        }
        while i < n
            invariant
                n == self.candidates@.len(),
                0 <= i <= n,
                spec_candidate_lines(self.candidates@) == out@.skip(pre.len() as int)
                    + spec_candidate_lines(self.candidates@.skip(i as int)),
                pre.len() <= out@.len(),
                out@.take(pre.len() as int) == pre,
            decreases n - i,
        {
            let ghost prei = out@;
            string_push_char(&mut out, '\t');
            let vt = self.candidates[i].to_text();
            out.append(vt.as_str());
            string_push_char(&mut out, '\n');
            proof {
                assert(self.candidates@.skip(i as int)[0] == self.candidates@[i as int]);
                assert(self.candidates@.skip(i as int).drop_first() =~= self.candidates@.skip(
                    i + 1 as int,
                ));
                assert(out@.skip(pre.len() as int) =~= prei.skip(pre.len() as int) + (seq!['\t']
                    + self.candidates@[i as int].spec_text() + seq!['\n']));
                assert(out@.take(pre.len() as int) =~= pre);
            }
            i += 1;
        }
        proof {
            assert(self.candidates@.skip(n as int) =~= Seq::<Version>::empty());
            assert(out@ =~= pre + out@.skip(pre.len() as int));
            assert(out@ =~= self.spec_message());
        }
        out
    }
}

/// Select the greatest candidate compatible with `linked` under `mode`.
pub fn resolve(
    candidates: &Vec<Version>,
    linked: &Version,
    mode: CompatibilityMode,
) -> (r: Result<Version, ResolveError>)
    ensures
        (r is Ok) <==> (exists|i: int|
            0 <= i < candidates@.len() && spec_compatible(candidates@[i], *linked, mode)),
        r matches Ok(v) ==> {
            &&& candidates@.contains(v)
            &&& spec_compatible(v, *linked, mode)
            &&& forall|i: int|
                0 <= i < candidates@.len() && spec_compatible(candidates@[i], *linked, mode)
                    ==> candidates@[i].spec_le(v)
        },
        r matches Err(e) ==> e.candidates@ == candidates@ && e.linked == *linked,
{
    let mut best: Option<Version> = None;
    let n = candidates.len();
    let mut i: usize = 0;
    while i < n
        invariant
            n == candidates@.len(),
            0 <= i <= n,
            best matches Some(b) ==> {
                &&& candidates@.contains(b)
                &&& spec_compatible(b, *linked, mode)
                &&& forall|j: int|
                    0 <= j < i && spec_compatible(candidates@[j], *linked, mode)
                        ==> candidates@[j].spec_le(b)
            },
            best is None ==> forall|j: int|
                0 <= j < i ==> !spec_compatible(candidates@[j], *linked, mode),
        decreases n - i,
    {
        let c = candidates[i];
        if compatible(&c, linked, mode) {
            match &best {
                Some(b) => {
                    if b.le(&c) {
                        best = Some(c);
                    }
                },
                None => {
                    best = Some(c);
                },
            }
        }
        i += 1;
    }
    match best {
        Some(v) => Ok(v),
        None => Err(ResolveError { linked: *linked, candidates: candidates.clone() }),
    }
}

} // verus!
