//! MAME executable source, trust and version identity.

use vstd::prelude::*;

use crate::errors::{AppError, AppResult};
use crate::text::{chars_of, lines, lines_of, slice_range, string_from, trim, trim_chars};

verus! {

/// Where a MAME executable comes from.
#[derive(Debug, Clone, Copy, PartialEq, Eq, Structural)]
pub enum MameExecutableSourceKind {
    Bundled,
    External,
    DevelopmentTree,
}

/// How far the application trusts an executable.
#[derive(Debug, Clone, Copy, PartialEq, Eq, Structural)]
pub enum MameExecutableTrust {
    QualifiedBundled,
    UserConfigured,
    Development,
}

/// A MAME executable path together with its source kind.
#[derive(Debug, Clone, PartialEq, Eq)]
pub struct MameExecutableSource {
    kind: MameExecutableSourceKind,
    path: String,
}

/// The trust that each source kind carries.
pub open spec fn trust_of(kind: MameExecutableSourceKind) -> MameExecutableTrust {
    match kind {
        MameExecutableSourceKind::Bundled => MameExecutableTrust::QualifiedBundled,
        MameExecutableSourceKind::External => MameExecutableTrust::UserConfigured,
        MameExecutableSourceKind::DevelopmentTree => MameExecutableTrust::Development,
    }
}

impl MameExecutableSource {
    pub closed spec fn spec_kind(&self) -> MameExecutableSourceKind {
        self.kind
    }

    pub closed spec fn spec_path(&self) -> Seq<char> {
        self.path@
    }

    /// The executable shipped inside the application package.
    pub fn bundled(path: String) -> (r: Self)
        ensures
            r.spec_kind() == MameExecutableSourceKind::Bundled,
            r.spec_path() == path@,
    {
        MameExecutableSource { kind: MameExecutableSourceKind::Bundled, path }
    }

    /// An executable the user configured.
    pub fn external(path: String) -> (r: Self)
        ensures
            r.spec_kind() == MameExecutableSourceKind::External,
            r.spec_path() == path@,
    {
        MameExecutableSource { kind: MameExecutableSourceKind::External, path }
    }

    /// An executable from a development checkout.
    pub fn development_tree(path: String) -> (r: Self)
        ensures
            r.spec_kind() == MameExecutableSourceKind::DevelopmentTree,
            r.spec_path() == path@,
    {
        MameExecutableSource { kind: MameExecutableSourceKind::DevelopmentTree, path }
    }

    pub fn kind(&self) -> (r: MameExecutableSourceKind)
        ensures
            r == self.spec_kind(),
    {
        self.kind
    }

    pub fn path(&self) -> (r: &str)
        ensures
            r@ == self.spec_path(),
    {
        self.path.as_str()
    }

    /// The trust implied by the source kind.
    pub fn trust(&self) -> (r: MameExecutableTrust)
        ensures
            r == trust_of(self.spec_kind()),
    {
        match self.kind {
            MameExecutableSourceKind::Bundled => MameExecutableTrust::QualifiedBundled,
            MameExecutableSourceKind::External => MameExecutableTrust::UserConfigured,
            MameExecutableSourceKind::DevelopmentTree => MameExecutableTrust::Development,
        }
    }
}

/// Identity of a probed executable: where it is, how it is trusted and what it reported.
#[derive(Debug, Clone, PartialEq, Eq)]
pub struct MameExecutableIdentity {
    pub source: MameExecutableSourceKind,
    pub trust: MameExecutableTrust,
    pub path: String,
    pub version: String,
    pub build: Option<String>,
    pub raw_version_line: String,
}

/// The configured external executable: none when unset, an error when blank.
pub fn configured_external_source(path: Option<&str>) -> (r: AppResult<Option<MameExecutableSource>>)
    ensures
        path is None ==> r == Ok::<Option<MameExecutableSource>, AppError>(None),
        path matches Some(p) ==> (r is Err <==> trim(p@).len() == 0),
        r matches Err(e) ==> e.code@ == "MAME_EXECUTABLE_PATH_EMPTY"@,
        r matches Ok(Some(s)) ==> path is Some && s.spec_kind() == MameExecutableSourceKind::External
            && s.spec_path() == path->0@,
{
    match path {
        None => Ok(None),
        Some(p) => {
            let chars = chars_of(p);
            let trimmed = trim_chars(chars.as_slice());
            if trimmed.len() == 0 {
                return Err(
                    AppError::new(
                        "MAME_EXECUTABLE_PATH_EMPTY",
                        "The configured MAME executable path is empty.",
                    ),
                );
            }
            Ok(Some(MameExecutableSource::external(p.to_owned())))
        },
    }
}

/// The first line that is not blank, trimmed.
pub open spec fn first_nonblank(ls: Seq<Seq<char>>) -> Option<Seq<char>>
    decreases ls.len(),
{
    if ls.len() == 0 {
        None
    } else if trim(ls[0]).len() > 0 {
        Some(trim(ls[0]))
    } else {
        first_nonblank(ls.drop_first())
    }
}

proof fn lemma_first_nonblank_skip(ls: Seq<Seq<char>>, i: int)
    requires
        0 <= i <= ls.len(),
        forall|k: int| 0 <= k < i ==> trim(#[trigger] ls[k]).len() == 0,
    ensures
        first_nonblank(ls) == first_nonblank(ls.skip(i)),
    decreases i,
{
    if i > 0 {
        assert(ls.drop_first().skip(i - 1) == ls.skip(i));
        assert forall|k: int| 0 <= k < i - 1 implies trim(#[trigger] ls.drop_first()[k]).len() == 0 by {
            assert(ls.drop_first()[k] == ls[k + 1]);
        }
        lemma_first_nonblank_skip(ls.drop_first(), i - 1);
    } else {
        assert(ls.skip(0) == ls);
    }
}

/// The version line: the first non-blank line of stdout, then of stderr, trimmed.
pub fn select_version_line(stdout: &str, stderr: &str) -> (r: Option<String>)
    ensures
        r matches Some(s) ==> first_nonblank(lines(stdout@) + lines(stderr@)) == Some(s@),
        r is None ==> first_nonblank(lines(stdout@) + lines(stderr@)) is None,
{
    let out = chars_of(stdout);
    let err = chars_of(stderr);
    let mut all = lines_of(out.as_slice());
    let mut rest = lines_of(err.as_slice());
    let ghost a = all.deep_view();
    let ghost b = rest.deep_view();
    all.append(&mut rest);
    let ghost ls = all.deep_view();
    assert(ls =~= a + b);
    let mut i: usize = 0;
    while i < all.len()
        invariant
            i <= all@.len(),
            ls == all.deep_view(),
            ls == lines(stdout@) + lines(stderr@),
            ls.len() == all@.len(),
            forall|k: int| 0 <= k < i ==> trim(#[trigger] ls[k]).len() == 0,
        decreases all.len() - i,
    {
        assert(all[i as int]@ == ls[i as int]);
        let line = trim_chars(all[i].as_slice());
        if line.len() > 0 {
            proof {
                lemma_first_nonblank_skip(ls, i as int);
                assert(ls.skip(i as int)[0] == ls[i as int]);
            }
            return Some(string_from(line.as_slice()));
        }
        i += 1;
    }
    proof {
        lemma_first_nonblank_skip(ls, ls.len() as int);
    }
    None
}

/// Index of the first occurrence of `c`.
pub open spec fn first_index_of(s: Seq<char>, c: char) -> Option<int> {
    if exists|i: int| 0 <= i < s.len() && s[i] == c {
        Some(choose|i: int| 0 <= i < s.len() && s[i] == c && forall|k: int| 0 <= k < i ==> s[k] != c)
    } else {
        None
    }
}

/// Split a version line at its first space: the version before it and, when the rest is not
/// blank, the trimmed rest as the build.
pub open spec fn version_parts(line: Seq<char>) -> (Seq<char>, Option<Seq<char>>) {
    let t = trim(line);
    match first_index_of(t, ' ') {
        Some(i) => {
            let build = trim(t.subrange(i + 1, t.len() as int));
            (t.subrange(0, i), if build.len() > 0 {
                Some(build)
            } else {
                None
            })
        },
        None => (t, None),
    }
}

/// Parse a MAME `-version` line into version and build.
pub fn parse_version_line(line: &str) -> (r: (String, Option<String>))
    ensures
        r.0@ == version_parts(line@).0,
        match r.1 {
            Some(b) => version_parts(line@).1 == Some(b@),
            None => version_parts(line@).1 is None,
        },
{
    let chars = chars_of(line);
    let t = trim_chars(chars.as_slice());
    let mut i: usize = 0;
    while i < t.len() && t[i] != ' '
        invariant
            i <= t@.len(),
            forall|k: int| 0 <= k < i ==> t@[k] != ' ',
        decreases t.len() - i,
    {
        i += 1;
    }
    if i == t.len() {
        proof {
            assert(!(exists|k: int| 0 <= k < t@.len() && t@[k] == ' '));
        }
        return (string_from(t.as_slice()), None);
    }
    proof {
        assert(exists|k: int| 0 <= k < t@.len() && t@[k] == ' ');
        let c = choose|k: int| 0 <= k < t@.len() && t@[k] == ' ' && forall|m: int| 0 <= m < k ==> t@[m] != ' ';
        assert(i as int == c) by {
            if c < i {
                assert(t@[c] != ' ');
            }
            if i < c {
                assert(t@[i as int] != ' ');
            }
        }
    }
    let version = slice_range(t.as_slice(), 0, i);
    let rest = slice_range(t.as_slice(), i + 1, t.len());
    let build = trim_chars(rest.as_slice());
    let build = if build.len() > 0 {
        Some(string_from(build.as_slice()))
    } else {
        None
    };
    (string_from(version.as_slice()), build)
}

/// Output retained from a child stream, up to a byte limit.
#[derive(Debug, Clone, PartialEq, Eq)]
pub struct BoundedBytes {
    pub bytes: Vec<u8>,
    pub truncated: bool,
}

impl BoundedBytes {
    /// Nothing retained yet.
    pub fn new() -> (r: Self)
        ensures
            r.bytes@.len() == 0,
            !r.truncated,
    {
        BoundedBytes { bytes: Vec::new(), truncated: false }
    }

    /// Retain as much of `chunk` as still fits under `limit`; note anything dropped.
    pub fn absorb(&mut self, chunk: &[u8], limit: usize)
        ensures
            final(self).bytes@ == old(self).bytes@ + chunk@.take(
                if old(self).bytes@.len() >= limit {
                    0
                } else {
                    let room = limit - old(self).bytes@.len();
                    if room < chunk@.len() {
                        room
                    } else {
                        chunk@.len() as int
                    }
                },
            ),
            final(self).truncated == (old(self).truncated || (if old(self).bytes@.len() >= limit {
                chunk@.len() > 0
            } else {
                limit - old(self).bytes@.len() < chunk@.len()
            })),
    {
        let remaining = if self.bytes.len() >= limit {
            0
        } else {
            limit - self.bytes.len()
        };
        let keep = if remaining < chunk.len() {
            remaining
        } else {
            chunk.len()
        };
        let ghost before = self.bytes@;
        let ghost was_truncated = self.truncated;
        let mut k: usize = 0;
        while k < keep
            invariant
                k <= keep <= chunk@.len(),
                self.truncated == was_truncated,
                self.bytes@ == before + chunk@.take(k as int),
            decreases keep - k,
        {
            self.bytes.push(chunk[k]);
            assert(chunk@.take(k + 1) == chunk@.take(k as int).push(chunk@[k as int]));
            k += 1;
        }
        self.truncated = self.truncated || keep < chunk.len();
    }
}

/// What resolving and inspecting a configured executable path found.
#[derive(Debug, Clone, PartialEq, Eq)]
pub enum ExecutableProbe {
    /// The path could not be resolved; `not_found` when it does not exist.
    ResolveFailed { not_found: bool, cause: String },
    /// The resolved path could not be inspected.
    MetadataFailed { canonical: String, cause: String },
    /// The resolved path, whether it is a regular file, and its permission bits where
    /// the platform has them.
    Found { canonical: String, is_file: bool, mode: Option<u32> },
}

/// Why an executable path cannot be run, by error code, in the order of the checks.
pub open spec fn executable_error(path: Seq<char>, probe: ExecutableProbe) -> Option<Seq<char>> {
    if path.len() == 0 {
        Some("MAME_EXECUTABLE_PATH_EMPTY"@)
    } else {
        match probe {
            ExecutableProbe::ResolveFailed { not_found, .. } => if not_found {
                Some("MAME_EXECUTABLE_NOT_FOUND"@)
            } else {
                Some("MAME_EXECUTABLE_PATH_INVALID"@)
            },
            ExecutableProbe::MetadataFailed { .. } => Some("MAME_EXECUTABLE_METADATA_FAILED"@),
            ExecutableProbe::Found { is_file, mode, .. } => if !is_file {
                Some("MAME_EXECUTABLE_NOT_FILE"@)
            } else if mode matches Some(m) && m & 0o111 == 0 {
                Some("MAME_EXECUTABLE_NOT_EXECUTABLE"@)
            } else {
                None
            },
        }
    }
}

/// Check a configured executable from what inspecting it found: the path must be
/// non-empty and resolve to a regular file marked executable. Returns the resolved path.
pub fn validate_executable_path(path: &str, probe: ExecutableProbe) -> (r: AppResult<String>)
    ensures
        r is Ok <==> executable_error(path@, probe) is None,
        r matches Ok(c) ==> probe matches ExecutableProbe::Found { canonical, .. } && c == canonical,
        r matches Err(e) ==> executable_error(path@, probe) == Some(e.code@),
{
    if path.is_empty() {
        return Err(AppError::new("MAME_EXECUTABLE_PATH_EMPTY", "The MAME executable path is empty."));
    }
    match probe {
        ExecutableProbe::ResolveFailed { not_found, cause } => {
            let code = if not_found {
                "MAME_EXECUTABLE_NOT_FOUND"
            } else {
                "MAME_EXECUTABLE_PATH_INVALID"
            };
            Err(
                AppError::new(code, "The configured MAME executable path is not usable.").with_detail(
                    "path",
                    path.to_owned(),
                ).with_detail("cause", cause),
            )
        },
        ExecutableProbe::MetadataFailed { canonical, cause } => Err(
            AppError::new(
                "MAME_EXECUTABLE_METADATA_FAILED",
                "The configured MAME executable could not be inspected.",
            ).with_detail("path", canonical).with_detail("cause", cause),
        ),
        ExecutableProbe::Found { canonical, is_file, mode } => {
            if !is_file {
                return Err(
                    AppError::new(
                        "MAME_EXECUTABLE_NOT_FILE",
                        "The configured MAME executable path does not refer to a regular file.",
                    ).with_detail("path", canonical),
                );
            }
            match mode {
                Some(m) => {
                    if m & 0o111 == 0 {
                        return Err(
                            AppError::new(
                                "MAME_EXECUTABLE_NOT_EXECUTABLE",
                                "The configured MAME executable file is not marked executable.",
                            ).with_detail("path", canonical),
                        );
                    }
                },
                None => {},
            }
            Ok(canonical)
        },
    }
}

/// The identity of an executable from its resolved path and the output of its version
/// probe: the first non-blank output line must be a version line.
pub fn identity_from_probe(source: &MameExecutableSource, canonical_path: String, stdout: &str, stderr: &str) -> (r:
    AppResult<MameExecutableIdentity>)
    ensures
        r is Ok <==> first_nonblank(lines(stdout@) + lines(stderr@)) is Some,
        r matches Ok(i) ==> {
            &&& i.source == source.spec_kind()
            &&& i.trust == trust_of(source.spec_kind())
            &&& i.path == canonical_path
            &&& first_nonblank(lines(stdout@) + lines(stderr@)) == Some(i.raw_version_line@)
            &&& i.version@ == version_parts(i.raw_version_line@).0
            &&& (match i.build {
                Some(b) => version_parts(i.raw_version_line@).1 == Some(b@),
                None => version_parts(i.raw_version_line@).1 is None,
            })
        },
        r matches Err(e) ==> e.code@ == "MAME_VERSION_UNRECOGNIZED"@,
{
    let raw_version_line = match select_version_line(stdout, stderr) {
        Some(line) => line,
        None => {
            return Err(
                AppError::new(
                    "MAME_VERSION_UNRECOGNIZED",
                    "The executable ran, but its version output did not contain a MAME version line.",
                ).with_detail("path", canonical_path).with_detail("stdout", stdout.to_owned()).with_detail(
                    "stderr",
                    stderr.to_owned(),
                ),
            );
        },
    };
    let (version, build) = parse_version_line(raw_version_line.as_str());
    Ok(
        MameExecutableIdentity {
            source: source.kind(),
            trust: source.trust(),
            path: canonical_path,
            version,
            build,
            raw_version_line,
        },
    )
}

} // verus!
