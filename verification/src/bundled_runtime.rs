//! The MAME runtime shipped inside the application package: where its parts are under
//! the resource directory, and the fail-closed check that every part is present, of the
//! right type and inside the package before the bundled executable may be used.
//!
//! Paths are text with `/` separators. The check is made on what inspecting the
//! filesystem found (a `RuntimeProbe`); the canonical paths come from that inspection.

use vstd::prelude::*;

use crate::errors::{AppError, AppResult};
use crate::executable::{MameExecutableSource, MameExecutableSourceKind};
use crate::text::{chars_of, concat_strs};

verus! {

broadcast use vstd::string::group_string_axioms;

pub const BUNDLED_RUNTIME_DIR: &'static str = "mame-runtime";

pub const BUNDLED_HASH_DIR: &'static str = "hash";

pub const BUNDLED_BGFX_DIR: &'static str = "bgfx";

pub const BUNDLED_LICENSE_DIR: &'static str = "licenses";

pub const BUNDLED_MAME_EXECUTABLE: &'static str = "mame";

/// Where each part of the bundled runtime lives.
#[derive(Debug, Clone, PartialEq, Eq)]
pub struct BundledRuntimeLayout {
    pub resource_dir: String,
    pub root: String,
    pub executable: String,
    pub hash_dir: String,
    pub bgfx_dir: String,
    pub copying: String,
    pub legal_dir: String,
}

/// `base` with the relative `component` appended, as `Path::join` does on a relative
/// component: no separator is added after an empty base or one that ends in `/`.
pub open spec fn join(base: Seq<char>, component: Seq<char>) -> Seq<char> {
    if base.len() == 0 || base.last() == '/' {
        base + component
    } else {
        base + seq!['/'] + component
    }
}

pub fn join_path(base: &str, component: &str) -> (r: String)
    ensures
        r@ == join(base@, component@),
{
    let chars = chars_of(base);
    if chars.len() == 0 || chars[chars.len() - 1] == '/' {
        concat_strs(base, component)
    } else {
        let with_separator = concat_strs(base, "/");
        proof {
            reveal_strlit("/");
        }
        concat_strs(with_separator.as_str(), component)
    }
}

/// The layout under a resource directory: `mame-runtime/` holding `bin/mame`, `hash/`,
/// `bgfx/`, `licenses/COPYING` and `licenses/legal/`.
pub open spec fn layout_of(resource_dir: Seq<char>, l: BundledRuntimeLayout) -> bool {
    let root = join(resource_dir, BUNDLED_RUNTIME_DIR@);
    &&& l.resource_dir@ == resource_dir
    &&& l.root@ == root
    &&& l.executable@ == join(join(root, "bin"@), BUNDLED_MAME_EXECUTABLE@)
    &&& l.hash_dir@ == join(root, BUNDLED_HASH_DIR@)
    &&& l.bgfx_dir@ == join(root, BUNDLED_BGFX_DIR@)
    &&& l.copying@ == join(join(root, BUNDLED_LICENSE_DIR@), "COPYING"@)
    &&& l.legal_dir@ == join(join(root, BUNDLED_LICENSE_DIR@), "legal"@)
}

impl BundledRuntimeLayout {
    /// The layout of the runtime under the given resource directory.
    pub fn from_resource_dir(resource_dir: String) -> (r: Self)
        ensures
            layout_of(resource_dir@, r),
    {
        let root = join_path(resource_dir.as_str(), BUNDLED_RUNTIME_DIR);
        let bin = join_path(root.as_str(), "bin");
        let executable = join_path(bin.as_str(), BUNDLED_MAME_EXECUTABLE);
        let hash_dir = join_path(root.as_str(), BUNDLED_HASH_DIR);
        let bgfx_dir = join_path(root.as_str(), BUNDLED_BGFX_DIR);
        let licenses = join_path(root.as_str(), BUNDLED_LICENSE_DIR);
        let copying = join_path(licenses.as_str(), "COPYING");
        let legal_dir = join_path(licenses.as_str(), "legal");
        BundledRuntimeLayout { resource_dir, root, executable, hash_dir, bgfx_dir, copying, legal_dir }
    }
}

/// What inspecting one required path found: it could not be resolved, its resolved
/// path could not be inspected, or it was found with its type.
#[derive(Debug, Clone, PartialEq, Eq)]
pub enum EntryProbe {
    Unavailable { cause: String },
    Uninspectable { canonical: String, cause: String },
    Found { canonical: String, is_dir: bool, is_file: bool },
}

/// What searching a directory's contents found: the search failed, or whether the
/// wanted entries are there.
#[derive(Debug, Clone, PartialEq, Eq)]
pub enum ContentProbe {
    Failed { cause: String },
    Searched { found: bool },
}

/// What inspecting the filesystem found for every part of a layout. `executable_mode`
/// is the executable's permission bits where the platform has them (`None` where it
/// does not), or why they could not be read.
#[derive(Debug, Clone, PartialEq, Eq)]
pub struct RuntimeProbe {
    pub resource_dir: EntryProbe,
    pub root: EntryProbe,
    pub executable: EntryProbe,
    pub executable_mode: Option<Result<u32, String>>,
    pub hash_dir: EntryProbe,
    pub hash_has_xml: ContentProbe,
    pub bgfx_dir: EntryProbe,
    pub bgfx_has_file: ContentProbe,
    pub copying: EntryProbe,
    pub legal_dir: EntryProbe,
    pub legal_has_file: ContentProbe,
}

/// The resolved path of a probe that found its entry.
pub open spec fn canonical_of(e: EntryProbe) -> Seq<char> {
    match e {
        EntryProbe::Found { canonical, .. } => canonical@,
        _ => Seq::empty(),
    }
}

pub open spec fn is_directory(e: EntryProbe) -> bool {
    e matches EntryProbe::Found { is_dir, .. } && is_dir
}

pub open spec fn is_regular_file(e: EntryProbe) -> bool {
    e matches EntryProbe::Found { is_file, .. } && is_file
}

/// `candidate` lies at or under `root`, component by component, as `Path::starts_with`
/// on resolved paths (which have no empty or `.` components).
pub open spec fn path_within(root: Seq<char>, candidate: Seq<char>) -> bool {
    ||| candidate == root
    ||| (root.len() > 0 && root.last() == '/' && candidate.len() >= root.len() && candidate.take(root.len() as int)
        == root)
    ||| (candidate.len() > root.len() && candidate.take(root.len() as int) == root && candidate[root.len() as int]
        == '/')
}

pub open spec fn content_found(c: ContentProbe) -> bool {
    c matches ContentProbe::Searched { found } && found
}

/// The first check the runtime fails, by its error code, in the order they are made;
/// `None` when it passes all of them.
pub open spec fn runtime_error(p: RuntimeProbe) -> Option<Seq<char>> {
    let resource = canonical_of(p.resource_dir);
    let root = canonical_of(p.root);
    if !is_directory(p.resource_dir) {
        Some("MAME_BUNDLED_RESOURCE_DIR_INVALID"@)
    } else if !is_directory(p.root) {
        Some("MAME_BUNDLED_RUNTIME_MISSING"@)
    } else if !path_within(resource, root) {
        Some("MAME_BUNDLED_RUNTIME_PATH_ESCAPE"@)
    } else if !is_regular_file(p.executable) {
        Some("MAME_BUNDLED_EXECUTABLE_MISSING"@)
    } else if !path_within(root, canonical_of(p.executable)) {
        Some("MAME_BUNDLED_RUNTIME_PATH_ESCAPE"@)
    } else if p.executable_mode matches Some(Err(_)) {
        Some("MAME_BUNDLED_EXECUTABLE_INVALID"@)
    } else if p.executable_mode matches Some(Ok(mode)) && mode & 0o111 == 0 {
        Some("MAME_BUNDLED_EXECUTABLE_NOT_EXECUTABLE"@)
    } else if !is_directory(p.hash_dir) {
        Some("MAME_BUNDLED_HASH_MISSING"@)
    } else if !path_within(root, canonical_of(p.hash_dir)) {
        Some("MAME_BUNDLED_RUNTIME_PATH_ESCAPE"@)
    } else if p.hash_has_xml is Failed {
        Some("MAME_BUNDLED_HASH_INVALID"@)
    } else if !content_found(p.hash_has_xml) {
        Some("MAME_BUNDLED_HASH_EMPTY"@)
    } else if !is_directory(p.bgfx_dir) {
        Some("MAME_BUNDLED_BGFX_MISSING"@)
    } else if !path_within(root, canonical_of(p.bgfx_dir)) {
        Some("MAME_BUNDLED_RUNTIME_PATH_ESCAPE"@)
    } else if p.bgfx_has_file is Failed {
        Some("MAME_BUNDLED_BGFX_INVALID"@)
    } else if !content_found(p.bgfx_has_file) {
        Some("MAME_BUNDLED_BGFX_EMPTY"@)
    } else if !is_regular_file(p.copying) {
        Some("MAME_BUNDLED_COPYING_MISSING"@)
    } else if !path_within(root, canonical_of(p.copying)) {
        Some("MAME_BUNDLED_RUNTIME_PATH_ESCAPE"@)
    } else if !is_directory(p.legal_dir) {
        Some("MAME_BUNDLED_LEGAL_MISSING"@)
    } else if !path_within(root, canonical_of(p.legal_dir)) {
        Some("MAME_BUNDLED_RUNTIME_PATH_ESCAPE"@)
    } else if p.legal_has_file is Failed {
        Some("MAME_BUNDLED_LEGAL_INVALID"@)
    } else if !content_found(p.legal_has_file) {
        Some("MAME_BUNDLED_LEGAL_EMPTY"@)
    } else {
        None
    }
}

/// The part named by the first check the runtime fails, and the path given with it, in
/// the order of `runtime_error`.
pub open spec fn runtime_error_part(l: BundledRuntimeLayout, p: RuntimeProbe) -> (Seq<char>, Seq<char>) {
    let resource = canonical_of(p.resource_dir);
    let root = canonical_of(p.root);
    let executable = canonical_of(p.executable);
    if !is_directory(p.resource_dir) {
        ("resourceDir"@, entry_path(l.resource_dir@, p.resource_dir))
    } else if !is_directory(p.root) {
        ("runtimeRoot"@, entry_path(l.root@, p.root))
    } else if !path_within(resource, root) {
        ("runtimeRoot"@, root)
    } else if !is_regular_file(p.executable) {
        ("executable"@, entry_path(l.executable@, p.executable))
    } else if !path_within(root, executable) || p.executable_mode matches Some(Err(_)) || (
    p.executable_mode matches Some(Ok(mode)) && mode & 0o111 == 0) {
        ("executable"@, executable)
    } else if !is_directory(p.hash_dir) {
        ("hash"@, entry_path(l.hash_dir@, p.hash_dir))
    } else if !path_within(root, canonical_of(p.hash_dir)) || !content_found(p.hash_has_xml) {
        ("hash"@, canonical_of(p.hash_dir))
    } else if !is_directory(p.bgfx_dir) {
        ("bgfx"@, entry_path(l.bgfx_dir@, p.bgfx_dir))
    } else if !path_within(root, canonical_of(p.bgfx_dir)) || !content_found(p.bgfx_has_file) {
        ("bgfx"@, canonical_of(p.bgfx_dir))
    } else if !is_regular_file(p.copying) {
        ("COPYING"@, entry_path(l.copying@, p.copying))
    } else if !path_within(root, canonical_of(p.copying)) {
        ("COPYING"@, canonical_of(p.copying))
    } else if !is_directory(p.legal_dir) {
        ("legal"@, entry_path(l.legal_dir@, p.legal_dir))
    } else {
        ("legal"@, canonical_of(p.legal_dir))
    }
}

/// The path an error about a part gives: the layout's path where it could not be resolved,
/// else its resolved path.
pub open spec fn entry_path(layout_path: Seq<char>, e: EntryProbe) -> Seq<char> {
    match e {
        EntryProbe::Unavailable { .. } => layout_path,
        EntryProbe::Uninspectable { canonical, .. } => canonical@,
        EntryProbe::Found { canonical, .. } => canonical@,
    }
}

/// An error names a runtime part and a path as its first two details.
pub open spec fn names_part(e: AppError, component: Seq<char>, path: Seq<char>) -> bool {
    &&& e.details@.len() >= 2
    &&& e.details@[0].key@ == "component"@
    &&& e.details@[0].value@ == component
    &&& e.details@[1].key@ == "path"@
    &&& e.details@[1].value@ == path
}

/// The error for a runtime part, naming the part, its path and, when there is one, the
/// cause.
fn invalid_component(code: &str, message: &str, component: &str, path: &str, cause: Option<String>) -> (e: AppError)
    ensures
        e.code@ == code@,
        names_part(e, component@, path@),
{
    let e = AppError::new(code, message).with_detail("component", component.to_string()).with_detail(
        "path",
        path.to_string(),
    );
    match cause {
        Some(c) => e.with_detail("cause", c),
        None => e,
    }
}

/// A required directory: resolved, inspectable and a directory. Returns its resolved path.
fn require_directory(probe: &EntryProbe, layout_path: &str, component: &str, code: &str) -> (r: AppResult<String>)
    ensures
        r is Ok <==> is_directory(*probe),
        r matches Ok(c) ==> c@ == canonical_of(*probe),
        r matches Err(e) ==> e.code@ == code@ && names_part(e, component@, entry_path(layout_path@, *probe)),
{
    match probe {
        EntryProbe::Unavailable { cause } => Err(
            invalid_component(
                code,
                "A required bundled MAME runtime directory is unavailable.",
                component,
                layout_path,
                Some(cause.clone()),
            ),
        ),
        EntryProbe::Uninspectable { canonical, cause } => Err(
            invalid_component(
                code,
                "A required bundled MAME runtime directory could not be inspected.",
                component,
                canonical.as_str(),
                Some(cause.clone()),
            ),
        ),
        EntryProbe::Found { canonical, is_dir, .. } => {
            if !*is_dir {
                return Err(
                    invalid_component(
                        code,
                        "A required bundled MAME runtime path is not a directory.",
                        component,
                        canonical.as_str(),
                        None,
                    ),
                );
            }
            Ok(canonical.clone())
        },
    }
}

/// A required file: resolved, inspectable and a regular file. Returns its resolved path.
fn require_regular_file(probe: &EntryProbe, layout_path: &str, component: &str, code: &str) -> (r: AppResult<String>)
    ensures
        r is Ok <==> is_regular_file(*probe),
        r matches Ok(c) ==> c@ == canonical_of(*probe),
        r matches Err(e) ==> e.code@ == code@ && names_part(e, component@, entry_path(layout_path@, *probe)),
{
    match probe {
        EntryProbe::Unavailable { cause } => Err(
            invalid_component(
                code,
                "A required bundled MAME runtime file is unavailable.",
                component,
                layout_path,
                Some(cause.clone()),
            ),
        ),
        EntryProbe::Uninspectable { canonical, cause } => Err(
            invalid_component(
                code,
                "A required bundled MAME runtime file could not be inspected.",
                component,
                canonical.as_str(),
                Some(cause.clone()),
            ),
        ),
        EntryProbe::Found { canonical, is_file, .. } => {
            if !*is_file {
                return Err(
                    invalid_component(
                        code,
                        "A required bundled MAME runtime path is not a regular file.",
                        component,
                        canonical.as_str(),
                        None,
                    ),
                );
            }
            Ok(canonical.clone())
        },
    }
}

pub fn is_path_within(root: &str, candidate: &str) -> (b: bool)
    ensures
        b == path_within(root@, candidate@),
{
    let r = chars_of(root);
    let c = chars_of(candidate);
    if crate::text::chars_equal(c.as_slice(), r.as_slice()) {
        return true;
    }
    if c.len() < r.len() {
        proof {
            assert(!(candidate@.len() >= root@.len()));
        }
        return false;
    }
    let head = crate::text::slice_range(c.as_slice(), 0, r.len());
    assert(head@ == candidate@.take(root@.len() as int));
    let prefix = crate::text::chars_equal(head.as_slice(), r.as_slice());
    if !prefix {
        return false;
    }
    if r.len() > 0 && r[r.len() - 1] == '/' {
        return true;
    }
    c.len() > r.len() && c[r.len()] == '/'
}

/// A resolved part must stay inside its resolved parent.
fn ensure_contained(root: &str, candidate: &str, component: &str) -> (r: AppResult<()>)
    ensures
        r is Ok <==> path_within(root@, candidate@),
        r matches Err(e) ==> e.code@ == "MAME_BUNDLED_RUNTIME_PATH_ESCAPE"@ && names_part(e, component@, candidate@),
{
    if is_path_within(root, candidate) {
        return Ok(());
    }
    Err(
        invalid_component(
            "MAME_BUNDLED_RUNTIME_PATH_ESCAPE",
            "A bundled MAME runtime path resolves outside its package-owned resource root.",
            component,
            candidate,
            None,
        ),
    )
}

/// A directory's contents must have been searched and found.
fn require_content(probe: &ContentProbe, component: &str, path: &str, invalid_code: &str, invalid_message: &str, empty_code: &str, empty_message: &str) -> (r: AppResult<()>)
    ensures
        r is Ok <==> content_found(*probe),
        r matches Err(e) ==> (if probe is Failed {
            e.code@ == invalid_code@
        } else {
            e.code@ == empty_code@
        }) && names_part(e, component@, path@),
{
    match probe {
        ContentProbe::Failed { cause } => Err(
            invalid_component(invalid_code, invalid_message, component, path, Some(cause.clone())),
        ),
        ContentProbe::Searched { found } => {
            if !*found {
                return Err(invalid_component(empty_code, empty_message, component, path, None));
            }
            Ok(())
        },
    }
}

/// The executable must be marked executable where the platform has permission bits.
fn ensure_executable(mode: &Option<Result<u32, String>>, path: &str) -> (r: AppResult<()>)
    ensures
        r is Ok <==> !(*mode matches Some(Err(_))) && !(*mode matches Some(Ok(m)) && m & 0o111 == 0),
        r matches Err(e) ==> (if *mode matches Some(Err(_)) {
            e.code@ == "MAME_BUNDLED_EXECUTABLE_INVALID"@
        } else {
            e.code@ == "MAME_BUNDLED_EXECUTABLE_NOT_EXECUTABLE"@
        }) && names_part(e, "executable"@, path@),
{
    match mode {
        None => Ok(()),
        Some(Err(cause)) => Err(
            invalid_component(
                "MAME_BUNDLED_EXECUTABLE_INVALID",
                "The bundled MAME executable could not be inspected.",
                "executable",
                path,
                Some(cause.clone()),
            ),
        ),
        Some(Ok(bits)) => {
            if *bits & 0o111 == 0 {
                return Err(
                    invalid_component(
                        "MAME_BUNDLED_EXECUTABLE_NOT_EXECUTABLE",
                        "The bundled MAME executable is not marked executable.",
                        "executable",
                        path,
                        None,
                    ),
                );
            }
            Ok(())
        },
    }
}

impl BundledRuntimeLayout {
    /// Check the runtime fails closed: every part present, of the right type and inside
    /// the package, the executable marked executable, and the hash, BGFX and legal
    /// directories not empty. The first failed check is reported.
    pub fn validate(&self, probe: &RuntimeProbe) -> (r: AppResult<()>)
        ensures
            r is Ok <==> runtime_error(*probe) is None,
            r matches Err(e) ==> runtime_error(*probe) == Some(e.code@),
            r matches Err(e) ==> names_part(e, runtime_error_part(*self, *probe).0, runtime_error_part(*self, *probe).1),
    {
        let resource_dir = require_directory(
            &probe.resource_dir,
            self.resource_dir.as_str(),
            "resourceDir",
            "MAME_BUNDLED_RESOURCE_DIR_INVALID",
        )?;
        let root = require_directory(&probe.root, self.root.as_str(), "runtimeRoot", "MAME_BUNDLED_RUNTIME_MISSING")?;
        ensure_contained(resource_dir.as_str(), root.as_str(), "runtimeRoot")?;
        let executable = require_regular_file(
            &probe.executable,
            self.executable.as_str(),
            "executable",
            "MAME_BUNDLED_EXECUTABLE_MISSING",
        )?;
        ensure_contained(root.as_str(), executable.as_str(), "executable")?;
        ensure_executable(&probe.executable_mode, executable.as_str())?;
        let hash_dir = require_directory(&probe.hash_dir, self.hash_dir.as_str(), "hash", "MAME_BUNDLED_HASH_MISSING")?;
        ensure_contained(root.as_str(), hash_dir.as_str(), "hash")?;
        require_content(
            &probe.hash_has_xml,
            "hash",
            hash_dir.as_str(),
            "MAME_BUNDLED_HASH_INVALID",
            "The bundled MAME hash directory could not be inspected.",
            "MAME_BUNDLED_HASH_EMPTY",
            "The bundled MAME hash directory does not contain software-list XML files.",
        )?;
        let bgfx_dir = require_directory(&probe.bgfx_dir, self.bgfx_dir.as_str(), "bgfx", "MAME_BUNDLED_BGFX_MISSING")?;
        ensure_contained(root.as_str(), bgfx_dir.as_str(), "bgfx")?;
        require_content(
            &probe.bgfx_has_file,
            "bgfx",
            bgfx_dir.as_str(),
            "MAME_BUNDLED_BGFX_INVALID",
            "The bundled MAME BGFX resources could not be inspected.",
            "MAME_BUNDLED_BGFX_EMPTY",
            "The bundled MAME BGFX directory does not contain runtime resources.",
        )?;
        let copying = require_regular_file(
            &probe.copying,
            self.copying.as_str(),
            "COPYING",
            "MAME_BUNDLED_COPYING_MISSING",
        )?;
        ensure_contained(root.as_str(), copying.as_str(), "COPYING")?;
        let legal_dir = require_directory(&probe.legal_dir, self.legal_dir.as_str(), "legal", "MAME_BUNDLED_LEGAL_MISSING")?;
        ensure_contained(root.as_str(), legal_dir.as_str(), "legal")?;
        require_content(
            &probe.legal_has_file,
            "legal",
            legal_dir.as_str(),
            "MAME_BUNDLED_LEGAL_INVALID",
            "The bundled MAME legal directory could not be inspected.",
            "MAME_BUNDLED_LEGAL_EMPTY",
            "The bundled MAME legal directory is empty.",
        )?;
        Ok(())
    }

    /// The bundled executable, once the runtime passes the check.
    pub fn executable_source(&self, probe: &RuntimeProbe) -> (r: AppResult<MameExecutableSource>)
        ensures
            r is Ok <==> runtime_error(*probe) is None,
            r matches Ok(s) ==> s.spec_kind() == MameExecutableSourceKind::Bundled && s.spec_path()
                == self.executable@,
            r matches Err(e) ==> runtime_error(*probe) == Some(e.code@),
    {
        self.validate(probe)?;
        Ok(MameExecutableSource::bundled(self.executable.clone()))
    }
}

} // verus!
