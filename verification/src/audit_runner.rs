//! The arguments of a single-machine ROM audit: MAME's own configuration is not read,
//! and the configured content directories, ROMs first, then software, then CHDs, each
//! group in the user's order, form one `;`-separated media search path.
//!
//! Paths are handled as the platform's bytes, so paths that are not UTF-8 are passed on
//! unchanged.

use vstd::prelude::*;

use crate::argv::{identifier_reason, is_identifier_error, valid_identifier_segment, validate_short_identifier};
use crate::config::{ContentPathsV1, PlatformPath};
use crate::errors::{AppError, AppResult};

verus! {

broadcast use vstd::string::group_string_axioms;

/// The most bytes of each output stream of an audit run that are kept.
pub const AUDIT_STREAM_LIMIT: usize = 262144;

/// `..` is a whole component of the byte path.
pub open spec fn has_parent_bytes(p: Seq<u8>) -> bool {
    exists|i: int|
        0 <= i && i + 1 < p.len() && #[trigger] p[i] == 0x2E && p[i + 1] == 0x2E && (i == 0 || p[i - 1]
            == 0x2F) && (i + 2 == p.len() || p[i + 2] == 0x2F)
}

pub open spec fn has_byte(p: Seq<u8>, b: u8) -> bool {
    exists|i: int| 0 <= i < p.len() && #[trigger] p[i] == b
}

/// Why a content path cannot be passed to MAME, by error code: it must be non-empty,
/// absolute, free of `..` components, of MAME's `;` list separator and of `$`
/// environment expansion.
pub open spec fn path_bytes_error(p: Seq<u8>) -> Option<Seq<char>> {
    if p.len() == 0 {
        Some("MAME_PROJECT_PATH_EMPTY"@)
    } else if p[0] != 0x2F {
        Some("MAME_PROJECT_PATH_NOT_ABSOLUTE"@)
    } else if has_parent_bytes(p) {
        Some("MAME_PROJECT_PATH_TRAVERSAL"@)
    } else if has_byte(p, 0x3B) {
        Some("MAME_PROJECT_PATH_LIST_SEPARATOR"@)
    } else if has_byte(p, 0x24) {
        Some("MAME_PROJECT_PATH_EXPANSION"@)
    } else {
        None
    }
}

fn has_parent_bytes_exec(p: &[u8]) -> (b: bool)
    ensures
        b == has_parent_bytes(p@),
{
    let mut i: usize = 0;
    while i < p.len() && p.len() - i > 1
        invariant
            i <= p@.len(),
            forall|j: int|
                0 <= j < i && j + 1 < p@.len() ==> !(#[trigger] p@[j] == 0x2E && p@[j + 1] == 0x2E && (j == 0
                    || p@[j - 1] == 0x2F) && (j + 2 == p@.len() || p@[j + 2] == 0x2F)),
        decreases p.len() - i,
    {
        if p[i] == 0x2E && p[i + 1] == 0x2E && (i == 0 || p[i - 1] == 0x2F) && (i + 2 == p.len() || p[i + 2]
            == 0x2F) {
            return true;
        }
        i += 1;
    }
    false
}

fn has_byte_exec(p: &[u8], b: u8) -> (r: bool)
    ensures
        r == has_byte(p@, b),
{
    let mut i: usize = 0;
    while i < p.len()
        invariant
            i <= p@.len(),
            forall|j: int| 0 <= j < i ==> #[trigger] p@[j] != b,
        decreases p.len() - i,
    {
        if p[i] == b {
            return true;
        }
        i += 1;
    }
    false
}

/// Validate a content path before it joins MAME's search path.
pub fn validate_project_path_bytes(path: &[u8]) -> (r: AppResult<()>)
    ensures
        r is Ok <==> path_bytes_error(path@) is None,
        r matches Err(e) ==> Some(e.code@) == path_bytes_error(path@),
{
    if path.len() == 0 {
        return Err(AppError::new("MAME_PROJECT_PATH_EMPTY", "A project-controlled MAME path is empty."));
    }
    if path[0] != 0x2F {
        return Err(AppError::new("MAME_PROJECT_PATH_NOT_ABSOLUTE", "Project-controlled MAME paths must be absolute."));
    }
    if has_parent_bytes_exec(path) {
        return Err(
            AppError::new(
                "MAME_PROJECT_PATH_TRAVERSAL",
                "Project-controlled MAME paths must not contain parent-directory traversal.",
            ),
        );
    }
    if has_byte_exec(path, 0x3B) {
        return Err(
            AppError::new(
                "MAME_PROJECT_PATH_LIST_SEPARATOR",
                "A project-controlled MAME path must represent exactly one path.",
            ),
        );
    }
    if has_byte_exec(path, 0x24) {
        return Err(
            AppError::new(
                "MAME_PROJECT_PATH_EXPANSION",
                "Project-controlled MAME paths must not contain MAME environment-variable expressions.",
            ),
        );
    }
    Ok(())
}

/// The configured content paths in search order: ROMs, software, then CHDs.
pub open spec fn search_order(c: ContentPathsV1) -> Seq<PlatformPath> {
    c.rom_paths@ + c.software_paths@ + c.chd_paths@
}

/// The paths joined by `;`.
pub open spec fn joined_paths(ps: Seq<PlatformPath>) -> Seq<u8>
    decreases ps.len(),
{
    if ps.len() == 0 {
        Seq::empty()
    } else if ps.len() == 1 {
        ps[0].bytes()
    } else {
        joined_paths(ps.drop_last()) + seq![0x3Bu8] + ps.last().bytes()
    }
}

pub open spec fn all_paths_valid(ps: Seq<PlatformPath>) -> bool {
    forall|i: int| 0 <= i < ps.len() ==> path_bytes_error(#[trigger] ps[i].bytes()) is None
}

proof fn lemma_valid_prefix(a: Seq<PlatformPath>, b: Seq<PlatformPath>)
    requires
        all_paths_valid(a + b),
    ensures
        all_paths_valid(a),
{
    assert forall|i: int| 0 <= i < a.len() implies path_bytes_error(#[trigger] a[i].bytes()) is None by {
        assert((a + b)[i] == a[i]);
    }
}

/// Valid paths are never empty, so their joined form is empty only when there are none.
proof fn lemma_joined_empty(ps: Seq<PlatformPath>)
    requires
        all_paths_valid(ps),
    ensures
        joined_paths(ps).len() == 0 <==> ps.len() == 0,
    decreases ps.len(),
{
    if ps.len() > 1 {
        lemma_joined_empty(ps.drop_last());
    }
    if ps.len() == 1 {
        assert(path_bytes_error(ps[0].bytes()) is None);
    }
}

/// Append one group of paths to the search path built so far from `done`.
fn append_group(
    acc: &mut Vec<u8>,
    Ghost(done): Ghost<Seq<PlatformPath>>,
    group: &[PlatformPath],
) -> (r: AppResult<()>)
    requires
        old(acc)@ == joined_paths(done),
        all_paths_valid(done),
    ensures
        r is Ok <==> all_paths_valid(done + group@),
        r is Ok ==> final(acc)@ == joined_paths(done + group@),
        r matches Err(e) ==> e.code@ == "MAME_AUDIT_CONTENT_PATH_INVALID"@,
{
    let mut k: usize = 0;
    while k < group.len()
        invariant
            k <= group@.len(),
            acc@ == joined_paths(done + group@.take(k as int)),
            all_paths_valid(done + group@.take(k as int)),
        decreases group.len() - k,
    {
        let path = group[k].as_path();
        let ghost prefix = done + group@.take(k as int);
        let ghost next = done + group@.take(k + 1);
        proof {
            assert(next.drop_last() =~= prefix);
            assert(next.last() == group@[k as int]);
        }
        match validate_project_path_bytes(path) {
            Ok(()) => {},
            Err(cause) => {
                proof {
                    assert(!all_paths_valid(done + group@)) by {
                        let i = done.len() + k;
                        assert((done + group@)[i] == group@[k as int]);
                    }
                }
                return Err(
                    AppError::new(
                        "MAME_AUDIT_CONTENT_PATH_INVALID",
                        "A configured MAME content path cannot be used for auditing.",
                    ).with_detail("causeCode", cause.code).with_detail("causeMessage", cause.message),
                );
            },
        }
        proof {
            lemma_joined_empty(prefix);
        }
        if acc.len() > 0 {
            acc.push(0x3B);
        }
        let mut j: usize = 0;
        let ghost base = acc@;
        while j < path.len()
            invariant
                j <= path@.len(),
                acc@ == base + path@.take(j as int),
            decreases path.len() - j,
        {
            acc.push(path[j]);
            proof {
                assert(path@.take(j + 1) =~= path@.take(j as int).push(path@[j as int]));
            }
            j += 1;
        }
        proof {
            assert(path@.take(path@.len() as int) =~= path@);
            if prefix.len() == 0 {
                assert(next.len() == 1);
                assert(acc@ =~= joined_paths(next));
            } else {
                assert(acc@ =~= joined_paths(next));
            }
            assert forall|i: int| 0 <= i < next.len() implies path_bytes_error(#[trigger] next[i].bytes()) is None by {
                if i < prefix.len() {
                    assert(next[i] == prefix[i]);
                }
            }
        }
        k += 1;
    }
    proof {
        assert(group@.take(group@.len() as int) =~= group@);
    }
    Ok(())
}

/// The media search path: every configured content path in search order, joined by
/// `;`, or none when no path is configured. Every path must be usable.
pub fn compose_media_search_path(c: &ContentPathsV1) -> (r: AppResult<Option<Vec<u8>>>)
    ensures
        r is Ok <==> all_paths_valid(search_order(*c)),
        r matches Ok(o) ==> (match o {
            Some(p) => search_order(*c).len() > 0 && p@ == joined_paths(search_order(*c)),
            None => search_order(*c).len() == 0,
        }),
        r matches Err(e) ==> e.code@ == "MAME_AUDIT_CONTENT_PATH_INVALID"@,
{
    let mut acc: Vec<u8> = Vec::new();
    let ghost empty = Seq::<PlatformPath>::empty();
    proof {
        assert(empty + c.rom_paths@ =~= c.rom_paths@);
    }
    let ghost all = search_order(*c);
    let first = append_group(&mut acc, Ghost(empty), c.rom_paths.as_slice());
    if first.is_err() {
        proof {
            if all_paths_valid(all) {
                assert(all =~= c.rom_paths@ + (c.software_paths@ + c.chd_paths@));
                lemma_valid_prefix(c.rom_paths@, c.software_paths@ + c.chd_paths@);
            }
        }
        return Err(first.unwrap_err());
    }
    let second = append_group(&mut acc, Ghost(c.rom_paths@), c.software_paths.as_slice());
    if second.is_err() {
        proof {
            if all_paths_valid(all) {
                lemma_valid_prefix(c.rom_paths@ + c.software_paths@, c.chd_paths@);
            }
        }
        return Err(second.unwrap_err());
    }
    append_group(&mut acc, Ghost(c.rom_paths@ + c.software_paths@), c.chd_paths.as_slice())?;
    if c.rom_paths.len() == 0 && c.software_paths.len() == 0 && c.chd_paths.len() == 0 {
        return Ok(None);
    }
    Ok(Some(acc))
}

pub open spec fn text_bytes(s: Seq<char>) -> Seq<u8> {
    vstd::utf8::encode_utf8(s)
}

/// The arguments of a single-machine audit: `-noreadconfig`, the media search path
/// when one is configured, then `-verifyroms` and the machine.
pub fn build_machine_audit_argv(machine: &str, c: &ContentPathsV1) -> (r: AppResult<Vec<Vec<u8>>>)
    ensures
        r is Ok <==> valid_identifier_segment(machine@, 16) && all_paths_valid(search_order(*c)),
        !valid_identifier_segment(machine@, 16) ==> (r matches Err(e) && is_identifier_error(
            e,
            "machine"@,
            machine@,
            identifier_reason(machine@, 16),
        )),
        r matches Ok(args) ==> {
            &&& args@.len() == (if search_order(*c).len() > 0 { 5int } else { 3int })
            &&& args@[0]@ == text_bytes("-noreadconfig"@)
            &&& search_order(*c).len() > 0 ==> args@[1]@ == text_bytes("-rompath"@) && args@[2]@ == joined_paths(
                search_order(*c),
            )
            &&& args@[args@.len() - 2]@ == text_bytes("-verifyroms"@)
            &&& args@[args@.len() - 1]@ == text_bytes(machine@)
        },
{
    validate_short_identifier("machine", machine)?;
    let mut argv: Vec<Vec<u8>> = Vec::new();
    argv.push(crate::text::utf8_bytes("-noreadconfig"));
    match compose_media_search_path(c)? {
        Some(p) => {
            argv.push(crate::text::utf8_bytes("-rompath"));
            argv.push(p);
        },
        None => {},
    }
    argv.push(crate::text::utf8_bytes("-verifyroms"));
    argv.push(crate::text::utf8_bytes(machine));
    Ok(argv)
}

} // verus!
