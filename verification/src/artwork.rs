//! Local artwork: the artwork categories, asset identifiers, root validation and the
//! bounded data-URL payload of a preview.

use vstd::prelude::*;

use crate::argv::{valid_identifier_segment, validate_short_identifier};
use crate::config::{IoFailureKind, PathValidation, PlatformPath, validation_from_io_error};
use crate::errors::{AppError, AppResult};
use crate::text::{
    chars_equal, chars_of, concat_strs, decimal, decimal_string, law_parse_decimal_round_trip,
    lemma_decimal_digits, lemma_split_char_join, lemma_split_char_single, parse_unsigned,
    parse_usize, split_char, split_chars, string_from,
};

verus! {

broadcast use vstd::string::group_string_axioms;

pub const ARTWORK_SCHEMA_VERSION: u32 = 1;

pub const MAX_ARTWORK_ROOTS: usize = 32;

pub const MAX_ARTWORK_FILE_BYTES: u64 = 67108864;

pub const MAX_ARTWORK_PREVIEW_BYTES: u64 = 8388608;

/// An artwork category.
#[derive(Debug, Clone, Copy, PartialEq, Eq, Structural)]
pub enum ArtworkKind {
    Screenshot,
    Cabinet,
    Marquee,
    Flyer,
    Icon,
    SystemImage,
}

/// The directory under an artwork root that holds a category.
pub open spec fn directory_of(kind: ArtworkKind) -> Seq<char> {
    match kind {
        ArtworkKind::Screenshot => "snap"@,
        ArtworkKind::Cabinet => "cabinets"@,
        ArtworkKind::Marquee => "marquees"@,
        ArtworkKind::Flyer => "flyers"@,
        ArtworkKind::Icon => "icons"@,
        ArtworkKind::SystemImage => "systems"@,
    }
}

/// The token naming a category inside an asset identifier.
pub open spec fn token_of(kind: ArtworkKind) -> Seq<char> {
    match kind {
        ArtworkKind::Screenshot => "screenshot"@,
        ArtworkKind::Cabinet => "cabinet"@,
        ArtworkKind::Marquee => "marquee"@,
        ArtworkKind::Flyer => "flyer"@,
        ArtworkKind::Icon => "icon"@,
        ArtworkKind::SystemImage => "systemImage"@,
    }
}

/// The category a token names.
pub open spec fn kind_of_token(t: Seq<char>) -> Option<ArtworkKind> {
    if t == "screenshot"@ {
        Some(ArtworkKind::Screenshot)
    } else if t == "cabinet"@ {
        Some(ArtworkKind::Cabinet)
    } else if t == "marquee"@ {
        Some(ArtworkKind::Marquee)
    } else if t == "flyer"@ {
        Some(ArtworkKind::Flyer)
    } else if t == "icon"@ {
        Some(ArtworkKind::Icon)
    } else if t == "systemImage"@ {
        Some(ArtworkKind::SystemImage)
    } else {
        None
    }
}

/// The media type of a supported image extension.
pub open spec fn mime_of_extension(e: Seq<char>) -> Option<Seq<char>> {
    if e == "png"@ {
        Some("image/png"@)
    } else if e == "jpg"@ || e == "jpeg"@ {
        Some("image/jpeg"@)
    } else if e == "webp"@ {
        Some("image/webp"@)
    } else {
        None
    }
}

impl ArtworkKind {
    /// Every category, in the order they are presented.
    pub open spec fn all_spec() -> Seq<ArtworkKind> {
        seq![
            ArtworkKind::Screenshot,
            ArtworkKind::Cabinet,
            ArtworkKind::Marquee,
            ArtworkKind::Flyer,
            ArtworkKind::Icon,
            ArtworkKind::SystemImage,
        ]
    }

    /// Every category, in the order they are presented.
    pub fn all() -> (r: [ArtworkKind; 6])
        ensures
            r@ == ArtworkKind::all_spec(),
    {
        [
            ArtworkKind::Screenshot,
            ArtworkKind::Cabinet,
            ArtworkKind::Marquee,
            ArtworkKind::Flyer,
            ArtworkKind::Icon,
            ArtworkKind::SystemImage,
        ]
    }

    /// The directory that holds this category.
    pub fn directory_name(self) -> (r: &'static str)
        ensures
            r@ == directory_of(self),
    {
        match self {
            ArtworkKind::Screenshot => "snap",
            ArtworkKind::Cabinet => "cabinets",
            ArtworkKind::Marquee => "marquees",
            ArtworkKind::Flyer => "flyers",
            ArtworkKind::Icon => "icons",
            ArtworkKind::SystemImage => "systems",
        }
    }

    /// The token of this category in asset identifiers.
    pub fn asset_token(self) -> (r: &'static str)
        ensures
            r@ == token_of(self),
    {
        match self {
            ArtworkKind::Screenshot => "screenshot",
            ArtworkKind::Cabinet => "cabinet",
            ArtworkKind::Marquee => "marquee",
            ArtworkKind::Flyer => "flyer",
            ArtworkKind::Icon => "icon",
            ArtworkKind::SystemImage => "systemImage",
        }
    }

    /// The category a token names, if any.
    pub fn from_asset_token(token: &[char]) -> (r: Option<ArtworkKind>)
        ensures
            r == kind_of_token(token@),
    {
        if chars_equal(token, chars_of("screenshot").as_slice()) {
            Some(ArtworkKind::Screenshot)
        } else if chars_equal(token, chars_of("cabinet").as_slice()) {
            Some(ArtworkKind::Cabinet)
        } else if chars_equal(token, chars_of("marquee").as_slice()) {
            Some(ArtworkKind::Marquee)
        } else if chars_equal(token, chars_of("flyer").as_slice()) {
            Some(ArtworkKind::Flyer)
        } else if chars_equal(token, chars_of("icon").as_slice()) {
            Some(ArtworkKind::Icon)
        } else if chars_equal(token, chars_of("systemImage").as_slice()) {
            Some(ArtworkKind::SystemImage)
        } else {
            None
        }
    }
}

/// The extension and media type for a supported extension.
pub fn image_extension(extension: &[char]) -> (r: Option<(&'static str, &'static str)>)
    ensures
        match r {
            Some((e, m)) => e@ == extension@ && mime_of_extension(extension@) == Some(m@),
            None => mime_of_extension(extension@) is None,
        },
{
    if chars_equal(extension, chars_of("png").as_slice()) {
        Some(("png", "image/png"))
    } else if chars_equal(extension, chars_of("jpg").as_slice()) {
        Some(("jpg", "image/jpeg"))
    } else if chars_equal(extension, chars_of("jpeg").as_slice()) {
        Some(("jpeg", "image/jpeg"))
    } else if chars_equal(extension, chars_of("webp").as_slice()) {
        Some(("webp", "image/webp"))
    } else {
        None
    }
}

/// The base64 alphabet character for a six-bit value.
pub open spec fn base64_char(n: int) -> char {
    if n < 26 {
        (('A' as int) + n) as char
    } else if n < 52 {
        (('a' as int) + n - 26) as char
    } else if n < 62 {
        (('0' as int) + n - 52) as char
    } else if n == 62 {
        '+'
    } else {
        '/'
    }
}

/// The four characters for a group of one to three bytes, padded with `=`.
pub open spec fn base64_group(g: Seq<u8>) -> Seq<char> {
    let first = g[0] as int;
    let second = if g.len() > 1 {
        g[1] as int
    } else {
        0
    };
    let third = if g.len() > 2 {
        g[2] as int
    } else {
        0
    };
    seq![
        base64_char(first / 4),
        base64_char((first % 4) * 16 + second / 16),
        if g.len() > 1 {
            base64_char((second % 16) * 4 + third / 64)
        } else {
            '='
        },
        if g.len() > 2 {
            base64_char(third % 64)
        } else {
            '='
        },
    ]
}

/// Standard padded base64 of `b`, three bytes to a group of four characters.
pub open spec fn base64(b: Seq<u8>) -> Seq<char>
    decreases b.len(),
{
    if b.len() == 0 {
        Seq::empty()
    } else {
        let k = ((b.len() - 1) / 3) * 3;
        base64(b.take(k)) + base64_group(b.skip(k))
    }
}

fn base64_digit(n: u8) -> (c: char)
    requires
        n < 64,
    ensures
        c == base64_char(n as int),
{
    if n < 26 {
        ((0x41u8 + n) as char)
    } else if n < 52 {
        ((0x61u8 + n - 26) as char)
    } else if n < 62 {
        ((0x30u8 + n - 52) as char)
    } else if n == 62 {
        '+'
    } else {
        '/'
    }
}

fn push_base64_group(out: &mut Vec<char>, bytes: &[u8], i: usize, j: usize)
    requires
        i < j <= bytes@.len(),
        j <= i + 3,
    ensures
        final(out)@ == old(out)@ + base64_group(bytes@.subrange(i as int, j as int)),
{
    let n = j - i;
    let first = bytes[i];
    let second: u8 = if n > 1 {
        bytes[i + 1]
    } else {
        0
    };
    let third: u8 = if n > 2 {
        bytes[i + 2]
    } else {
        0
    };
    let ghost before = out@;
    out.push(base64_digit(first / 4));
    out.push(base64_digit((first % 4) * 16 + second / 16));
    if n > 1 {
        out.push(base64_digit((second % 16) * 4 + third / 64));
    } else {
        out.push('=');
    }
    if n > 2 {
        out.push(base64_digit(third % 64));
    } else {
        out.push('=');
    }
    assert(out@ =~= before + base64_group(bytes@.subrange(i as int, j as int)));
}

/// Standard padded base64 encoding.
pub fn encode_base64(bytes: &[u8]) -> (r: String)
    ensures
        r@ == base64(bytes@),
{
    let mut out: Vec<char> = Vec::new();
    let mut i: usize = 0;
    let ghost mut m: int = 0;
    while i < bytes.len()
        invariant
            i <= bytes@.len(),
            i == 3 * m || i == bytes@.len(),
            out@ == base64(bytes@.take(i as int)),
        decreases bytes.len() - i,
    {
        let j: usize = if bytes.len() - i > 3 {
            i + 3
        } else {
            bytes.len()
        };
        let ghost before = out@;
        push_base64_group(&mut out, bytes, i, j);
        proof {
            let t = bytes@.take(j as int);
            assert((j - 1) / 3 == m) by (nonlinear_arith)
                requires
                    i == 3 * m,
                    i < j <= i + 3,
            ;
            assert(((t.len() - 1) / 3) * 3 == i);
            assert(t.take(i as int) == bytes@.take(i as int));
            assert(t.skip(i as int) =~= bytes@.subrange(i as int, j as int));
            m = m + 1;
        }
        i = j;
    }
    assert(bytes@.take(bytes@.len() as int) == bytes@);
    string_from(out.as_slice())
}

/// The base64 text of `n` bytes has four characters for every started group of three.
pub proof fn law_base64_length(b: Seq<u8>)
    ensures
        base64(b).len() == 4 * ((b.len() + 2) / 3),
    decreases b.len(),
{
    if b.len() > 0 {
        let k = ((b.len() - 1) / 3) * 3;
        assert(0 <= k < b.len()) by (nonlinear_arith)
            requires
                k == ((b.len() - 1) / 3) * 3,
                b.len() > 0,
        ;
        law_base64_length(b.take(k));
        assert((k + 2) / 3 + 1 == (b.len() + 2) / 3) by (nonlinear_arith)
            requires
                k == ((b.len() - 1) / 3) * 3,
                b.len() > 0,
        ;
    }
}

/// An asset identifier taken apart: `local:<root>:<machine>:<category>:<extension>`.
#[derive(Debug, Clone, PartialEq, Eq)]
pub struct ParsedAssetId {
    pub root_index: usize,
    pub machine: String,
    pub kind: ArtworkKind,
    pub directory: &'static str,
    pub mime_type: &'static str,
    pub extension: &'static str,
}

/// What an asset identifier names, when it is well formed: the root's position, the
/// machine, the category and the extension.
pub open spec fn asset_id_parts(id: Seq<char>) -> Option<(nat, Seq<char>, ArtworkKind, Seq<char>)> {
    let p = split_char(id, ':');
    if p.len() == 5 && p[0] == "local"@ && parse_unsigned(p[1]) is Some && parse_unsigned(p[1])->0
        <= usize::MAX && valid_identifier_segment(p[2], 16) && kind_of_token(p[3]) is Some
        && mime_of_extension(p[4]) is Some {
        Some((parse_unsigned(p[1])->0, p[2], kind_of_token(p[3])->0, p[4]))
    } else {
        None
    }
}

pub open spec fn is_invalid_asset_id_error(e: AppError) -> bool {
    e.code@ == "ARTWORK_ASSET_ID_INVALID"@ && e.message@
        == "The requested artwork asset identifier is invalid."@
}

fn invalid_asset_id() -> (e: AppError)
    ensures
        is_invalid_asset_id_error(e),
{
    AppError::new(
        "ARTWORK_ASSET_ID_INVALID",
        "The requested artwork asset identifier is invalid.",
    )
}

/// Parse an untrusted asset identifier.
pub fn parse_asset_id(asset_id: &str) -> (r: AppResult<ParsedAssetId>)
    ensures
        match r {
            Ok(p) => asset_id_parts(asset_id@) == Some(
                (p.root_index as nat, p.machine@, p.kind, p.extension@),
            ) && p.directory@ == directory_of(p.kind) && mime_of_extension(p.extension@) == Some(
                p.mime_type@,
            ),
            Err(e) => asset_id_parts(asset_id@) is None && is_invalid_asset_id_error(e),
        },
{
    let chars = chars_of(asset_id);
    let parts = split_chars(chars.as_slice(), ':');
    let ghost p = split_char(asset_id@, ':');
    assert(parts.deep_view() == p);
    if parts.len() != 5 || !chars_equal(parts[0].as_slice(), chars_of("local").as_slice()) {
        proof {
            if parts.len() == 5 {
                assert(parts[0]@ == p[0]);
            }
        }
        return Err(invalid_asset_id());
    }
    assert(parts[0]@ == p[0]);
    assert(parts[1]@ == p[1]);
    assert(parts[2]@ == p[2]);
    assert(parts[3]@ == p[3]);
    assert(parts[4]@ == p[4]);
    let root_index = match parse_usize(parts[1].as_slice()) {
        Some(n) => n,
        None => return Err(invalid_asset_id()),
    };
    let machine = string_from(parts[2].as_slice());
    if validate_short_identifier("machine", machine.as_str()).is_err() {
        return Err(invalid_asset_id());
    }
    let kind = match ArtworkKind::from_asset_token(parts[3].as_slice()) {
        Some(k) => k,
        None => return Err(invalid_asset_id()),
    };
    let (extension, mime_type) = match image_extension(parts[4].as_slice()) {
        Some(found) => found,
        None => return Err(invalid_asset_id()),
    };
    Ok(
        ParsedAssetId {
            root_index,
            machine,
            kind,
            directory: kind.directory_name(),
            mime_type,
            extension,
        },
    )
}

/// The identifier of a discovered asset.
pub fn asset_id_for(root_index: u32, machine: &str, kind: ArtworkKind, extension: &str) -> (r: String)
    ensures
        r@ == "local:"@ + decimal(root_index as nat) + ":"@ + machine@ + ":"@ + token_of(kind) + ":"@
            + extension@,
{
    let a = concat_strs("local:", decimal_string(root_index as u64).as_str());
    let b = concat_strs(a.as_str(), ":");
    let c = concat_strs(b.as_str(), machine);
    let d = concat_strs(c.as_str(), ":");
    let e = concat_strs(d.as_str(), kind.asset_token());
    let f = concat_strs(e.as_str(), ":");
    concat_strs(f.as_str(), extension)
}

proof fn lemma_token_round_trip(kind: ArtworkKind)
    ensures
        kind_of_token(token_of(kind)) == Some(kind),
        forall|i: int| 0 <= i < token_of(kind).len() ==> token_of(kind)[i] != ':',
{
    reveal_strlit("screenshot");
    reveal_strlit("cabinet");
    reveal_strlit("marquee");
    reveal_strlit("flyer");
    reveal_strlit("icon");
    reveal_strlit("systemImage");
    assert("screenshot"@.len() != "cabinet"@.len());
    assert("screenshot"@.len() != "marquee"@.len());
    assert("screenshot"@.len() != "flyer"@.len());
    assert("screenshot"@.len() != "icon"@.len());
    assert("screenshot"@.len() != "systemImage"@.len());
    assert("cabinet"@[0] != "marquee"@[0]);
    assert("cabinet"@.len() != "flyer"@.len());
    assert("cabinet"@.len() != "icon"@.len());
    assert("cabinet"@.len() != "systemImage"@.len());
    assert("marquee"@.len() != "flyer"@.len());
    assert("marquee"@.len() != "icon"@.len());
    assert("marquee"@.len() != "systemImage"@.len());
    assert("flyer"@.len() != "icon"@.len());
    assert("flyer"@.len() != "systemImage"@.len());
    assert("icon"@.len() != "systemImage"@.len());
}

proof fn lemma_extension_has_no_colon(e: Seq<char>)
    requires
        mime_of_extension(e) is Some,
    ensures
        forall|i: int| 0 <= i < e.len() ==> e[i] != ':',
{
    reveal_strlit("png");
    reveal_strlit("jpg");
    reveal_strlit("jpeg");
    reveal_strlit("webp");
}

/// An identifier made for a discovered asset reads back as the same root, machine,
/// category and extension.
pub proof fn law_asset_id_round_trip(
    root_index: u32,
    machine: Seq<char>,
    kind: ArtworkKind,
    extension: Seq<char>,
)
    requires
        valid_identifier_segment(machine, 16),
        mime_of_extension(extension) is Some,
    ensures
        asset_id_parts(
            "local:"@ + decimal(root_index as nat) + ":"@ + machine + ":"@ + token_of(kind) + ":"@
                + extension,
        ) == Some((root_index as nat, machine, kind, extension)),
{
    reveal_strlit("local:");
    reveal_strlit("local");
    reveal_strlit(":");
    let l = "local"@;
    let c = seq![':'];
    let d = decimal(root_index as nat);
    let t = token_of(kind);
    let id = "local:"@ + d + ":"@ + machine + ":"@ + t + ":"@ + extension;
    assert(id =~= (((l + c + d) + c + machine) + c + t) + c + extension);
    lemma_split_char_join(((l + c + d) + c + machine) + c + t, extension, ':');
    lemma_split_char_join((l + c + d) + c + machine, t, ':');
    lemma_split_char_join(l + c + d, machine, ':');
    lemma_split_char_join(l, d, ':');
    lemma_decimal_digits(root_index as nat);
    assert forall|i: int| 0 <= i < d.len() implies d[i] != ':' by {
        assert(crate::text::is_digit(d[i]));
    }
    assert forall|i: int| 0 <= i < machine.len() implies machine[i] != ':' by {
        assert(crate::argv::is_identifier_char(machine[i]));
    }
    lemma_token_round_trip(kind);
    lemma_extension_has_no_colon(extension);
    lemma_split_char_single(l, ':');
    lemma_split_char_single(d, ':');
    lemma_split_char_single(machine, ':');
    lemma_split_char_single(t, ':');
    lemma_split_char_single(extension, ':');
    let p = split_char(id, ':');
    assert(p =~= seq![l, d, machine, t, extension]);
    law_parse_decimal_round_trip(root_index as nat);
}

/// A `..` component starts at byte `i`.
pub open spec fn parent_dir_at(p: Seq<u8>, i: int) -> bool {
    0 <= i && i + 2 <= p.len() && p[i] == 0x2e && p[i + 1] == 0x2e && (i == 0 || p[i - 1] == 0x2f)
        && (i + 2 == p.len() || p[i + 2] == 0x2f)
}

/// `..` is a whole component of the path's bytes.
pub open spec fn has_parent_dir(p: Seq<u8>) -> bool {
    exists|i: int| #[trigger] parent_dir_at(p, i)
}

/// An absolute path: it begins at `/`.
pub open spec fn is_absolute(p: Seq<u8>) -> bool {
    p.len() > 0 && p[0] == 0x2f
}

/// Whether the path's bytes hold a `..` component.
pub fn has_parent_dir_exec(p: &[u8]) -> (b: bool)
    ensures
        b == has_parent_dir(p@),
{
    let mut i: usize = 0;
    while p.len() - i > 1
        invariant
            i <= p@.len(),
            forall|m: int| 0 <= m < i ==> !#[trigger] parent_dir_at(p@, m),
        decreases p.len() - i,
    {
        if p[i] == 0x2e && p[i + 1] == 0x2e && (i == 0 || p[i - 1] == 0x2f) && (i + 2 == p.len()
            || p[i + 2] == 0x2f) {
            assert(parent_dir_at(p@, i as int));
            return true;
        }
        i += 1;
    }
    assert forall|m: int| !#[trigger] parent_dir_at(p@, m) by {
        if 0 <= m && m < i {
        }
    }
    false
}

fn bytes_equal(a: &[u8], b: &[u8]) -> (r: bool)
    ensures
        r == (a@ == b@),
{
    if a.len() != b.len() {
        return false;
    }
    let mut i: usize = 0;
    while i < a.len()
        invariant
            a@.len() == b@.len(),
            i <= a@.len(),
            forall|k: int| 0 <= k < i ==> a@[k] == b@[k],
        decreases a.len() - i,
    {
        if a[i] != b[i] {
            return false;
        }
        i += 1;
    }
    assert(a@ =~= b@);
    true
}

/// The bytes of each root.
pub open spec fn root_bytes(roots: Seq<PlatformPath>) -> Seq<Seq<u8>> {
    roots.map_values(|r: PlatformPath| r.bytes())
}

/// What is wrong with root `i` of a list, checked in order, or `None`.
pub open spec fn root_problem(roots: Seq<Seq<u8>>, i: int) -> Option<Seq<char>> {
    if !is_absolute(roots[i]) {
        Some("ARTWORK_ROOT_NOT_ABSOLUTE"@)
    } else if has_parent_dir(roots[i]) {
        Some("ARTWORK_ROOT_TRAVERSAL"@)
    } else if exists|j: int| 0 <= j < i && roots[j] == roots[i] {
        Some("ARTWORK_ROOT_DUPLICATE"@)
    } else {
        None
    }
}

pub open spec fn root_message(code: Seq<char>) -> Seq<char> {
    if code == "ARTWORK_ROOT_NOT_ABSOLUTE"@ {
        "Artwork roots must be absolute paths."@
    } else if code == "ARTWORK_ROOT_TRAVERSAL"@ {
        "Artwork roots must not contain parent-directory traversal."@
    } else {
        "Artwork roots must not contain duplicate paths."@
    }
}

/// A list of roots is acceptable: not too many, each absolute, without `..`, no repeats.
pub open spec fn roots_acceptable(roots: Seq<Seq<u8>>) -> bool {
    roots.len() <= MAX_ARTWORK_ROOTS && forall|i: int|
        0 <= i < roots.len() ==> #[trigger] root_problem(roots, i) is None
}

fn duplicate_before(roots: &[PlatformPath], i: usize) -> (b: bool)
    requires
        i < roots@.len(),
    ensures
        b == exists|j: int| 0 <= j < i && root_bytes(roots@)[j] == root_bytes(roots@)[i as int],
{
    let mut j: usize = 0;
    while j < i
        invariant
            i < roots@.len(),
            j <= i,
            forall|k: int| 0 <= k < j ==> root_bytes(roots@)[k] != root_bytes(roots@)[i as int],
        decreases i - j,
    {
        assert(root_bytes(roots@)[j as int] == roots@[j as int].bytes());
        assert(root_bytes(roots@)[i as int] == roots@[i as int].bytes());
        if bytes_equal(roots[j].as_path(), roots[i].as_path()) {
            return true;
        }
        j += 1;
    }
    false
}

/// Check a list of artwork roots before it is stored or searched.
pub fn validate_artwork_roots(roots: &[PlatformPath]) -> (r: AppResult<()>)
    ensures
        r is Ok <==> roots_acceptable(root_bytes(roots@)),
        r matches Err(e) ==> if roots@.len() > MAX_ARTWORK_ROOTS {
            e.code@ == "ARTWORK_ROOT_LIMIT_EXCEEDED"@ && e.message@
                == "At most 32 artwork roots may be configured."@
        } else {
            exists|i: int|
                0 <= i < roots@.len() && (forall|j: int|
                    0 <= j < i ==> #[trigger] root_problem(root_bytes(roots@), j) is None)
                    && root_problem(root_bytes(roots@), i) == Some(e.code@) && e.message@
                    == root_message(e.code@) && e.details@.len() == 1 && e.details@[0].key@
                    == "rootIndex"@ && e.details@[0].value@ == decimal(i as nat)
        },
{
    let ghost rb = root_bytes(roots@);
    if roots.len() > MAX_ARTWORK_ROOTS {
        return Err(
            AppError::new(
                "ARTWORK_ROOT_LIMIT_EXCEEDED",
                "At most 32 artwork roots may be configured.",
            ),
        );
    }
    let mut i: usize = 0;
    while i < roots.len()
        invariant
            rb == root_bytes(roots@),
            roots@.len() <= MAX_ARTWORK_ROOTS,
            i <= roots@.len(),
            forall|j: int| 0 <= j < i ==> #[trigger] root_problem(rb, j) is None,
        decreases roots.len() - i,
    {
        let path = roots[i].as_path();
        assert(rb[i as int] == roots@[i as int].bytes());
        assert(path@ == rb[i as int]);
        proof {
            reveal_strlit("ARTWORK_ROOT_NOT_ABSOLUTE");
            reveal_strlit("ARTWORK_ROOT_TRAVERSAL");
            reveal_strlit("ARTWORK_ROOT_DUPLICATE");
            assert("ARTWORK_ROOT_NOT_ABSOLUTE"@.len() != "ARTWORK_ROOT_TRAVERSAL"@.len());
            assert("ARTWORK_ROOT_NOT_ABSOLUTE"@.len() != "ARTWORK_ROOT_DUPLICATE"@.len());
            assert("ARTWORK_ROOT_TRAVERSAL"@[13] != "ARTWORK_ROOT_DUPLICATE"@[13]);
        }
        let found: Option<(&str, &str)> = if !(path.len() > 0 && path[0] == 0x2f) {
            Some(("ARTWORK_ROOT_NOT_ABSOLUTE", "Artwork roots must be absolute paths."))
        } else if has_parent_dir_exec(path) {
            Some(
                (
                    "ARTWORK_ROOT_TRAVERSAL",
                    "Artwork roots must not contain parent-directory traversal.",
                ),
            )
        } else if duplicate_before(roots, i) {
            Some(("ARTWORK_ROOT_DUPLICATE", "Artwork roots must not contain duplicate paths."))
        } else {
            None
        };
        match found {
            Some((code, message)) => {
                assert(root_problem(rb, i as int) == Some(code@));
                assert(message@ == root_message(code@));
                let e = AppError::new(code, message).with_detail("rootIndex", decimal_string(i as u64));
                assert(e.details@[0] == e.details@.last());
                return Err(e);
            },
            None => {
                assert(root_problem(rb, i as int) is None);
            },
        }
        i += 1;
    }
    Ok(())
}

/// Checks the schema version read from the artwork settings document: a missing or
/// non-integer version and any version but the supported one are refused.
pub fn check_artwork_schema_version(version: Option<u64>) -> (r: AppResult<()>)
    ensures
        r is Ok <==> version == Some(ARTWORK_SCHEMA_VERSION as u64),
        version is None ==> (r matches Err(e) && e.code@ == "ARTWORK_CONFIG_SCHEMA_VERSION_MISSING"@
            && e.message@ == "Artwork settings have no valid schema version."@),
        version is Some && version->0 != ARTWORK_SCHEMA_VERSION ==> (r matches Err(e) && {
            &&& e.code@ == "ARTWORK_CONFIG_SCHEMA_UNSUPPORTED"@
            &&& e.message@ == "Artwork settings schema version "@ + decimal(version->0 as nat)
                + " is not supported."@
            &&& e.details@.len() == 2
            &&& e.details@[0].key@ == "supportedVersion"@
            &&& e.details@[0].value@ == decimal(ARTWORK_SCHEMA_VERSION as nat)
            &&& e.details@[1].key@ == "foundVersion"@
            &&& e.details@[1].value@ == decimal(version->0 as nat)
        }),
{
    match version {
        None => Err(
            AppError::new(
                "ARTWORK_CONFIG_SCHEMA_VERSION_MISSING",
                "Artwork settings have no valid schema version.",
            ),
        ),
        Some(v) => {
            if v != ARTWORK_SCHEMA_VERSION as u64 {
                let found = decimal_string(v);
                let m1 = concat_strs("Artwork settings schema version ", found.as_str());
                let message = concat_strs(m1.as_str(), " is not supported.");
                return Err(
                    AppError::new("ARTWORK_CONFIG_SCHEMA_UNSUPPORTED", message.as_str()).with_detail(
                        "supportedVersion",
                        decimal_string(ARTWORK_SCHEMA_VERSION as u64),
                    ).with_detail("foundVersion", found),
                );
            }
            Ok(())
        },
    }
}

pub open spec fn is_stale_asset_error(e: AppError) -> bool {
    e.code@ == "ARTWORK_ASSET_UNAVAILABLE"@ && e.message@
        == "The requested artwork asset is no longer available under the current artwork configuration."@
}

fn stale_asset_error() -> (e: AppError)
    ensures
        is_stale_asset_error(e),
{
    AppError::new(
        "ARTWORK_ASSET_UNAVAILABLE",
        "The requested artwork asset is no longer available under the current artwork configuration.",
    )
}

/// Where a requested asset should be: its configured root and the file below it.
#[derive(Debug, Clone, PartialEq, Eq)]
pub struct ArtworkCandidate {
    pub parsed: ParsedAssetId,
    pub root: PlatformPath,
    pub relative_path: String,
}

/// The file of an asset below its root: `<directory>/<machine>.<extension>`.
pub open spec fn relative_path_of(kind: ArtworkKind, machine: Seq<char>, extension: Seq<char>) -> Seq<
    char,
> {
    directory_of(kind) + "/"@ + machine + "."@ + extension
}

/// Authorize an asset identifier against the configured roots: it must parse, name a
/// configured root, and that root must be absolute and free of `..`.
pub fn artwork_candidate(asset_id: &str, roots: &[PlatformPath]) -> (r: AppResult<ArtworkCandidate>)
    ensures
        match r {
            Ok(c) => {
                &&& asset_id_parts(asset_id@) == Some(
                    (c.parsed.root_index as nat, c.parsed.machine@, c.parsed.kind, c.parsed.extension@),
                )
                &&& c.parsed.root_index < roots@.len()
                &&& c.root.bytes() == roots@[c.parsed.root_index as int].bytes()
                &&& is_absolute(c.root.bytes()) && !has_parent_dir(c.root.bytes())
                &&& c.relative_path@ == relative_path_of(c.parsed.kind, c.parsed.machine@, c.parsed.extension@)
                &&& mime_of_extension(c.parsed.extension@) == Some(c.parsed.mime_type@)
            },
            Err(e) => match asset_id_parts(asset_id@) {
                None => is_invalid_asset_id_error(e),
                Some((index, _, _, _)) => if index >= roots@.len() {
                    is_stale_asset_error(e)
                } else {
                    let root = roots@[index as int].bytes();
                    !(is_absolute(root) && !has_parent_dir(root)) && e.code@ == "ARTWORK_ROOT_INVALID"@
                },
            },
        },
{
    let parsed = parse_asset_id(asset_id)?;
    if parsed.root_index >= roots.len() {
        return Err(stale_asset_error());
    }
    let path = roots[parsed.root_index].as_path();
    if !(path.len() > 0 && path[0] == 0x2f) || has_parent_dir_exec(path) {
        return Err(
            AppError::new(
                "ARTWORK_ROOT_INVALID",
                "The configured artwork root is not safe for asset reads.",
            ),
        );
    }
    let a = concat_strs(parsed.directory, "/");
    let b = concat_strs(a.as_str(), parsed.machine.as_str());
    let c = concat_strs(b.as_str(), ".");
    let relative_path = concat_strs(c.as_str(), parsed.extension);
    let root = PlatformPath::new(vstd::slice::slice_to_vec(path));
    Ok(ArtworkCandidate { parsed, root, relative_path })
}

/// `candidate` lies at or under `root`, component by component, as `Path::starts_with`
/// compares resolved paths (which have no empty or `.` components).
pub open spec fn path_under(root: Seq<u8>, candidate: Seq<u8>) -> bool {
    ||| candidate == root
    ||| (root.len() > 0 && root.last() == 0x2f && candidate.len() >= root.len() && candidate.take(
        root.len() as int,
    ) == root)
    ||| (candidate.len() > root.len() && candidate.take(root.len() as int) == root && candidate[root.len() as int]
        == 0x2f)
}

/// Whether the first `root.len()` bytes of `candidate` are `root`.
fn has_prefix(root: &[u8], candidate: &[u8]) -> (r: bool)
    ensures
        r == (candidate@.len() >= root@.len() && candidate@.take(root@.len() as int) == root@),
{
    if candidate.len() < root.len() {
        return false;
    }
    let mut i: usize = 0;
    while i < root.len()
        invariant
            root@.len() <= candidate@.len(),
            i <= root@.len(),
            forall|k: int| 0 <= k < i ==> candidate@[k] == root@[k],
        decreases root.len() - i,
    {
        if candidate[i] != root[i] {
            assert(candidate@.take(root@.len() as int)[i as int] != root@[i as int]);
            return false;
        }
        i += 1;
    }
    assert(candidate@.take(root@.len() as int) =~= root@);
    true
}

/// Whether a resolved path lies at or under a resolved root.
pub fn is_path_under(root: &[u8], candidate: &[u8]) -> (r: bool)
    ensures
        r == path_under(root@, candidate@),
{
    if bytes_equal(candidate, root) {
        return true;
    }
    if !has_prefix(root, candidate) {
        return false;
    }
    if root.len() > 0 && root[root.len() - 1] == 0x2f {
        return true;
    }
    candidate.len() > root.len() && candidate[root.len()] == 0x2f
}

/// A requested asset, once its root and file are resolved, must lie under the root; a file
/// that resolves elsewhere (through a link, say) is refused.
pub fn check_asset_within_root(canonical_root: &[u8], canonical_candidate: &[u8]) -> (r: AppResult<()>)
    ensures
        r is Ok <==> path_under(canonical_root@, canonical_candidate@),
        r matches Err(e) ==> e.code@ == "ARTWORK_ASSET_OUTSIDE_ROOT"@ && e.message@
            == "The requested artwork asset resolves outside its configured root."@,
{
    if is_path_under(canonical_root, canonical_candidate) {
        return Ok(());
    }
    Err(
        AppError::new(
            "ARTWORK_ASSET_OUTSIDE_ROOT",
            "The requested artwork asset resolves outside its configured root.",
        ),
    )
}

/// The error for an asset that is no longer where the configuration puts it.
pub fn asset_unavailable() -> (e: AppError)
    ensures
        is_stale_asset_error(e),
{
    stale_asset_error()
}

/// What the file of a resolved asset must be before it is read: a regular file no larger
/// than the preview limit.
pub fn check_asset_file(asset_id: &str, is_file: bool, len: u64) -> (r: AppResult<()>)
    ensures
        r is Ok <==> is_file && len <= MAX_ARTWORK_PREVIEW_BYTES,
        !is_file ==> (r matches Err(e) && is_stale_asset_error(e)),
        is_file && len > MAX_ARTWORK_PREVIEW_BYTES ==> (r matches Err(e) && {
            &&& e.code@ == "ARTWORK_ASSET_TOO_LARGE"@
            &&& e.message@ == "Artwork previews are limited to 8388608 bytes per asset."@
            &&& e.details@.len() == 3
            &&& e.details@[0].key@ == "assetId"@ && e.details@[0].value@ == asset_id@
            &&& e.details@[1].key@ == "bytes"@ && e.details@[1].value@ == decimal(len as nat)
            &&& e.details@[2].key@ == "maxBytes"@ && e.details@[2].value@ == decimal(
                MAX_ARTWORK_PREVIEW_BYTES as nat,
            )
        }),
{
    if !is_file {
        return Err(stale_asset_error());
    }
    if len > MAX_ARTWORK_PREVIEW_BYTES {
        return Err(
            AppError::new(
                "ARTWORK_ASSET_TOO_LARGE",
                "Artwork previews are limited to 8388608 bytes per asset.",
            ).with_detail("assetId", asset_id.to_owned()).with_detail("bytes", decimal_string(len)).with_detail(
                "maxBytes",
                decimal_string(MAX_ARTWORK_PREVIEW_BYTES),
            ),
        );
    }
    Ok(())
}

/// A preview of an artwork asset, as a data URL.
#[derive(Debug, Clone, PartialEq, Eq)]
pub struct ArtworkAssetPayload {
    pub schema_version: u32,
    pub asset_id: String,
    pub mime_type: String,
    pub bytes: u64,
    pub data_url: String,
}

/// The payload for the bytes read from an asset file; the preview is bounded.
pub fn artwork_asset_payload(asset_id: &str, mime_type: &str, contents: &[u8]) -> (r: AppResult<
    ArtworkAssetPayload,
>)
    ensures
        r is Ok <==> contents@.len() <= MAX_ARTWORK_PREVIEW_BYTES,
        r matches Ok(p) ==> p.schema_version == ARTWORK_SCHEMA_VERSION && p.asset_id@ == asset_id@
            && p.mime_type@ == mime_type@ && p.bytes == contents@.len() && p.data_url@ == "data:"@
            + mime_type@ + ";base64,"@ + base64(contents@),
        r matches Err(e) ==> e.code@ == "ARTWORK_ASSET_TOO_LARGE"@,
{
    let byte_count = contents.len() as u64;
    if byte_count > MAX_ARTWORK_PREVIEW_BYTES {
        return Err(
            AppError::new(
                "ARTWORK_ASSET_TOO_LARGE",
                "The requested artwork asset exceeded the preview limit while being read.",
            ),
        );
    }
    let encoded = encode_base64(contents);
    let head = concat_strs("data:", mime_type);
    let prefix = concat_strs(head.as_str(), ";base64,");
    Ok(
        ArtworkAssetPayload {
            schema_version: ARTWORK_SCHEMA_VERSION,
            asset_id: asset_id.to_owned(),
            mime_type: mime_type.to_owned(),
            bytes: byte_count,
            data_url: concat_strs(prefix.as_str(), encoded.as_str()),
        },
    )
}

/// The validation of an artwork root whose filesystem check failed.
pub fn artwork_validation_from_io_error(path: &PlatformPath, kind: IoFailureKind, message: String) -> (r:
    PathValidation)
    ensures
        r.path.bytes() == path.bytes(),
        r.status == crate::config::status_for_failure(kind),
        r.message == Some(message),
{
    validation_from_io_error(path, kind, message)
}

/// The artwork configuration reported to the user: the roots in order, each with its
/// validation.
#[derive(Debug, Clone, PartialEq, Eq)]
pub struct ArtworkConfiguration {
    pub schema_version: u32,
    pub roots: Vec<PlatformPath>,
    pub validations: Vec<PathValidation>,
}

/// Pair the stored roots with their validations.
pub fn artwork_configuration(roots: Vec<PlatformPath>, validations: Vec<PathValidation>) -> (r:
    ArtworkConfiguration)
    ensures
        r.schema_version == ARTWORK_SCHEMA_VERSION,
        r.roots@ == roots@,
        r.validations@ == validations@,
{
    ArtworkConfiguration { schema_version: ARTWORK_SCHEMA_VERSION, roots, validations }
}

/// Where a discovered asset comes from.
#[derive(Debug, Clone, Copy, PartialEq, Eq, Structural)]
pub enum ArtworkProvenanceKind {
    LocalFile,
}

/// The provenance of an asset: the position of its configured root, never its path.
#[derive(Debug, Clone, Copy, PartialEq, Eq, Structural)]
pub struct ArtworkProvenance {
    pub kind: ArtworkProvenanceKind,
    pub root_index: u32,
}

/// A discovered asset.
#[derive(Debug, Clone, PartialEq, Eq)]
pub struct ArtworkDescriptor {
    pub schema_version: u32,
    pub asset_id: String,
    pub machine: String,
    pub kind: ArtworkKind,
    pub mime_type: String,
    pub bytes: u64,
    pub provenance: ArtworkProvenance,
}

/// One category of a machine's artwork, with its asset if one was found.
#[derive(Debug, Clone, PartialEq, Eq)]
pub struct ArtworkSlot {
    pub kind: ArtworkKind,
    pub asset: Option<ArtworkDescriptor>,
}

/// The artwork of a machine, one slot per category.
#[derive(Debug, Clone, PartialEq, Eq)]
pub struct MachineArtwork {
    pub schema_version: u32,
    pub machine: String,
    pub slots: Vec<ArtworkSlot>,
}

/// A request to replace the configured artwork roots.
#[derive(Debug, Clone, PartialEq, Eq)]
pub struct SetArtworkRootsRequest {
    pub roots: Vec<PlatformPath>,
}

/// A discovery may search only for a valid machine name over acceptable roots.
pub fn check_artwork_discovery(machine: &str, roots: &[PlatformPath]) -> (r: AppResult<()>)
    ensures
        r is Ok <==> valid_identifier_segment(machine@, 16) && roots_acceptable(root_bytes(roots@)),
        !valid_identifier_segment(machine@, 16) ==> (r matches Err(e) && e.code@
            == "MAME_IDENTIFIER_INVALID"@),
{
    validate_short_identifier("machine", machine)?;
    validate_artwork_roots(roots)
}

/// The descriptor of an asset found under root `root_index`.
pub fn artwork_descriptor(
    root_index: u32,
    machine: &str,
    kind: ArtworkKind,
    extension: &str,
    mime_type: &str,
    bytes: u64,
) -> (r: ArtworkDescriptor)
    ensures
        r.schema_version == ARTWORK_SCHEMA_VERSION,
        r.asset_id@ == "local:"@ + decimal(root_index as nat) + ":"@ + machine@ + ":"@ + token_of(kind)
            + ":"@ + extension@,
        r.machine@ == machine@,
        r.kind == kind,
        r.mime_type@ == mime_type@,
        r.bytes == bytes,
        r.provenance == (ArtworkProvenance { kind: ArtworkProvenanceKind::LocalFile, root_index }),
{
    ArtworkDescriptor {
        schema_version: ARTWORK_SCHEMA_VERSION,
        asset_id: asset_id_for(root_index, machine, kind, extension),
        machine: machine.to_owned(),
        kind,
        mime_type: mime_type.to_owned(),
        bytes,
        provenance: ArtworkProvenance { kind: ArtworkProvenanceKind::LocalFile, root_index },
    }
}

/// A machine's artwork from the asset found for each category, in category order.
pub fn machine_artwork(machine: &str, found: Vec<Option<ArtworkDescriptor>>) -> (r: AppResult<MachineArtwork>)
    ensures
        r is Ok <==> found@.len() == 6,
        r matches Ok(a) ==> {
            &&& a.schema_version == ARTWORK_SCHEMA_VERSION
            &&& a.machine@ == machine@
            &&& a.slots@.len() == 6
            &&& forall|i: int|
                0 <= i < 6 ==> (#[trigger] a.slots@[i]).kind == ArtworkKind::all_spec()[i] && a.slots@[i].asset
                    == found@[i]
        },
{
    if found.len() != 6 {
        return Err(
            AppError::new(
                "ARTWORK_DISCOVERY_INCOMPLETE",
                "Artwork discovery did not report every artwork category.",
            ),
        );
    }
    let kinds = ArtworkKind::all();
    let ghost original = found@;
    let mut pending = found;
    let mut slots: Vec<ArtworkSlot> = Vec::new();
    let mut i: usize = 0;
    while i < 6
        invariant
            kinds@ == ArtworkKind::all_spec(),
            original.len() == 6,
            i <= 6,
            pending@.len() + i == 6,
            forall|j: int| 0 <= j < pending@.len() ==> pending@[j] == original[i + j],
            slots@.len() == i,
            forall|j: int|
                0 <= j < i ==> (#[trigger] slots@[j]).kind == ArtworkKind::all_spec()[j] && slots@[j].asset
                    == original[j],
        decreases 6 - i,
    {
        let asset = pending.remove(0);
        slots.push(ArtworkSlot { kind: kinds[i], asset });
        i += 1;
    }
    Ok(MachineArtwork { schema_version: ARTWORK_SCHEMA_VERSION, machine: machine.to_owned(), slots })
}

} // verus!
