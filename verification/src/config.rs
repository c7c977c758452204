//! Application settings: platform paths, content paths and the settings schema.

use vstd::prelude::*;
use vstd::utf8::{decode_utf8, encode_utf8, valid_utf8};

use crate::errors::{AppError, AppResult};
use crate::preferences::LaunchPreferencesV1;
use crate::text::{decimal, decimal_string, concat_strs, string_from};

verus! {

broadcast use vstd::string::group_string_axioms;

/// The settings schema version this application reads and writes.
pub const SETTINGS_SCHEMA_VERSION: u32 = 2;

/// A platform path, held as the operating system's bytes so that non-UTF-8 paths survive.
#[derive(Debug, Clone, PartialEq, Eq)]
pub struct PlatformPath(Vec<u8>);

impl PlatformPath {
    pub closed spec fn bytes(&self) -> Seq<u8> {
        self.0@
    }

    pub fn new(path: Vec<u8>) -> (r: Self)
        ensures
            r.bytes() == path@,
    {
        PlatformPath(path)
    }

    /// The path's bytes.
    pub fn as_path(&self) -> (r: &[u8])
        ensures
            r@ == self.bytes(),
    {
        self.0.as_slice()
    }

    /// The path's bytes, by value.
    pub fn into_path_buf(self) -> (r: Vec<u8>)
        ensures
            r@ == self.bytes(),
    {
        self.0
    }
}

/// A path from its bytes, kept as they are.
impl From<Vec<u8>> for PlatformPath {
    fn from(path: Vec<u8>) -> (r: Self)
        ensures
            r.bytes() == path@,
    {
        PlatformPath(path)
    }
}

impl vstd::std_specs::convert::FromSpecImpl<Vec<u8>> for PlatformPath {
    open spec fn obeys_from_spec() -> bool {
        true
    }

    closed spec fn from_spec(path: Vec<u8>) -> Self {
        PlatformPath(path)
    }
}

/// A path from borrowed bytes, copied as they are. The copy is a new `Vec`, so the result
/// is given by its bytes rather than as one spec value.
impl<'a> From<&'a [u8]> for PlatformPath {
    fn from(path: &'a [u8]) -> (r: Self)
        ensures
            r.bytes() == path@,
    {
        PlatformPath(vstd::slice::slice_to_vec(path))
    }
}

impl<'a> vstd::std_specs::convert::FromSpecImpl<&'a [u8]> for PlatformPath {
    open spec fn obeys_from_spec() -> bool {
        false
    }

    closed spec fn from_spec(path: &'a [u8]) -> Self {
        choose|p: PlatformPath| p.bytes() == path@
    }
}

/// How a path is written in the settings document: as a string when it is UTF-8, else as
/// hexadecimal bytes with the encoding named.
#[derive(Debug, Clone, PartialEq, Eq)]
pub enum PathWire {
    Utf8(String),
    Encoded { encoding: String, data: String },
}

/// `std::str::from_utf8`: the text of `bytes` when they are valid UTF-8.
#[verifier::external_body]
pub(crate) fn utf8_text(bytes: &[u8]) -> (r: Option<&str>)
    ensures
        r is Some <==> valid_utf8(bytes@),
        r matches Some(s) ==> s@ == decode_utf8(bytes@),
{
    std::str::from_utf8(bytes).ok()
}

/// Lowercase hexadecimal digit for `n < 16`.
pub open spec fn hex_char(n: int) -> char {
    if n < 10 {
        (('0' as u32) + n) as char
    } else {
        (('a' as u32) + n - 10) as char
    }
}

/// Lowercase hexadecimal text of `b`, two digits per byte.
pub open spec fn hex_encoding(b: Seq<u8>) -> Seq<char> {
    Seq::new(
        2 * b.len(),
        |i: int|
            if i % 2 == 0 {
                hex_char(b[i / 2] as int / 16)
            } else {
                hex_char(b[i / 2] as int % 16)
            },
    )
}

/// The value of an ASCII hexadecimal digit (either case).
pub open spec fn hex_value(c: u8) -> Option<int> {
    if 0x30 <= c <= 0x39 {
        Some(c - 0x30)
    } else if 0x61 <= c <= 0x66 {
        Some(c - 0x61 + 10)
    } else if 0x41 <= c <= 0x46 {
        Some(c - 0x41 + 10)
    } else {
        None
    }
}

pub open spec fn odd_length_message() -> Seq<char> {
    "encoded path data must contain complete bytes"@
}

pub open spec fn bad_digit_message() -> Seq<char> {
    "encoded path data contains a non-hexadecimal character"@
}

/// Decoding of hexadecimal text (given as its bytes): complete pairs of digits only.
pub open spec fn hex_decoding(s: Seq<u8>) -> Result<Seq<u8>, Seq<char>> {
    if s.len() % 2 != 0 {
        Err(odd_length_message())
    } else if exists|i: int| 0 <= i < s.len() && #[trigger] hex_value(s[i]) is None {
        Err(bad_digit_message())
    } else {
        Ok(
            Seq::new(
                s.len() / 2,
                |k: int| (16 * hex_value(s[2 * k])->0 + hex_value(s[2 * k + 1])->0) as u8,
            ),
        )
    }
}

fn hex_digit(n: u8) -> (c: char)
    requires
        n < 16,
    ensures
        c == hex_char(n as int),
{
    if n < 10 {
        ((('0' as u32) + n as u32) as u8) as char
    } else {
        ((('a' as u32) + n as u32 - 10) as u8) as char
    }
}

/// Encode bytes as lowercase hexadecimal text.
pub fn encode_hex(bytes: &[u8]) -> (r: String)
    ensures
        r@ == hex_encoding(bytes@),
{
    let mut out: Vec<char> = Vec::new();
    let mut i: usize = 0;
    while i < bytes.len()
        invariant
            i <= bytes@.len(),
            out@ == hex_encoding(bytes@.take(i as int)),
        decreases bytes.len() - i,
    {
        let byte = bytes[i];
        out.push(hex_digit(byte / 16));
        out.push(hex_digit(byte % 16));
        proof {
            let t = bytes@.take(i + 1);
            assert(t.take(i as int) == bytes@.take(i as int));
            assert(out@ =~= hex_encoding(t)) by {
                assert forall|j: int| 0 <= j < 2 * t.len() implies out@[j] == hex_encoding(t)[j] by {
                    if j < 2 * i {
                        assert(t[j / 2] == bytes@.take(i as int)[j / 2]);
                    }
                }
            }
        }
        i += 1;
    }
    assert(bytes@.take(bytes@.len() as int) == bytes@);
    string_from(out.as_slice())
}

/// The value of one hexadecimal digit.
pub fn decode_hex_digit(value: u8) -> (r: Result<u8, &'static str>)
    ensures
        match r {
            Ok(v) => hex_value(value) == Some(v as int),
            Err(m) => hex_value(value) is None && m@ == bad_digit_message(),
        },
{
    if 0x30 <= value && value <= 0x39 {
        Ok(value - 0x30)
    } else if 0x61 <= value && value <= 0x66 {
        Ok(value - 0x61 + 10)
    } else if 0x41 <= value && value <= 0x46 {
        Ok(value - 0x41 + 10)
    } else {
        Err("encoded path data contains a non-hexadecimal character")
    }
}

/// Decode hexadecimal text into bytes.
pub fn decode_hex(encoded: &str) -> (r: Result<Vec<u8>, &'static str>)
    ensures
        match r {
            Ok(v) => hex_decoding(encode_utf8(encoded@)) == Ok::<Seq<u8>, Seq<char>>(v@),
            Err(m) => hex_decoding(encode_utf8(encoded@)) == Err::<Seq<u8>, Seq<char>>(m@),
        },
{
    let bytes = encoded.as_bytes();
    let ghost s = bytes@;
    if bytes.len() % 2 != 0 {
        return Err("encoded path data must contain complete bytes");
    }
    let mut out: Vec<u8> = Vec::new();
    let mut k: usize = 0;
    while k < bytes.len() / 2
        invariant
            s == bytes@,
            s == encode_utf8(encoded@),
            s.len() % 2 == 0,
            k <= s.len() / 2,
            forall|i: int| 0 <= i < 2 * k ==> hex_value(#[trigger] s[i]) is Some,
            out@ =~= Seq::new(
                k as nat,
                |m: int| (16 * hex_value(s[2 * m])->0 + hex_value(s[2 * m + 1])->0) as u8,
            ),
        decreases bytes.len() / 2 - k,
    {
        let high = match decode_hex_digit(bytes[2 * k]) {
            Ok(v) => v,
            Err(m) => {
                assert(hex_value(s[2 * k as int]) is None);
                return Err(m);
            },
        };
        let low = match decode_hex_digit(bytes[2 * k + 1]) {
            Ok(v) => v,
            Err(m) => {
                assert(hex_value(s[2 * k + 1]) is None);
                return Err(m);
            },
        };
        out.push(high * 16 + low);
        k += 1;
    }
    Ok(out)
}

proof fn lemma_hex_digit_round_trip(n: int)
    requires
        0 <= n < 16,
    ensures
        hex_char(n) as u32 <= 0x7f,
        hex_value(hex_char(n) as u8) == Some(n),
{
}

/// Decoding the hexadecimal text of any bytes gives the bytes back.
pub proof fn law_hex_round_trip(b: Seq<u8>)
    ensures
        hex_decoding(encode_utf8(hex_encoding(b))) == Ok::<Seq<u8>, Seq<char>>(b),
{
    let e = hex_encoding(b);
    assert forall|i: int| 0 <= i < e.len() implies '\0' <= #[trigger] e[i] <= '\u{7f}' by {
        if i % 2 == 0 {
            lemma_hex_digit_round_trip(b[i / 2] as int / 16);
        } else {
            lemma_hex_digit_round_trip(b[i / 2] as int % 16);
        }
    }
    vstd::utf8::is_ascii_chars_encode_utf8(e);
    let s = encode_utf8(e);
    assert forall|i: int| 0 <= i < s.len() implies #[trigger] hex_value(s[i]) is Some by {
        assert(s[i] == e[i] as u8);
        if i % 2 == 0 {
            lemma_hex_digit_round_trip(b[i / 2] as int / 16);
        } else {
            lemma_hex_digit_round_trip(b[i / 2] as int % 16);
        }
    }
    let decoded = Seq::new(
        s.len() / 2,
        |k: int| (16 * hex_value(s[2 * k])->0 + hex_value(s[2 * k + 1])->0) as u8,
    );
    assert forall|k: int| 0 <= k < b.len() implies decoded[k] == b[k] by {
        assert(s[2 * k] == e[2 * k] as u8);
        assert(s[2 * k + 1] == e[2 * k + 1] as u8);
        lemma_hex_digit_round_trip(b[k] as int / 16);
        lemma_hex_digit_round_trip(b[k] as int % 16);
        assert((2 * k) / 2 == k);
        assert((2 * k + 1) / 2 == k);
    }
    assert(decoded =~= b);
}

/// The wire form of a path, as text.
pub enum PathWireView {
    Utf8(Seq<char>),
    Encoded(Seq<char>, Seq<char>),
}

impl View for PathWire {
    type V = PathWireView;

    open spec fn view(&self) -> PathWireView {
        match self {
            PathWire::Utf8(s) => PathWireView::Utf8(s@),
            PathWire::Encoded { encoding, data } => PathWireView::Encoded(encoding@, data@),
        }
    }
}

/// How the bytes of a path are written: the string itself when they are UTF-8, otherwise
/// their hexadecimal text tagged `unixBytesHex`.
pub open spec fn wire_of(b: Seq<u8>) -> PathWireView {
    if valid_utf8(b) {
        PathWireView::Utf8(decode_utf8(b))
    } else {
        PathWireView::Encoded("unixBytesHex"@, hex_encoding(b))
    }
}

/// The message for an encoding other than `unixBytesHex`.
pub open spec fn unsupported_encoding_message(encoding: Seq<char>) -> Seq<char> {
    "path encoding \""@ + encoding + "\" is not supported on this platform"@
}

/// The bytes a wire form stands for, or why it is rejected.
pub open spec fn unwire(w: PathWireView) -> Result<Seq<u8>, Seq<char>> {
    match w {
        PathWireView::Utf8(s) => Ok(encode_utf8(s)),
        PathWireView::Encoded(encoding, data) => match hex_decoding(encode_utf8(data)) {
            Err(m) => Err(m),
            Ok(bytes) => if encoding == "unixBytesHex"@ {
                Ok(bytes)
            } else {
                Err(unsupported_encoding_message(encoding))
            },
        },
    }
}

impl PlatformPath {
    /// The form in which this path is written to the settings document.
    pub fn to_wire(&self) -> (r: PathWire)
        ensures
            r@ == wire_of(self.bytes()),
    {
        match utf8_text(self.0.as_slice()) {
            Some(text) => PathWire::Utf8(text.to_owned()),
            None => PathWire::Encoded {
                encoding: "unixBytesHex".to_owned(),
                data: encode_hex(self.0.as_slice()),
            },
        }
    }

    /// The path a wire form stands for.
    pub fn from_wire(wire: PathWire) -> (r: Result<PlatformPath, String>)
        ensures
            match r {
                Ok(p) => unwire(wire@) == Ok::<Seq<u8>, Seq<char>>(p.bytes()),
                Err(m) => unwire(wire@) == Err::<Seq<u8>, Seq<char>>(m@),
            },
    {
        match wire {
            PathWire::Utf8(text) => {
                let bytes = text.as_str().as_bytes();
                assert(bytes@ == encode_utf8(text@));
                Ok(PlatformPath(vstd::slice::slice_to_vec(bytes)))
            },
            PathWire::Encoded { encoding, data } => {
                let bytes = match decode_hex(data.as_str()) {
                    Ok(bytes) => bytes,
                    Err(message) => return Err(message.to_owned()),
                };
                if crate::text::str_equal(encoding.as_str(), "unixBytesHex") {
                    Ok(PlatformPath(bytes))
                } else {
                    let named = concat_strs("path encoding \"", encoding.as_str());
                    Err(concat_strs(named.as_str(), "\" is not supported on this platform"))
                }
            },
        }
    }
}

/// Writing a path and reading it back gives the same bytes, whether or not they are UTF-8.
pub proof fn law_path_wire_round_trip(b: Seq<u8>)
    ensures
        unwire(wire_of(b)) == Ok::<Seq<u8>, Seq<char>>(b),
{
    if valid_utf8(b) {
        vstd::utf8::decode_utf8_encode_utf8(b);
    } else {
        law_hex_round_trip(b);
    }
}

/// Which list of content paths.
#[derive(Debug, Clone, Copy, PartialEq, Eq, Structural)]
pub enum ContentPathKind {
    Rom,
    Software,
    Chd,
}

/// The configured content directories, each list in the user's order.
#[derive(Debug, Clone, PartialEq, Eq)]
pub struct ContentPathsV1 {
    pub rom_paths: Vec<PlatformPath>,
    pub software_paths: Vec<PlatformPath>,
    pub chd_paths: Vec<PlatformPath>,
}

impl ContentPathsV1 {
    /// The paths of one kind.
    pub fn paths(&self, kind: ContentPathKind) -> (r: &[PlatformPath])
        ensures
            r@ == match kind {
                ContentPathKind::Rom => self.rom_paths@,
                ContentPathKind::Software => self.software_paths@,
                ContentPathKind::Chd => self.chd_paths@,
            },
    {
        match kind {
            ContentPathKind::Rom => self.rom_paths.as_slice(),
            ContentPathKind::Software => self.software_paths.as_slice(),
            ContentPathKind::Chd => self.chd_paths.as_slice(),
        }
    }
}

impl Default for ContentPathsV1 {
    fn default() -> (r: Self)
        ensures
            r.rom_paths@.len() == 0,
            r.software_paths@.len() == 0,
            r.chd_paths@.len() == 0,
    {
        ContentPathsV1 { rom_paths: Vec::new(), software_paths: Vec::new(), chd_paths: Vec::new() }
    }
}

/// The application settings document.
#[derive(Debug, Clone, PartialEq, Eq)]
pub struct SettingsV2 {
    pub schema_version: u32,
    pub mame_executable: Option<String>,
    pub content_paths: ContentPathsV1,
    pub launch_preferences: LaunchPreferencesV1,
}

impl Default for SettingsV2 {
    fn default() -> (r: Self)
        ensures
            r.schema_version == SETTINGS_SCHEMA_VERSION,
            r.mame_executable is None,
            r.content_paths.rom_paths@.len() == 0,
            r.content_paths.software_paths@.len() == 0,
            r.content_paths.chd_paths@.len() == 0,
            r.launch_preferences == crate::preferences::inherited_preferences(),
    {
        SettingsV2 {
            schema_version: SETTINGS_SCHEMA_VERSION,
            mame_executable: None,
            content_paths: ContentPathsV1::default(),
            launch_preferences: LaunchPreferencesV1::default(),
        }
    }
}

/// The schema a settings document declares.
#[derive(Debug, Clone, Copy, PartialEq, Eq, Structural)]
pub enum SettingsSchema {
    V1,
    V2,
}

/// Which schema to read a document with, from its `schemaVersion` (absent or not an
/// unsigned integer: `None`). Unknown versions are rejected rather than guessed.
pub fn settings_schema_for(version: Option<u64>) -> (r: AppResult<SettingsSchema>)
    ensures
        version is None ==> (r matches Err(e) && e.code@ == "CONFIG_SCHEMA_VERSION_MISSING"@),
        version == Some(1u64) ==> r == Ok::<SettingsSchema, AppError>(SettingsSchema::V1),
        version == Some(2u64) ==> r == Ok::<SettingsSchema, AppError>(SettingsSchema::V2),
        version is Some && version->0 != 1 && version->0 != 2 ==> (r matches Err(e) && e.code@
            == "CONFIG_SCHEMA_UNSUPPORTED"@ && e.message@ == "Settings schema version "@ + decimal(
            version->0 as nat,
        ) + " is not supported."@),
{
    match version {
        None => Err(
            AppError::new(
                "CONFIG_SCHEMA_VERSION_MISSING",
                "The application settings file has no valid schema version.",
            ),
        ),
        Some(1) => Ok(SettingsSchema::V1),
        Some(2) => Ok(SettingsSchema::V2),
        Some(unsupported) => {
            let message = concat_strs(
                concat_strs("Settings schema version ", decimal_string(unsupported).as_str()).as_str(),
                " is not supported.",
            );
            Err(
                AppError::new("CONFIG_SCHEMA_UNSUPPORTED", message.as_str()).with_detail(
                    "supportedVersion",
                    decimal_string(SETTINGS_SCHEMA_VERSION as u64),
                ).with_detail("foundVersion", decimal_string(unsupported)),
            )
        },
    }
}

/// A version 1 document carries only the executable; content paths are not guessed.
pub fn migrate_settings_v1(mame_executable: Option<String>) -> (r: SettingsV2)
    ensures
        r.schema_version == SETTINGS_SCHEMA_VERSION,
        r.mame_executable == mame_executable,
        r.content_paths.rom_paths@.len() == 0,
        r.content_paths.software_paths@.len() == 0,
        r.content_paths.chd_paths@.len() == 0,
        r.launch_preferences == crate::preferences::inherited_preferences(),
{
    SettingsV2 {
        schema_version: SETTINGS_SCHEMA_VERSION,
        mame_executable,
        content_paths: ContentPathsV1::default(),
        launch_preferences: LaunchPreferencesV1::default(),
    }
}

/// The recovery backup of a settings file: its path with `.bak` appended.
pub fn settings_backup_path(path: &[u8]) -> (r: Vec<u8>)
    ensures
        r@ == path@ + seq![0x2eu8, 0x62u8, 0x61u8, 0x6bu8],
{
    let mut r = vstd::slice::slice_to_vec(path);
    r.push(0x2e);
    r.push(0x62);
    r.push(0x61);
    r.push(0x6b);
    assert(r@ =~= path@ + seq![0x2eu8, 0x62u8, 0x61u8, 0x6bu8]);
    r
}

/// Accessibility of a configured content directory.
#[derive(Debug, Clone, Copy, PartialEq, Eq, Structural)]
pub enum PathValidationStatus {
    Accessible,
    Missing,
    NotDirectory,
    PermissionDenied,
    Unreadable,
}

/// A content path with its accessibility.
#[derive(Debug, Clone, PartialEq, Eq)]
pub struct PathValidation {
    pub path: PlatformPath,
    pub status: PathValidationStatus,
    pub message: Option<String>,
}

/// The kinds of I/O failure the validation distinguishes.
#[derive(Debug, Clone, Copy, PartialEq, Eq, Structural)]
pub enum IoFailureKind {
    NotFound,
    PermissionDenied,
    Other,
}

/// The status that reports a kind of filesystem failure.
pub open spec fn status_for_failure(kind: IoFailureKind) -> PathValidationStatus {
    match kind {
        IoFailureKind::NotFound => PathValidationStatus::Missing,
        IoFailureKind::PermissionDenied => PathValidationStatus::PermissionDenied,
        IoFailureKind::Other => PathValidationStatus::Unreadable,
    }
}

/// The status for a failed filesystem check.
pub fn path_error_status(kind: IoFailureKind) -> (r: PathValidationStatus)
    ensures
        r == status_for_failure(kind),
{
    match kind {
        IoFailureKind::NotFound => PathValidationStatus::Missing,
        IoFailureKind::PermissionDenied => PathValidationStatus::PermissionDenied,
        IoFailureKind::Other => PathValidationStatus::Unreadable,
    }
}

/// The validation of a path whose check failed with `kind` and `message`.
pub fn validation_from_io_error(path: &PlatformPath, kind: IoFailureKind, message: String) -> (r: PathValidation)
    ensures
        r.path.bytes() == path.bytes(),
        r.status == status_for_failure(kind),
        r.message == Some(message),
{
    PathValidation { path: PlatformPath(path.0.clone()), status: path_error_status(kind), message: Some(message) }
}

/// What looking at a configured content path found: the metadata could not be read,
/// it is not a directory, its listing failed, or it was listed.
#[derive(Debug, Clone, PartialEq, Eq)]
pub enum PathProbe {
    MetadataFailed { kind: IoFailureKind, message: String },
    NotDirectory,
    ListingFailed { kind: IoFailureKind, message: String },
    Listed,
}

/// The validation a probe of a content path gives.
pub open spec fn validation_of(path: Seq<u8>, probe: PathProbe, r: PathValidation) -> bool {
    &&& r.path.bytes() == path
    &&& match probe {
        PathProbe::MetadataFailed { kind, message } => r.status == status_for_failure(kind) && r.message
            == Some(message),
        PathProbe::ListingFailed { kind, message } => r.status == status_for_failure(kind) && r.message
            == Some(message),
        PathProbe::NotDirectory => r.status == PathValidationStatus::NotDirectory && (r.message matches Some(
            m,
        ) && m@ == "Configured content path is not a directory."@),
        PathProbe::Listed => r.status == PathValidationStatus::Accessible && r.message is None,
    }
}

/// Validate a configured content path from what probing it found: it must be a
/// directory whose contents can be listed.
pub fn validate_content_path(path: &PlatformPath, probe: PathProbe) -> (r: PathValidation)
    ensures
        validation_of(path.bytes(), probe, r),
{
    match probe {
        PathProbe::MetadataFailed { kind, message } => validation_from_io_error(path, kind, message),
        PathProbe::NotDirectory => PathValidation {
            path: PlatformPath(path.0.clone()),
            status: PathValidationStatus::NotDirectory,
            message: Some("Configured content path is not a directory.".to_string()),
        },
        PathProbe::ListingFailed { kind, message } => validation_from_io_error(path, kind, message),
        PathProbe::Listed => PathValidation {
            path: PlatformPath(path.0.clone()),
            status: PathValidationStatus::Accessible,
            message: None,
        },
    }
}

} // verus!
