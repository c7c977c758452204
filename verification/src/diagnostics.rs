//! Structured diagnostics: support categories of error codes, bounded log text, the
//! catalog schema report and the bounded ring of recent log entries.

use vstd::prelude::*;

use crate::json::{items_view, json_view, members_view, JsonMember, JsonValue, JsonView};
use crate::software_list::ascii_lower;
use crate::text::{chars_of, contains, contains_str, ends_with, ends_with_str, starts_with, starts_with_str, str_equal, string_from};

verus! {

broadcast use vstd::string::group_string_axioms;

pub const RECENT_LOG_LIMIT: usize = 200;

/// The support category of an error code, decided by its prefix.
pub open spec fn category_of(code: Seq<char>) -> Seq<char> {
    if starts_with(code, "CONFIG_"@) || starts_with(code, "PATH_"@) {
        "configuration"@
    } else if starts_with(code, "CATALOG_"@) || starts_with(code, "METADATA_"@) || starts_with(
        code,
        "LIBRARY_"@,
    ) || contains(code, "AUDIT"@) {
        "data"@
    } else if starts_with(code, "MAME_"@) || starts_with(code, "SESSION_"@) || starts_with(
        code,
        "CONTROL_"@,
    ) || starts_with(code, "SAVE_"@) || starts_with(code, "LOAD_"@) {
        "runtime"@
    } else if starts_with(code, "ARTWORK_"@) {
        "artwork"@
    } else if starts_with(code, "DIAGNOSTICS_"@) {
        "diagnostics"@
    } else if starts_with(code, "APP_"@) || code == "UNSUPPORTED_PROTOCOL_VERSION"@ {
        "application"@
    } else {
        "backend"@
    }
}

/// The support category a log entry for this error code is filed under.
pub fn error_category(code: &str) -> (r: &'static str)
    ensures
        r@ == category_of(code@),
{
    let c = chars_of(code);
    let c = c.as_slice();
    if starts_with_str(c, "CONFIG_") || starts_with_str(c, "PATH_") {
        "configuration"
    } else if starts_with_str(c, "CATALOG_") || starts_with_str(c, "METADATA_") || starts_with_str(
        c,
        "LIBRARY_",
    ) || contains_str(c, "AUDIT") {
        "data"
    } else if starts_with_str(c, "MAME_") || starts_with_str(c, "SESSION_") || starts_with_str(
        c,
        "CONTROL_",
    ) || starts_with_str(c, "SAVE_") || starts_with_str(c, "LOAD_") {
        "runtime"
    } else if starts_with_str(c, "ARTWORK_") {
        "artwork"
    } else if starts_with_str(c, "DIAGNOSTICS_") {
        "diagnostics"
    } else if starts_with_str(c, "APP_") || str_equal(code, "UNSUPPORTED_PROTOCOL_VERSION") {
        "application"
    } else {
        "backend"
    }
}

/// The first `limit` characters of `s` (all of them when it is shorter).
pub open spec fn take_chars(s: Seq<char>, limit: nat) -> Seq<char> {
    if s.len() <= limit {
        s
    } else {
        s.take(limit as int)
    }
}

/// At most `limit` characters of a value, cut at a character boundary.
pub fn bounded_text(value: &str, limit: usize) -> (r: String)
    ensures
        r@ == take_chars(value@, limit as nat),
{
    let chars = chars_of(value);
    let n: usize = if chars.len() <= limit {
        chars.len()
    } else {
        limit
    };
    let kept = crate::text::slice_range(chars.as_slice(), 0, n);
    assert(chars@.len() <= limit ==> chars@.take(n as int) =~= chars@);
    string_from(kept.as_slice())
}

/// The catalog schema as the diagnostics report it.
#[derive(Debug, Clone, PartialEq, Eq)]
pub struct CatalogSchemaDiagnostics {
    pub supported_version: i64,
    pub current_version: Option<i64>,
    pub migration_state: String,
    pub error_code: Option<String>,
}

/// What inspecting the catalog found.
#[derive(Debug, Clone, Copy, PartialEq, Eq, Structural)]
pub enum CatalogSchemaObservation {
    /// There is no catalog file yet.
    Missing,
    /// The catalog could not be opened or read.
    Unreadable,
    /// The version table is absent: a catalog from before versioning.
    Unversioned,
    /// The version table is present; its single row, if any.
    Versioned(Option<i64>),
}

/// The migration state for a stored version against the supported one.
pub open spec fn migration_state_of(supported: i64, current: Option<i64>) -> Seq<char> {
    match current {
        Some(v) => if v == supported {
            "current"@
        } else if v < supported {
            "migrationRequired"@
        } else {
            "newerThanSupported"@
        },
        None => "invalid"@,
    }
}

/// The report when the catalog could not be inspected.
pub fn unavailable_catalog_schema(supported_version: i64) -> (r: CatalogSchemaDiagnostics)
    ensures
        r.supported_version == supported_version,
        r.current_version is None,
        r.migration_state@ == "unavailable"@,
        r.error_code matches Some(c) && c@ == "CATALOG_SCHEMA_INSPECTION_FAILED"@,
{
    CatalogSchemaDiagnostics {
        supported_version,
        current_version: None,
        migration_state: "unavailable".to_owned(),
        error_code: Some("CATALOG_SCHEMA_INSPECTION_FAILED".to_owned()),
    }
}

/// The schema report for what inspecting the catalog found.
pub fn catalog_schema_diagnostics(supported_version: i64, observed: CatalogSchemaObservation) -> (r:
    CatalogSchemaDiagnostics)
    ensures
        r.supported_version == supported_version,
        match observed {
            CatalogSchemaObservation::Missing => r.current_version is None && r.migration_state@
                == "notInitialized"@ && r.error_code is None,
            CatalogSchemaObservation::Unreadable => r.current_version is None && r.migration_state@
                == "unavailable"@ && (r.error_code matches Some(c) && c@
                == "CATALOG_SCHEMA_INSPECTION_FAILED"@),
            CatalogSchemaObservation::Unversioned => r.current_version == Some(0i64)
                && r.migration_state@ == migration_state_of(supported_version, Some(0i64))
                && r.error_code is None,
            CatalogSchemaObservation::Versioned(v) => r.current_version == v && r.migration_state@
                == migration_state_of(supported_version, v) && (v is None <==> r.error_code is Some)
                && (r.error_code matches Some(c) ==> c@ == "CATALOG_SCHEMA_INVALID"@),
        },
{
    let current_version = match observed {
        CatalogSchemaObservation::Missing => {
            return CatalogSchemaDiagnostics {
                supported_version,
                current_version: None,
                migration_state: "notInitialized".to_owned(),
                error_code: None,
            };
        },
        CatalogSchemaObservation::Unreadable => {
            return unavailable_catalog_schema(supported_version);
        },
        CatalogSchemaObservation::Unversioned => Some(0i64),
        CatalogSchemaObservation::Versioned(v) => v,
    };
    let migration_state = match current_version {
        Some(v) => if v == supported_version {
            "current"
        } else if v < supported_version {
            "migrationRequired"
        } else {
            "newerThanSupported"
        },
        None => "invalid",
    };
    CatalogSchemaDiagnostics {
        supported_version,
        current_version,
        migration_state: migration_state.to_owned(),
        error_code: match current_version {
            None => Some("CATALOG_SCHEMA_INVALID".to_owned()),
            Some(_) => None,
        },
    }
}

/// Where a diagnostics bundle was written.
#[derive(Debug, Clone, PartialEq, Eq)]
pub struct DiagnosticsExportResult {
    pub schema_version: u32,
    pub path: String,
}

/// The file name of a diagnostics bundle made at a given time.
pub fn diagnostics_bundle_name(epoch_ms: u64) -> (r: String)
    ensures
        r@ == "diagnostics-"@ + crate::text::decimal(epoch_ms as nat) + ".json"@,
{
    let head = crate::text::concat_strs("diagnostics-", crate::text::decimal_string(epoch_ms).as_str());
    crate::text::concat_strs(head.as_str(), ".json")
}

/// The result reported for a bundle written to `path`.
pub fn diagnostics_export_result(path: String) -> (r: DiagnosticsExportResult)
    ensures
        r.schema_version == 1 && r.path == path,
{
    DiagnosticsExportResult { schema_version: 1, path }
}

/// ASCII letters lowered, other characters kept, as `str::to_ascii_lowercase`.
pub open spec fn lower_ascii(s: Seq<char>) -> Seq<char> {
    Seq::new(s.len(), |i: int| ascii_lower(s[i]))
}

pub fn lower_ascii_chars(v: &[char]) -> (r: Vec<char>)
    ensures
        r@ == lower_ascii(v@),
{
    let mut out: Vec<char> = Vec::new();
    let mut i: usize = 0;
    while i < v.len()
        invariant
            i <= v@.len(),
            out@.len() == i,
            forall|j: int| 0 <= j < i ==> out@[j] == ascii_lower(v@[j]),
        decreases v.len() - i,
    {
        let l = crate::software_list::ascii_lower_exec(v[i]);
        out.push(l);
        i += 1;
    }
    assert(out@ =~= lower_ascii(v@));
    out
}

/// A context key whose value must never be logged.
pub open spec fn secret_key(k: Seq<char>) -> bool {
    contains(lower_ascii(k), "token"@) || contains(lower_ascii(k), "password"@) || contains(
        lower_ascii(k),
        "secret"@,
    )
}

/// A context key that names a filesystem path, which is not logged either.
pub open spec fn path_key(k: Seq<char>) -> bool {
    ends_with(lower_ascii(k), "path"@) || ends_with(lower_ascii(k), "paths"@)
}

/// A log context with secrets redacted, paths hidden and strings cut to 512 characters,
/// at every depth.
pub open spec fn sanitized(v: JsonView) -> JsonView
    decreases v, 0nat,
{
    match v {
        JsonView::Object(ms) => JsonView::Object(sanitized_members(ms)),
        JsonView::Array(items) => JsonView::Array(sanitized_items(items)),
        JsonView::String(s) => JsonView::String(take_chars(s, 512)),
        _ => v,
    }
}

pub open spec fn sanitized_items(items: Seq<JsonView>) -> Seq<JsonView>
    decreases items, items.len(),
{
    if items.len() == 0 {
        Seq::empty()
    } else {
        proof {
            vstd::seq::axiom_seq_index_decreases(items, items.len() - 1);
            vstd::seq::axiom_seq_subrange_decreases(items, 0, items.len() - 1);
        }
        sanitized_items(items.drop_last()).push(sanitized(items.last()))
    }
}

pub open spec fn sanitized_members(ms: Seq<(Seq<char>, JsonView)>) -> Seq<(Seq<char>, JsonView)>
    decreases ms, ms.len(),
{
    if ms.len() == 0 {
        Seq::empty()
    } else {
        proof {
            vstd::seq::axiom_seq_index_decreases(ms, ms.len() - 1);
            vstd::seq::axiom_seq_subrange_decreases(ms, 0, ms.len() - 1);
        }
        let k = ms.last().0;
        sanitized_members(ms.drop_last()).push(
            (
                k,
                if secret_key(k) {
                    JsonView::String("<redacted>"@)
                } else if path_key(k) {
                    JsonView::String("<path>"@)
                } else {
                    sanitized(ms.last().1)
                },
            ),
        )
    }
}

fn is_secret_key(key: &str) -> (b: bool)
    ensures
        b == secret_key(key@),
{
    let chars = chars_of(key);
    let lower = lower_ascii_chars(chars.as_slice());
    contains_str(lower.as_slice(), "token") || contains_str(lower.as_slice(), "password") || contains_str(
        lower.as_slice(),
        "secret",
    )
}

fn is_path_key(key: &str) -> (b: bool)
    ensures
        b == path_key(key@),
{
    let chars = chars_of(key);
    let lower = lower_ascii_chars(chars.as_slice());
    ends_with_str(lower.as_slice(), "path") || ends_with_str(lower.as_slice(), "paths")
}

/// Sanitize a log context: secret-bearing keys are redacted, path keys hidden, strings
/// bounded, at every depth; the keys and their order are kept.
pub fn sanitize_context(value: &JsonValue) -> (r: JsonValue)
    ensures
        json_view(r) == sanitized(json_view(*value)),
    decreases value,
{
    match value {
        JsonValue::Object(members) => {
            let mut out: Vec<JsonMember> = Vec::new();
            let mut k: usize = 0;
            while k < members.len()
                invariant
                    *value == JsonValue::Object(*members),
                    k <= members@.len(),
                    members_view(out@) == sanitized_members(members_view(members@.take(k as int))),
                decreases members.len() - k,
            {
                let m = &members[k];
                let v = if is_secret_key(m.key.as_str()) {
                    JsonValue::String("<redacted>".to_string())
                } else if is_path_key(m.key.as_str()) {
                    JsonValue::String("<path>".to_string())
                } else {
                    proof {
                        vstd::std_specs::vec::axiom_vec_index_decreases(*members, k as int);
                        assert(decreases_to!(*value => (*value)->Object_0));
                        assert(decreases_to!(*members => members@[k as int]));
                        assert(decreases_to!(members@[k as int] => members@[k as int].value));
                    }
                    sanitize_context(&m.value)
                };
                let ghost before = members@.take(k as int);
                let ghost after = members@.take(k + 1);
                let ghost mv = members_view(before);
                proof {
                    reveal_strlit("<redacted>");
                    reveal_strlit("<path>");
                    assert(after.drop_last() =~= before);
                    assert(after.last() == members@[k as int]);
                    assert(members_view(after) == mv.push((m.key@, json_view(m.value))));
                    assert(mv.push((m.key@, json_view(m.value))).drop_last() =~= mv);
                }
                let ghost old_out = out@;
                let key = m.key.clone();
                out.push(JsonMember { key, value: v });
                proof {
                    assert(out@.drop_last() =~= old_out);
                    assert(members_view(out@) == members_view(old_out).push((m.key@, json_view(v))));
                }
                k += 1;
            }
            proof {
                assert(members@.take(members@.len() as int) =~= members@);
            }
            JsonValue::Object(out)
        },
        JsonValue::Array(items) => {
            let mut out: Vec<JsonValue> = Vec::new();
            let mut k: usize = 0;
            while k < items.len()
                invariant
                    *value == JsonValue::Array(*items),
                    k <= items@.len(),
                    items_view(out@) == sanitized_items(items_view(items@.take(k as int))),
                decreases items.len() - k,
            {
                proof {
                    vstd::std_specs::vec::axiom_vec_index_decreases(*items, k as int);
                    assert(decreases_to!(*value => (*value)->Array_0));
                    assert(decreases_to!(*items => items@[k as int]));
                }
                let v = sanitize_context(&items[k]);
                let ghost before = items@.take(k as int);
                let ghost after = items@.take(k + 1);
                let ghost iv = items_view(before);
                proof {
                    assert(after.drop_last() =~= before);
                    assert(after.last() == items@[k as int]);
                    assert(items_view(after) == iv.push(json_view(items@[k as int])));
                    assert(iv.push(json_view(items@[k as int])).drop_last() =~= iv);
                }
                let ghost old_out = out@;
                out.push(v);
                proof {
                    assert(out@.drop_last() =~= old_out);
                    assert(items_view(out@) == items_view(old_out).push(json_view(v)));
                }
                k += 1;
            }
            proof {
                assert(items@.take(items@.len() as int) =~= items@);
            }
            JsonValue::Array(out)
        },
        JsonValue::String(s) => JsonValue::String(bounded_text(s.as_str(), 512)),
        JsonValue::Null => JsonValue::Null,
        JsonValue::Bool(b) => JsonValue::Bool(*b),
        JsonValue::Number(n) => JsonValue::Number(n.clone()),
    }
}

/// A sanitized object keeps its keys in order, and every member whose key names a
/// token, password or secret is logged only as `<redacted>`.
pub proof fn law_secrets_are_redacted(ms: Seq<(Seq<char>, JsonView)>, i: int)
    requires
        0 <= i < ms.len(),
    ensures
        sanitized_members(ms).len() == ms.len(),
        sanitized_members(ms)[i].0 == ms[i].0,
        secret_key(ms[i].0) ==> sanitized_members(ms)[i].1 == JsonView::String("<redacted>"@),
        !secret_key(ms[i].0) && path_key(ms[i].0) ==> sanitized_members(ms)[i].1 == JsonView::String("<path>"@),
    decreases ms.len(),
{
    if i < ms.len() - 1 {
        law_secrets_are_redacted(ms.drop_last(), i);
    } else {
        if ms.len() > 1 {
            law_secrets_are_redacted(ms.drop_last(), 0);
        } else {
            assert(ms.drop_last().len() == 0);
            assert(sanitized_members(ms.drop_last()).len() == 0);
        }
    }
}

/// One structured diagnostics entry.
#[derive(Debug, PartialEq, Eq)]
pub struct DiagnosticLogEntry {
    pub timestamp_epoch_ms: u64,
    pub level: String,
    pub category: String,
    pub message: String,
    pub context: JsonValue,
}

/// A diagnostics entry as it is recorded: its texts bounded and its context sanitized.
pub fn log_entry(timestamp_epoch_ms: u64, level: &str, category: &str, message: &str, context: &JsonValue) -> (r:
    DiagnosticLogEntry)
    ensures
        r.timestamp_epoch_ms == timestamp_epoch_ms,
        r.level@ == take_chars(level@, 32),
        r.category@ == take_chars(category@, 96),
        r.message@ == take_chars(message@, 1024),
        json_view(r.context) == sanitized(json_view(*context)),
{
    DiagnosticLogEntry {
        timestamp_epoch_ms,
        level: bounded_text(level, 32),
        category: bounded_text(category, 96),
        message: bounded_text(message, 1024),
        context: sanitize_context(context),
    }
}

/// The entry recorded for an error: level `error`, filed under the code's support
/// category, with the (bounded) code as its only context.
pub fn error_log_entry(timestamp_epoch_ms: u64, code: &str, message: &str) -> (r: DiagnosticLogEntry)
    ensures
        r.level@ == "error"@,
        r.category@ == category_of(code@),
        r.message@ == take_chars(message@, 1024),
        json_view(r.context) == sanitized(
            JsonView::Object(seq![("code"@, JsonView::String(take_chars(code@, 128)))]),
        ),
{
    let mut members: Vec<JsonMember> = Vec::new();
    let key = "code".to_owned();
    let bounded = bounded_text(code, 128);
    let ghost bounded_view = bounded@;
    members.push(JsonMember { key, value: JsonValue::String(bounded) });
    let context = JsonValue::Object(members);
    proof {
        reveal_strlit("error");
        assert(members@.len() == 1);
        assert(members@.drop_last().len() == 0);
        assert(members_view(members@.drop_last()).len() == 0);
        assert(json_view(members@[0].value) == JsonView::String(bounded_view));
        assert(members_view(members@) =~= seq![("code"@, JsonView::String(take_chars(code@, 128)))]);
        assert(take_chars("error"@, 32) == "error"@);
        reveal_strlit("configuration");
        reveal_strlit("data");
        reveal_strlit("runtime");
        reveal_strlit("artwork");
        reveal_strlit("diagnostics");
        reveal_strlit("application");
        reveal_strlit("backend");
        assert(take_chars(category_of(code@), 96) == category_of(code@));
    }
    log_entry(timestamp_epoch_ms, "error", error_category(code), message, &context)
}

} // verus!
