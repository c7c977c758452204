//! Writing the settings document without losing what this version does not understand:
//! the fields the application owns are written into the existing document, and every
//! other field, at the top level and inside `contentPaths`, is kept as it was.

use vstd::prelude::*;

use crate::config::{wire_of, ContentPathsV1, PathWire, PathWireView, PlatformPath, SettingsV2, SETTINGS_SCHEMA_VERSION};
use crate::errors::{AppError, AppResult};
use crate::json::{
    items_view, json_view, lemma_first_key, lemma_members_view, law_put_then_lookup, lookup, members_view,
    put, put_member, first_key, JsonMember, JsonValue, JsonView,
};
use crate::preferences::{AudioPreference, LaunchPreferencesV1, RendererPreference, WindowPreference};
use crate::text::{decimal, decimal_string};

verus! {

broadcast use vstd::string::group_string_axioms;

/// Only the current settings schema is written.
pub fn check_persistable(settings: &SettingsV2) -> (r: AppResult<()>)
    ensures
        r is Ok <==> settings.schema_version == SETTINGS_SCHEMA_VERSION,
        r matches Err(e) ==> {
            &&& e.code@ == "CONFIG_SCHEMA_INVALID"@
            &&& e.details@.len() == 2
            &&& e.details@[0].key@ == "supportedVersion"@
            &&& e.details@[0].value@ == decimal(SETTINGS_SCHEMA_VERSION as nat)
            &&& e.details@[1].key@ == "foundVersion"@
            &&& e.details@[1].value@ == decimal(settings.schema_version as nat)
        },
{
    if settings.schema_version != SETTINGS_SCHEMA_VERSION {
        return Err(
            AppError::new("CONFIG_SCHEMA_INVALID", "Only the current settings schema can be persisted.").with_detail(
                "supportedVersion",
                decimal_string(SETTINGS_SCHEMA_VERSION as u64),
            ).with_detail("foundVersion", decimal_string(settings.schema_version as u64)),
        );
    }
    Ok(())
}

/// A path as written in the document: its text, or its encoding and hexadecimal data.
pub open spec fn wire_json(w: PathWireView) -> JsonView {
    match w {
        PathWireView::Utf8(s) => JsonView::String(s),
        PathWireView::Encoded(encoding, data) => JsonView::Object(
            seq![("encoding"@, JsonView::String(encoding)), ("data"@, JsonView::String(data))],
        ),
    }
}

/// The written forms of a list of paths, in order.
pub open spec fn paths_items(ps: Seq<PlatformPath>) -> Seq<JsonView>
    decreases ps.len(),
{
    if ps.len() == 0 {
        Seq::empty()
    } else {
        paths_items(ps.drop_last()).push(wire_json(wire_of(ps.last().bytes())))
    }
}

fn string_member(key: &str, value: String) -> (r: JsonMember)
    ensures
        r.key@ == key@,
        json_view(r.value) == JsonView::String(value@),
{
    JsonMember { key: key.to_owned(), value: JsonValue::String(value) }
}

/// A path as written in the document.
pub fn path_json(p: &PlatformPath) -> (r: JsonValue)
    ensures
        json_view(r) == wire_json(wire_of(p.bytes())),
{
    match p.to_wire() {
        PathWire::Utf8(s) => JsonValue::String(s),
        PathWire::Encoded { encoding, data } => {
            let mut members: Vec<JsonMember> = Vec::new();
            members.push(string_member("encoding", encoding));
            members.push(string_member("data", data));
            proof {
                lemma_members_view(members@);
                assert(members_view(members@) =~= seq![
                    ("encoding"@, JsonView::String(encoding@)),
                    ("data"@, JsonView::String(data@)),
                ]);
            }
            JsonValue::Object(members)
        },
    }
}

/// A list of paths as written in the document, in order.
pub fn paths_json(ps: &[PlatformPath]) -> (r: JsonValue)
    ensures
        json_view(r) == JsonView::Array(paths_items(ps@)),
{
    let mut out: Vec<JsonValue> = Vec::new();
    let mut k: usize = 0;
    while k < ps.len()
        invariant
            k <= ps@.len(),
            items_view(out@) == paths_items(ps@.take(k as int)),
        decreases ps.len() - k,
    {
        let v = path_json(&ps[k]);
        proof {
            assert(ps@.take(k + 1).drop_last() =~= ps@.take(k as int));
        }
        let ghost old_out = out@;
        out.push(v);
        proof {
            assert(out@.drop_last() =~= old_out);
        }
        k += 1;
    }
    proof {
        assert(ps@.take(ps@.len() as int) =~= ps@);
    }
    JsonValue::Array(out)
}

pub open spec fn rom_json(c: ContentPathsV1) -> JsonView {
    JsonView::Array(paths_items(c.rom_paths@))
}

pub open spec fn software_json(c: ContentPathsV1) -> JsonView {
    JsonView::Array(paths_items(c.software_paths@))
}

pub open spec fn chd_json(c: ContentPathsV1) -> JsonView {
    JsonView::Array(paths_items(c.chd_paths@))
}

/// The content paths written into an existing `contentPaths` object.
pub open spec fn content_paths_into(existing: Seq<(Seq<char>, JsonView)>, c: ContentPathsV1) -> Seq<(Seq<char>, JsonView)> {
    put(put(put(existing, "romPaths"@, rom_json(c)), "softwarePaths"@, software_json(c)), "chdPaths"@, chd_json(c))
}

/// The executable as written in the document.
pub open spec fn executable_json(o: Option<String>) -> JsonView {
    match o {
        Some(p) => JsonView::String(p@),
        None => JsonView::Null,
    }
}

pub open spec fn window_token(w: WindowPreference) -> Seq<char> {
    match w {
        WindowPreference::Inherit => "inherit"@,
        WindowPreference::Windowed => "windowed"@,
        WindowPreference::Fullscreen => "fullscreen"@,
    }
}

pub open spec fn renderer_token(r: RendererPreference) -> Seq<char> {
    match r {
        RendererPreference::Inherit => "inherit"@,
        RendererPreference::Auto => "auto"@,
        RendererPreference::Bgfx => "bgfx"@,
        RendererPreference::OpenGl => "openGl"@,
        RendererPreference::Software => "software"@,
    }
}

pub open spec fn audio_token(a: AudioPreference) -> Seq<char> {
    match a {
        AudioPreference::Inherit => "inherit"@,
        AudioPreference::Auto => "auto"@,
        AudioPreference::Disabled => "disabled"@,
    }
}

/// The launch preferences as written in the document.
pub open spec fn preferences_json(p: LaunchPreferencesV1) -> JsonView {
    JsonView::Object(
        seq![
            ("windowMode"@, JsonView::String(window_token(p.window_mode))),
            ("renderer"@, JsonView::String(renderer_token(p.renderer))),
            ("audio"@, JsonView::String(audio_token(p.audio))),
        ],
    )
}

fn window_text(w: WindowPreference) -> (r: &'static str)
    ensures
        r@ == window_token(w),
{
    match w {
        WindowPreference::Inherit => "inherit",
        WindowPreference::Windowed => "windowed",
        WindowPreference::Fullscreen => "fullscreen",
    }
}

fn renderer_text(r: RendererPreference) -> (t: &'static str)
    ensures
        t@ == renderer_token(r),
{
    match r {
        RendererPreference::Inherit => "inherit",
        RendererPreference::Auto => "auto",
        RendererPreference::Bgfx => "bgfx",
        RendererPreference::OpenGl => "openGl",
        RendererPreference::Software => "software",
    }
}

fn audio_text(a: AudioPreference) -> (r: &'static str)
    ensures
        r@ == audio_token(a),
{
    match a {
        AudioPreference::Inherit => "inherit",
        AudioPreference::Auto => "auto",
        AudioPreference::Disabled => "disabled",
    }
}

/// The launch preferences as written in the document.
pub fn preferences_value(p: &LaunchPreferencesV1) -> (r: JsonValue)
    ensures
        json_view(r) == preferences_json(*p),
{
    let mut members: Vec<JsonMember> = Vec::new();
    members.push(string_member("windowMode", window_text(p.window_mode).to_owned()));
    members.push(string_member("renderer", renderer_text(p.renderer).to_owned()));
    members.push(string_member("audio", audio_text(p.audio).to_owned()));
    proof {
        lemma_members_view(members@);
        assert(members_view(members@) =~= seq![
            ("windowMode"@, JsonView::String(window_token(p.window_mode))),
            ("renderer"@, JsonView::String(renderer_token(p.renderer))),
            ("audio"@, JsonView::String(audio_token(p.audio))),
        ]);
    }
    JsonValue::Object(members)
}

/// The document's members after the settings are written into them.
pub open spec fn merged_root(base: Seq<(Seq<char>, JsonView)>, s: SettingsV2) -> Seq<(Seq<char>, JsonView)> {
    let r1 = put(base, "schemaVersion"@, JsonView::Number(decimal(SETTINGS_SCHEMA_VERSION as nat)));
    let r2 = put(r1, "mameExecutable"@, executable_json(s.mame_executable));
    let fresh = seq![
        ("romPaths"@, rom_json(s.content_paths)),
        ("softwarePaths"@, software_json(s.content_paths)),
        ("chdPaths"@, chd_json(s.content_paths)),
    ];
    let r3 = match lookup(r2, "contentPaths"@) {
        Some(JsonView::Object(existing)) => put(
            r2,
            "contentPaths"@,
            JsonView::Object(content_paths_into(existing, s.content_paths)),
        ),
        _ => put(r2, "contentPaths"@, JsonView::Object(fresh)),
    };
    put(r3, "launchPreferences"@, preferences_json(s.launch_preferences))
}

/// Write the settings into an existing document (an empty object when there is none):
/// the schema version, executable, content paths and launch preferences are set, and
/// every other member is kept. The document must be a JSON object.
pub fn merge_settings_value(base: JsonValue, settings: &SettingsV2) -> (r: AppResult<JsonValue>)
    ensures
        r is Ok <==> json_view(base) is Object,
        r matches Ok(v) ==> json_view(v) == JsonView::Object(merged_root(json_view(base)->Object_0, *settings)),
        r matches Err(e) ==> e.code@ == "CONFIG_SCHEMA_INVALID"@,
{
    let mut root = match base {
        JsonValue::Object(members) => members,
        _ => {
            return Err(
                AppError::new(
                    "CONFIG_SCHEMA_INVALID",
                    "The application settings document root must be a JSON object.",
                ),
            );
        },
    };
    let ghost base_view = members_view(root@);
    put_member(&mut root, "schemaVersion", JsonValue::Number(decimal_string(SETTINGS_SCHEMA_VERSION as u64)));
    let executable = match &settings.mame_executable {
        Some(p) => JsonValue::String(p.clone()),
        None => JsonValue::Null,
    };
    put_member(&mut root, "mameExecutable", executable);
    let ghost r2 = members_view(root@);
    let ghost root2 = root@;
    let mut i: usize = 0;
    while i < root.len() && !crate::text::str_equal(root[i].key.as_str(), "contentPaths")
        invariant
            i <= root@.len(),
            root@ == root2,
            forall|j: int| 0 <= j < i ==> #[trigger] root@[j].key@ != "contentPaths"@,
        decreases root.len() - i,
    {
        i += 1;
    }
    proof {
        lemma_members_view(root2);
        lemma_first_key(r2, "contentPaths"@);
    }
    if i < root.len() {
        proof {
            assert(root2[i as int].key@ == "contentPaths"@);
            assert(first_key(r2, "contentPaths"@) == Some(i as int)) by {
                match first_key(r2, "contentPaths"@) {
                    Some(j) => {
                        if j < i {
                            assert(r2[j].0 == root2[j].key@);
                        }
                        if i < j {
                            assert(r2[i as int].0 == root2[i as int].key@);
                        }
                    },
                    None => {
                        assert(r2[i as int].0 == root2[i as int].key@);
                    },
                }
            }
        }
        let member = root.remove(i);
        let ghost old_value = json_view(member.value);
        let new_value = match member.value {
            JsonValue::Object(existing) => {
                let mut existing = existing;
                put_member(&mut existing, "romPaths", paths_json(settings.content_paths.rom_paths.as_slice()));
                put_member(
                    &mut existing,
                    "softwarePaths",
                    paths_json(settings.content_paths.software_paths.as_slice()),
                );
                put_member(&mut existing, "chdPaths", paths_json(settings.content_paths.chd_paths.as_slice()));
                JsonValue::Object(existing)
            },
            _ => fresh_content_paths(&settings.content_paths),
        };
        let ghost nv = json_view(new_value);
        root.insert(i, JsonMember { key: member.key, value: new_value });
        proof {
            lemma_members_view(root@);
            assert(root@ =~= root2.update(i as int, root@[i as int]));
            assert(members_view(root@) =~= r2.update(i as int, ("contentPaths"@, nv)));
        }
    } else {
        proof {
            assert(first_key(r2, "contentPaths"@) is None) by {
                match first_key(r2, "contentPaths"@) {
                    Some(j) => {
                        assert(r2[j].0 == root2[j].key@);
                    },
                    None => {},
                }
            }
        }
        put_member(&mut root, "contentPaths", fresh_content_paths(&settings.content_paths));
    }
    put_member(&mut root, "launchPreferences", preferences_value(&settings.launch_preferences));
    Ok(JsonValue::Object(root))
}

/// A new `contentPaths` object holding the three lists.
fn fresh_content_paths(c: &ContentPathsV1) -> (r: JsonValue)
    ensures
        json_view(r) == JsonView::Object(
            seq![("romPaths"@, rom_json(*c)), ("softwarePaths"@, software_json(*c)), ("chdPaths"@, chd_json(*c))],
        ),
{
    let mut members: Vec<JsonMember> = Vec::new();
    members.push(JsonMember { key: "romPaths".to_owned(), value: paths_json(c.rom_paths.as_slice()) });
    members.push(JsonMember { key: "softwarePaths".to_owned(), value: paths_json(c.software_paths.as_slice()) });
    members.push(JsonMember { key: "chdPaths".to_owned(), value: paths_json(c.chd_paths.as_slice()) });
    proof {
        lemma_members_view(members@);
        assert(members_view(members@) =~= seq![
            ("romPaths"@, rom_json(*c)),
            ("softwarePaths"@, software_json(*c)),
            ("chdPaths"@, chd_json(*c)),
        ]);
    }
    JsonValue::Object(members)
}

/// The top-level members the application owns.
pub open spec fn owned_key(k: Seq<char>) -> bool {
    k == "schemaVersion"@ || k == "mameExecutable"@ || k == "contentPaths"@ || k == "launchPreferences"@
}

/// The members of `contentPaths` the application owns.
pub open spec fn owned_path_key(k: Seq<char>) -> bool {
    k == "romPaths"@ || k == "softwarePaths"@ || k == "chdPaths"@
}

/// The members of the document's `contentPaths` object, when it has one.
pub open spec fn existing_paths(base: Seq<(Seq<char>, JsonView)>) -> Option<Seq<(Seq<char>, JsonView)>> {
    match lookup(base, "contentPaths"@) {
        Some(JsonView::Object(e)) => Some(e),
        _ => None,
    }
}

/// Writing settings keeps every member this version does not own, at the top level and
/// inside an existing `contentPaths` object, and reading the owned members back gives
/// what was written.
pub proof fn law_unknown_fields_are_preserved(base: Seq<(Seq<char>, JsonView)>, s: SettingsV2, k: Seq<char>, nested: Seq<char>)
    ensures
        !owned_key(k) ==> lookup(merged_root(base, s), k) == lookup(base, k),
        lookup(merged_root(base, s), "schemaVersion"@) == Some(
            JsonView::Number(decimal(SETTINGS_SCHEMA_VERSION as nat)),
        ),
        lookup(merged_root(base, s), "mameExecutable"@) == Some(executable_json(s.mame_executable)),
        lookup(merged_root(base, s), "launchPreferences"@) == Some(preferences_json(s.launch_preferences)),
        lookup(merged_root(base, s), "contentPaths"@) matches Some(JsonView::Object(cp)) && {
            &&& lookup(cp, "romPaths"@) == Some(rom_json(s.content_paths))
            &&& lookup(cp, "softwarePaths"@) == Some(software_json(s.content_paths))
            &&& lookup(cp, "chdPaths"@) == Some(chd_json(s.content_paths))
            &&& (existing_paths(base) is Some && !owned_path_key(nested)) ==> lookup(cp, nested) == lookup(
                existing_paths(base)->0,
                nested,
            )
        },
{
    reveal_strlit("schemaVersion");
    reveal_strlit("mameExecutable");
    reveal_strlit("contentPaths");
    reveal_strlit("launchPreferences");
    reveal_strlit("romPaths");
    reveal_strlit("softwarePaths");
    reveal_strlit("chdPaths");
    assert("schemaVersion"@.len() == 13 && "mameExecutable"@.len() == 14 && "contentPaths"@.len() == 12);
    assert("launchPreferences"@.len() == 17 && "romPaths"@.len() == 8 && "softwarePaths"@.len() == 13);
    assert("chdPaths"@.len() == 8 && "romPaths"@[0] != "chdPaths"@[0]);
    let sv = JsonView::Number(decimal(SETTINGS_SCHEMA_VERSION as nat));
    let r1 = put(base, "schemaVersion"@, sv);
    let r2 = put(r1, "mameExecutable"@, executable_json(s.mame_executable));
    let c = s.content_paths;
    let fresh = seq![("romPaths"@, rom_json(c)), ("softwarePaths"@, software_json(c)), ("chdPaths"@, chd_json(c))];
    let cpv = match lookup(r2, "contentPaths"@) {
        Some(JsonView::Object(existing)) => JsonView::Object(content_paths_into(existing, c)),
        _ => JsonView::Object(fresh),
    };
    let r3 = put(r2, "contentPaths"@, cpv);
    let r4 = put(r3, "launchPreferences"@, preferences_json(s.launch_preferences));
    assert(merged_root(base, s) == r4);
    law_put_then_lookup(base, "schemaVersion"@, sv, k);
    law_put_then_lookup(r1, "mameExecutable"@, executable_json(s.mame_executable), k);
    law_put_then_lookup(r2, "contentPaths"@, cpv, k);
    law_put_then_lookup(r3, "launchPreferences"@, preferences_json(s.launch_preferences), k);
    law_put_then_lookup(r1, "mameExecutable"@, executable_json(s.mame_executable), "schemaVersion"@);
    law_put_then_lookup(r2, "contentPaths"@, cpv, "schemaVersion"@);
    law_put_then_lookup(r3, "launchPreferences"@, preferences_json(s.launch_preferences), "schemaVersion"@);
    law_put_then_lookup(r2, "contentPaths"@, cpv, "mameExecutable"@);
    law_put_then_lookup(r3, "launchPreferences"@, preferences_json(s.launch_preferences), "mameExecutable"@);
    law_put_then_lookup(r3, "launchPreferences"@, preferences_json(s.launch_preferences), "contentPaths"@);
    law_put_then_lookup(base, "schemaVersion"@, sv, "contentPaths"@);
    law_put_then_lookup(r1, "mameExecutable"@, executable_json(s.mame_executable), "contentPaths"@);
    match lookup(r2, "contentPaths"@) {
        Some(JsonView::Object(existing)) => {
            let e1 = put(existing, "romPaths"@, rom_json(c));
            let e2 = put(e1, "softwarePaths"@, software_json(c));
            let e3 = put(e2, "chdPaths"@, chd_json(c));
            law_put_then_lookup(existing, "romPaths"@, rom_json(c), nested);
            law_put_then_lookup(e1, "softwarePaths"@, software_json(c), nested);
            law_put_then_lookup(e2, "chdPaths"@, chd_json(c), nested);
            law_put_then_lookup(e1, "softwarePaths"@, software_json(c), "romPaths"@);
            law_put_then_lookup(e2, "chdPaths"@, chd_json(c), "romPaths"@);
            law_put_then_lookup(e2, "chdPaths"@, chd_json(c), "softwarePaths"@);
        },
        _ => {
            lemma_first_key(fresh, "romPaths"@);
            lemma_first_key(fresh, "softwarePaths"@);
            lemma_first_key(fresh, "chdPaths"@);
            assert(fresh[0].0 == "romPaths"@);
            assert(fresh[1].0 == "softwarePaths"@);
            assert(fresh[2].0 == "chdPaths"@);
        },
    }
}

} // verus!
