//! Safe construction of MAME command-line argument vectors.
//!
//! Frontend input never becomes a shell command string: every argument is a
//! discrete, validated entry.

use vstd::prelude::*;

use crate::errors::{AppError, AppResult};
use crate::config_persistence::{audio_token, renderer_token, window_token};
use crate::diagnostics::lower_ascii;
use crate::software_list::ascii_lower;
use crate::preferences::{AudioPreference, LaunchPreferencesV1, RendererPreference, WindowPreference};
use crate::text::{
    chars_of, concat_strs, contains, decimal, decimal_string,
    occurs_at, split_char, split_chars, string_from, utf8_len,
};

verus! {

broadcast use vstd::string::group_string_axioms;

/// Longest machine, item or part identifier MAME accepts.
pub const MAX_IDENTIFIER_SEGMENT_LEN: usize = 16;

/// Longest software-list identifier.
pub const MAX_SOFTWARE_LIST_IDENTIFIER_LEN: usize = 64;

/// What to launch: a machine, optionally software for it, and project-owned paths.
#[derive(Debug, Clone, PartialEq, Eq)]
pub struct MameLaunchTarget {
    pub machine: String,
    pub software: Option<String>,
    pub project_paths: Vec<ProjectPathArgument>,
}

/// A MAME path option (`-rompath` and so on) with one project-controlled path.
#[derive(Debug, Clone, PartialEq, Eq)]
pub struct ProjectPathArgument {
    pub option: String,
    pub path: String,
}

/// A validated MAME argument vector (without the executable).
#[derive(Debug, Clone, PartialEq, Eq)]
pub struct MameArgv {
    args: Vec<String>,
}

impl MameArgv {
    pub closed spec fn view_args(&self) -> Seq<Seq<char>> {
        self.args.deep_view()
    }

    pub fn as_slice(&self) -> (r: &[String])
        ensures
            r.deep_view() == self.view_args(),
    {
        self.args.as_slice()
    }

    pub fn into_vec(self) -> (r: Vec<String>)
        ensures
            r.deep_view() == self.view_args(),
    {
        self.args
    }
}

/// Lowercase ASCII letter, decimal digit or underscore.
pub open spec fn is_identifier_char(c: char) -> bool {
    let u = c as u32;
    (0x61 <= u <= 0x7A) || (0x30 <= u <= 0x39) || u == 0x5F
}

pub open spec fn identifier_chars(s: Seq<char>) -> bool {
    forall|i: int| 0 <= i < s.len() ==> is_identifier_char(#[trigger] s[i])
}

/// A non-empty identifier of at most `max_len` bytes made of identifier characters.
pub open spec fn valid_identifier_segment(s: Seq<char>, max_len: int) -> bool {
    s.len() > 0 && utf8_len(s) <= max_len && identifier_chars(s)
}

/// Why a segment is rejected, in the order the checks are made.
pub open spec fn identifier_reason(s: Seq<char>, max_len: nat) -> Seq<char> {
    if s.len() == 0 {
        "Identifier must not be empty."@
    } else if utf8_len(s) > max_len {
        "Identifier exceeds the supported "@ + decimal(max_len) + "-character limit."@
    } else {
        "Identifier may contain only lowercase ASCII letters, decimal digits, and underscores."@
    }
}

/// The error for a rejected identifier: its field, value and reason.
pub open spec fn is_identifier_error(e: AppError, field: Seq<char>, value: Seq<char>, reason: Seq<char>) -> bool {
    &&& e.code@ == "MAME_IDENTIFIER_INVALID"@
    &&& e.message@ == "The "@ + field + " identifier is invalid."@
    &&& e.details@.len() == 3
    &&& e.details@[0].key@ == "field"@ && e.details@[0].value@ == field
    &&& e.details@[1].key@ == "value"@ && e.details@[1].value@ == value
    &&& e.details@[2].key@ == "reason"@ && e.details@[2].value@ == reason
}

/// A software target: `item`, or `list:item` / `list:item:part`.
pub open spec fn valid_software_identifier(s: Seq<char>) -> bool {
    let segments = split_char(s, ':');
    &&& s.len() > 0
    &&& segments.len() <= 3
    &&& segments.len() == 1 ==> valid_identifier_segment(segments[0], 16)
    &&& segments.len() > 1 ==> {
        &&& valid_identifier_segment(segments[0], 64)
        &&& forall|k: int| 1 <= k < segments.len() ==> valid_identifier_segment(#[trigger] segments[k], 16)
    }
}

/// A MAME option name: non-empty identifier characters.
pub open spec fn valid_option_name(s: Seq<char>) -> bool {
    s.len() > 0 && identifier_chars(s)
}

/// `..` is a whole component of the path.
pub open spec fn has_parent_component(p: Seq<char>) -> bool {
    exists|i: int|
        occurs_at(p, seq!['.', '.'], i) && (i == 0 || p[i - 1] == '/') && (i + 2 == p.len() || p[i
            + 2] == '/')
}

/// The error code for a project-controlled path, or `None` when it is acceptable: it must be
/// non-empty, absolute, free of `..` components, of MAME's `;` list separator and of `$`
/// environment expansion.
pub open spec fn project_path_error(p: Seq<char>) -> Option<Seq<char>> {
    if p.len() == 0 {
        Some("MAME_PROJECT_PATH_EMPTY"@)
    } else if p[0] != '/' {
        Some("MAME_PROJECT_PATH_NOT_ABSOLUTE"@)
    } else if has_parent_component(p) {
        Some("MAME_PROJECT_PATH_TRAVERSAL"@)
    } else if contains(p, seq![';']) {
        Some("MAME_PROJECT_PATH_LIST_SEPARATOR"@)
    } else if contains(p, seq!['$']) {
        Some("MAME_PROJECT_PATH_EXPANSION"@)
    } else {
        None
    }
}

/// Validate one identifier segment of at most `max_len` bytes.
pub fn validate_identifier_segment(field: &str, value: &str, max_len: usize) -> (r: AppResult<()>)
    ensures
        r is Ok <==> valid_identifier_segment(value@, max_len as int),
        r matches Err(e) ==> is_identifier_error(
            e,
            field@,
            value@,
            identifier_reason(value@, max_len as nat),
        ),
{
    let chars = chars_of(value);
    if chars.len() == 0 {
        return Err(invalid_identifier_error(field, value, "Identifier must not be empty.".to_owned()));
    }
    if !crate::text::utf8_len_at_most(chars.as_slice(), max_len) {
        let reason = concat_strs(
            concat_strs("Identifier exceeds the supported ", decimal_string(max_len as u64).as_str()).as_str(),
            "-character limit.",
        );
        return Err(invalid_identifier_error(field, value, reason));
    }
    if !all_identifier_chars(chars.as_slice()) {
        return Err(
            invalid_identifier_error(
                field,
                value,
                "Identifier may contain only lowercase ASCII letters, decimal digits, and underscores.".to_owned(),
            ),
        );
    }
    Ok(())
}

/// Whether every character is an identifier character.
pub fn all_identifier_chars(v: &[char]) -> (b: bool)
    ensures
        b == identifier_chars(v@),
{
    let mut i: usize = 0;
    while i < v.len()
        invariant
            i <= v@.len(),
            forall|k: int| 0 <= k < i ==> is_identifier_char(#[trigger] v@[k]),
        decreases v.len() - i,
    {
        let u = v[i] as u32;
        if !((0x61 <= u && u <= 0x7A) || (0x30 <= u && u <= 0x39) || u == 0x5F) {
            return false;
        }
        i += 1;
    }
    true
}

fn invalid_identifier_error(field: &str, value: &str, reason: String) -> (e: AppError)
    ensures
        is_identifier_error(e, field@, value@, reason@),
{
    let message = concat_strs(concat_strs("The ", field).as_str(), " identifier is invalid.");
    AppError::new("MAME_IDENTIFIER_INVALID", message.as_str()).with_detail("field", field.to_owned()).with_detail(
        "value",
        value.to_owned(),
    ).with_detail("reason", reason)
}

/// Validate a machine (or other short) identifier.
pub fn validate_short_identifier(field: &str, value: &str) -> (r: AppResult<()>)
    ensures
        r is Ok <==> valid_identifier_segment(value@, 16),
        r matches Err(e) ==> is_identifier_error(e, field@, value@, identifier_reason(value@, 16)),
{
    validate_identifier_segment(field, value, MAX_IDENTIFIER_SEGMENT_LEN)
}

/// Validate a software-list identifier.
pub fn validate_software_list_identifier(value: &str) -> (r: AppResult<()>)
    ensures
        r is Ok <==> valid_identifier_segment(value@, 64),
        r matches Err(e) ==> is_identifier_error(
            e,
            "softwareList"@,
            value@,
            identifier_reason(value@, 64),
        ),
{
    validate_identifier_segment("softwareList", value, MAX_SOFTWARE_LIST_IDENTIFIER_LEN)
}

/// Validate a software target (`item`, `list:item` or `list:item:part`).
pub fn validate_software_identifier(value: &str) -> (r: AppResult<()>)
    ensures
        r is Ok <==> valid_software_identifier(value@),
        r matches Err(e) ==> e.code@ == "MAME_IDENTIFIER_INVALID"@,
{
    let chars = chars_of(value);
    if chars.len() == 0 {
        return Err(
            invalid_identifier_error("software", value, "Software identifier must not be empty.".to_owned()),
        );
    }
    let segments = split_chars(chars.as_slice(), ':');
    let ghost segs = split_char(value@, ':');
    if segments.len() > 3 {
        return Err(
            invalid_identifier_error(
                "software",
                value,
                "Software identifier may contain at most list, item, and part segments.".to_owned(),
            ),
        );
    }
    assert(segments[0]@ == segs[0]);
    if segments.len() == 1 {
        let first = string_from(segments[0].as_slice());
        validate_identifier_segment("software", first.as_str(), MAX_IDENTIFIER_SEGMENT_LEN)?;
    } else {
        let first = string_from(segments[0].as_slice());
        validate_software_list_identifier(first.as_str())?;
        let mut k: usize = 1;
        while k < segments.len()
            invariant
                1 <= k <= segments@.len(),
                segments.deep_view() == segs,
                segs == split_char(value@, ':'),
                value@.len() > 0,
                1 < segs.len() <= 3,
                valid_identifier_segment(segs[0], 64),
                segs.len() == segments@.len(),
                forall|m: int| 1 <= m < k ==> valid_identifier_segment(#[trigger] segs[m], 16),
            decreases segments.len() - k,
        {
            assert(segments[k as int]@ == segs[k as int]);
            let segment = string_from(segments[k].as_slice());
            let checked = validate_identifier_segment("software", segment.as_str(), MAX_IDENTIFIER_SEGMENT_LEN);
            if let Err(e) = checked {
                assert(!valid_identifier_segment(segs[k as int], 16));
                return Err(e);
            }
            k += 1;
        }
    }
    Ok(())
}

/// Validate a MAME option name.
pub fn validate_option_name(option: &str) -> (r: AppResult<()>)
    ensures
        r is Ok <==> valid_option_name(option@),
        r matches Err(e) ==> e.code@ == "MAME_OPTION_INVALID"@,
{
    let chars = chars_of(option);
    if chars.len() == 0 || !all_identifier_chars(chars.as_slice()) {
        return Err(
            AppError::new("MAME_OPTION_INVALID", "A project-controlled MAME option name is invalid.").with_detail(
                "option",
                option.to_owned(),
            ),
        );
    }
    Ok(())
}

fn has_parent_component_exec(p: &[char]) -> (b: bool)
    ensures
        b == has_parent_component(p@),
{
    let dots = vec!['.', '.'];
    assert(dots@ =~= seq!['.', '.']);
    let mut i: usize = 0;
    while i < p.len()
        invariant
            i <= p@.len(),
            dots@ == seq!['.', '.'],
            forall|m: int|
                0 <= m < i ==> !(occurs_at(p@, seq!['.', '.'], m) && (m == 0 || p@[m - 1] == '/') && (m + 2
                    == p@.len() || p@[m + 2] == '/')),
        decreases p.len() - i,
    {
        if crate::text::occurs_at_exec(p, dots.as_slice(), i) && (i == 0 || p[i - 1] == '/') && (i + 2 == p.len()
            || p[i + 2] == '/') {
            return true;
        }
        i += 1;
    }
    assert forall|m: int|
        !(occurs_at(p@, seq!['.', '.'], m) && (m == 0 || p@[m - 1] == '/') && (m + 2 == p@.len() || p@[m + 2]
            == '/')) by {
        if 0 <= m && m >= p@.len() {
        }
    }
    false
}

/// Validate a project-controlled path: absolute, one path, no traversal or expansion.
pub fn validate_project_controlled_path(path: &str) -> (r: AppResult<()>)
    ensures
        r is Ok <==> project_path_error(path@) is None,
        r matches Err(e) ==> Some(e.code@) == project_path_error(path@),
{
    let p = chars_of(path);
    if p.len() == 0 {
        return Err(AppError::new("MAME_PROJECT_PATH_EMPTY", "A project-controlled MAME path is empty."));
    }
    if p[0] != '/' {
        return Err(
            AppError::new(
                "MAME_PROJECT_PATH_NOT_ABSOLUTE",
                "Project-controlled MAME paths must be absolute.",
            ).with_detail("path", path.to_owned()),
        );
    }
    if has_parent_component_exec(p.as_slice()) {
        return Err(
            AppError::new(
                "MAME_PROJECT_PATH_TRAVERSAL",
                "Project-controlled MAME paths must not contain parent-directory traversal.",
            ).with_detail("path", path.to_owned()),
        );
    }
    let semicolon = vec![';'];
    if crate::text::contains_chars(p.as_slice(), semicolon.as_slice()) {
        assert(semicolon@ =~= seq![';']);
        return Err(
            AppError::new(
                "MAME_PROJECT_PATH_LIST_SEPARATOR",
                "A project-controlled MAME path must represent exactly one path.",
            ).with_detail("path", path.to_owned()),
        );
    }
    assert(semicolon@ =~= seq![';']);
    let dollar = vec!['$'];
    assert(dollar@ =~= seq!['$']);
    if crate::text::contains_chars(p.as_slice(), dollar.as_slice()) {
        return Err(
            AppError::new(
                "MAME_PROJECT_PATH_EXPANSION",
                "Project-controlled MAME paths must not contain MAME environment-variable expressions.",
            ).with_detail("path", path.to_owned()),
        );
    }
    Ok(())
}

/// The option names and paths of the project paths, as plain text.
pub open spec fn path_pairs(ps: Seq<ProjectPathArgument>) -> Seq<(Seq<char>, Seq<char>)> {
    ps.map_values(|p: ProjectPathArgument| (p.option@, p.path@))
}

/// The first rejected project path's error code: its option name is checked before its path.
pub open spec fn paths_error(ps: Seq<(Seq<char>, Seq<char>)>) -> Option<Seq<char>>
    decreases ps.len(),
{
    if ps.len() == 0 {
        None
    } else if !valid_option_name(ps[0].0) {
        Some("MAME_OPTION_INVALID"@)
    } else if project_path_error(ps[0].1) is Some {
        project_path_error(ps[0].1)
    } else {
        paths_error(ps.drop_first())
    }
}

/// `-option path` for each project path, in order.
pub open spec fn path_args(ps: Seq<(Seq<char>, Seq<char>)>) -> Seq<Seq<char>>
    decreases ps.len(),
{
    if ps.len() == 0 {
        Seq::empty()
    } else {
        path_args(ps.drop_last()) + seq![seq!['-'] + ps.last().0, ps.last().1]
    }
}

/// The error code for a launch target, or `None` when it is valid: the machine, then the
/// software, then each project path in order.
pub open spec fn target_error(t: MameLaunchTarget) -> Option<Seq<char>> {
    if !valid_identifier_segment(t.machine@, 16) {
        Some("MAME_IDENTIFIER_INVALID"@)
    } else if t.software is Some && !valid_software_identifier(t.software->0@) {
        Some("MAME_IDENTIFIER_INVALID"@)
    } else {
        paths_error(path_pairs(t.project_paths@))
    }
}

/// The argument vector for a valid target: machine, software, then the path options.
pub open spec fn target_args(t: MameLaunchTarget) -> Seq<Seq<char>> {
    let software = match t.software {
        Some(s) => seq![s@],
        None => Seq::empty(),
    };
    seq![t.machine@] + software + path_args(path_pairs(t.project_paths@))
}

proof fn lemma_paths_error_skip(ps: Seq<(Seq<char>, Seq<char>)>, i: int)
    requires
        0 <= i < ps.len(),
        valid_option_name(ps[i].0),
        project_path_error(ps[i].1) is None,
    ensures
        paths_error(ps.skip(i)) == paths_error(ps.skip(i + 1)),
{
    assert(ps.skip(i)[0] == ps[i]);
    assert(ps.skip(i).drop_first() == ps.skip(i + 1));
}

/// Build the argument vector for a launch target.
pub fn build_launch_argv(target: &MameLaunchTarget) -> (r: AppResult<MameArgv>)
    ensures
        r is Ok <==> target_error(*target) is None,
        r matches Err(e) ==> Some(e.code@) == target_error(*target),
        r matches Ok(a) ==> a.view_args() == target_args(*target),
{
    validate_short_identifier("machine", target.machine.as_str())?;
    let mut args: Vec<String> = Vec::new();
    args.push(target.machine.clone());
    if let Some(software) = &target.software {
        validate_software_identifier(software.as_str())?;
        args.push(software.clone());
    }
    let ghost base = args.deep_view();
    let ghost ps = path_pairs(target.project_paths@);
    proof {
        assert(ps.skip(0) == ps);
        assert(ps.take(0) =~= Seq::<(Seq<char>, Seq<char>)>::empty());
        assert(base + path_args(ps.take(0)) =~= base);
    }
    let mut i: usize = 0;
    while i < target.project_paths.len()
        invariant
            i <= target.project_paths@.len(),
            ps == path_pairs(target.project_paths@),
            ps.len() == target.project_paths@.len(),
            paths_error(ps) == paths_error(ps.skip(i as int)),
            target_error(*target) == paths_error(ps),
            args.deep_view() == base + path_args(ps.take(i as int)),
        decreases target.project_paths.len() - i,
    {
        let project_path = &target.project_paths[i];
        assert(ps[i as int] == (project_path.option@, project_path.path@));
        proof {
            assert(ps.skip(i as int)[0] == ps[i as int]);
        }
        if let Err(e) = validate_option_name(project_path.option.as_str()) {
            return Err(e);
        }
        if let Err(e) = validate_project_controlled_path(project_path.path.as_str()) {
            return Err(e);
        }
        proof {
            lemma_paths_error_skip(ps, i as int);
        }
        let dash_option = concat_strs("-", project_path.option.as_str());
        let ghost before = args.deep_view();
        let path_copy = project_path.path.clone();
        proof {
            reveal_strlit("-");
            assert("-"@ =~= seq!['-']);
            assert(dash_option@ == seq!['-'] + ps[i as int].0);
            assert(path_copy@ == ps[i as int].1);
        }
        args.push(dash_option);
        args.push(path_copy);
        proof {
            assert(ps.take(i + 1).drop_last() == ps.take(i as int));
            assert(ps.take(i + 1).last() == ps[i as int]);
            assert(args.deep_view() =~= before + seq![seq!['-'] + ps[i as int].0, ps[i as int].1]);
        }
        i += 1;
    }
    proof {
        assert(ps.take(ps.len() as int) == ps);
        assert(ps.skip(ps.len() as int).len() == 0);
    }
    Ok(MameArgv { args })
}

/// Arguments for the window preference.
pub open spec fn window_args(w: WindowPreference) -> Seq<Seq<char>> {
    match w {
        WindowPreference::Inherit => Seq::empty(),
        WindowPreference::Windowed => seq!["-window"@],
        WindowPreference::Fullscreen => seq!["-nowindow"@],
    }
}

/// Arguments for the renderer preference.
pub open spec fn video_args(r: RendererPreference) -> Seq<Seq<char>> {
    match r {
        RendererPreference::Inherit => Seq::empty(),
        RendererPreference::Auto => seq!["-video"@, "auto"@],
        RendererPreference::Bgfx => seq!["-video"@, "bgfx"@],
        RendererPreference::OpenGl => seq!["-video"@, "opengl"@],
        RendererPreference::Software => seq!["-video"@, "soft"@],
    }
}

/// Arguments for the audio preference.
pub open spec fn sound_args(a: AudioPreference) -> Seq<Seq<char>> {
    match a {
        AudioPreference::Inherit => Seq::empty(),
        AudioPreference::Auto => seq!["-sound"@, "auto"@],
        AudioPreference::Disabled => seq!["-sound"@, "none"@],
    }
}

/// The extra arguments a preference set adds: window, then video, then sound.
pub open spec fn preference_args(p: LaunchPreferencesV1) -> Seq<Seq<char>> {
    window_args(p.window_mode) + video_args(p.renderer) + sound_args(p.audio)
}

fn push_arg(args: &mut Vec<String>, value: &str)
    ensures
        final(args).deep_view() == old(args).deep_view().push(value@),
{
    let ghost before = args.deep_view();
    args.push(value.to_owned());
    assert(args.deep_view() =~= before.push(value@));
}

fn push_option(args: &mut Vec<String>, option: &str, value: &str)
    ensures
        final(args).deep_view() == old(args).deep_view() + seq![option@, value@],
{
    let ghost before = args.deep_view();
    push_arg(args, option);
    push_arg(args, value);
    assert(args.deep_view() =~= before + seq![option@, value@]);
}

fn push_window_args(args: &mut Vec<String>, w: WindowPreference)
    ensures
        final(args).deep_view() == old(args).deep_view() + window_args(w),
{
    let ghost before = args.deep_view();
    match w {
        WindowPreference::Inherit => {},
        WindowPreference::Windowed => push_arg(args, "-window"),
        WindowPreference::Fullscreen => push_arg(args, "-nowindow"),
    }
    assert(args.deep_view() =~= before + window_args(w));
}

/// The window preference sets MAME's window flag: inheriting adds nothing, `Windowed` adds
/// the one flag `-window`, the first word of its own name, and `Fullscreen` adds that flag's
/// negation `-nowindow`; the two choices differ.
pub proof fn law_window_flag_follows_the_preference(w: WindowPreference)
    ensures
        (w == WindowPreference::Inherit) <==> window_args(w).len() == 0,
        window_args(WindowPreference::Windowed) == seq![seq!['-'] + window_token(WindowPreference::Windowed).take(6)],
        window_args(WindowPreference::Fullscreen) == seq![seq!['-', 'n', 'o'] + window_args(
            WindowPreference::Windowed,
        )[0].drop_first()],
        window_args(WindowPreference::Windowed) != window_args(WindowPreference::Fullscreen),
{
    reveal_strlit("-window");
    reveal_strlit("-nowindow");
    reveal_strlit("windowed");
    assert(seq!['-'] + "windowed"@.take(6) =~= "-window"@);
    assert(seq!['-', 'n', 'o'] + "-window"@.drop_first() =~= "-nowindow"@);
    assert("-window"@.len() != "-nowindow"@.len());
    assert(window_args(WindowPreference::Windowed)[0] != window_args(WindowPreference::Fullscreen)[0]);
}

/// The audio preference sets MAME's `-sound` option: inheriting adds nothing, `Auto` asks for
/// the mode of its own name (`auto`), `Disabled` for no sound (`none`); the two differ.
pub proof fn law_sound_option_follows_the_preference(a: AudioPreference)
    ensures
        (a == AudioPreference::Inherit) <==> sound_args(a).len() == 0,
        a != AudioPreference::Inherit ==> sound_args(a).len() == 2 && sound_args(a)[0] == "-sound"@,
        sound_args(AudioPreference::Auto)[1] == audio_token(AudioPreference::Auto),
        sound_args(AudioPreference::Disabled)[1] == "none"@,
        sound_args(AudioPreference::Auto) != sound_args(AudioPreference::Disabled),
{
    reveal_strlit("auto");
    reveal_strlit("none");
    assert("auto"@[0] != "none"@[0]);
    assert(sound_args(AudioPreference::Auto)[1] != sound_args(AudioPreference::Disabled)[1]);
}

/// The video modes of MAME's `-video` option that a renderer preference can choose.
pub open spec fn mame_video_mode(v: Seq<char>) -> bool {
    v == "auto"@ || v == "bgfx"@ || v == "opengl"@ || v == "soft"@
}

/// A renderer preference selects the MAME video mode of its own name: inheriting adds
/// nothing; any other choice adds `-video` and a mode MAME knows that begins the
/// preference's name in lower case (`soft` for software). Different renderers give
/// different arguments.
pub proof fn law_video_mode_is_named_by_the_renderer(r: RendererPreference, s: RendererPreference)
    ensures
        (r == RendererPreference::Inherit) <==> video_args(r).len() == 0,
        r != RendererPreference::Inherit ==> {
            &&& video_args(r).len() == 2
            &&& video_args(r)[0] == "-video"@
            &&& mame_video_mode(video_args(r)[1])
            &&& video_args(r)[1].len() <= renderer_token(r).len()
            &&& lower_ascii(renderer_token(r)).take(video_args(r)[1].len() as int) == video_args(r)[1]
        },
        video_args(r) == video_args(s) ==> r == s,
{
    reveal_strlit("-video");
    reveal_strlit("auto");
    reveal_strlit("bgfx");
    reveal_strlit("opengl");
    reveal_strlit("soft");
    reveal_strlit("inherit");
    reveal_strlit("openGl");
    reveal_strlit("software");
    assert(ascii_lower('o') == 'o' && ascii_lower('p') == 'p' && ascii_lower('e') == 'e' && ascii_lower('n')
        == 'n' && ascii_lower('l') == 'l');
    assert(ascii_lower('G') == 'g');
    assert(ascii_lower('a') == 'a' && ascii_lower('u') == 'u' && ascii_lower('t') == 't' && ascii_lower('b')
        == 'b' && ascii_lower('g') == 'g' && ascii_lower('f') == 'f' && ascii_lower('x') == 'x' && ascii_lower(
        's',
    ) == 's');
    match r {
        RendererPreference::Auto => {
            assert(lower_ascii(renderer_token(r)).take(4) =~= "auto"@);
        },
        RendererPreference::Bgfx => {
            assert(lower_ascii(renderer_token(r)).take(4) =~= "bgfx"@);
        },
        RendererPreference::OpenGl => {
            assert(lower_ascii(renderer_token(r)).take(6) =~= "opengl"@);
        },
        RendererPreference::Software => {
            assert(lower_ascii(renderer_token(r)).take(4) =~= "soft"@);
        },
        RendererPreference::Inherit => {},
    }
    if video_args(r) == video_args(s) {
        assert(video_args(r).len() == video_args(s).len());
        if r != RendererPreference::Inherit && s != RendererPreference::Inherit {
            let (a, b) = (video_args(r)[1], video_args(s)[1]);
            assert(a == b);
            assert("auto"@[0] != "bgfx"@[0] && "auto"@[0] != "soft"@[0] && "bgfx"@[0] != "soft"@[0]);
            assert("opengl"@.len() != "auto"@.len() && "opengl"@.len() != "bgfx"@.len() && "opengl"@.len()
                != "soft"@.len());
            assert(a[0] == b[0] && a.len() == b.len());
        }
    }
}

fn push_video_args(args: &mut Vec<String>, r: RendererPreference)
    ensures
        final(args).deep_view() == old(args).deep_view() + video_args(r),
{
    let ghost before = args.deep_view();
    match r {
        RendererPreference::Inherit => {},
        RendererPreference::Auto => push_option(args, "-video", "auto"),
        RendererPreference::Bgfx => push_option(args, "-video", "bgfx"),
        RendererPreference::OpenGl => push_option(args, "-video", "opengl"),
        RendererPreference::Software => push_option(args, "-video", "soft"),
    }
    assert(args.deep_view() =~= before + video_args(r));
}

fn push_sound_args(args: &mut Vec<String>, a: AudioPreference)
    ensures
        final(args).deep_view() == old(args).deep_view() + sound_args(a),
{
    let ghost before = args.deep_view();
    match a {
        AudioPreference::Inherit => {},
        AudioPreference::Auto => push_option(args, "-sound", "auto"),
        AudioPreference::Disabled => push_option(args, "-sound", "none"),
    }
    assert(args.deep_view() =~= before + sound_args(a));
}

/// Build the argument vector for a target and append the launch preferences.
pub fn build_launch_argv_with_preferences(
    target: &MameLaunchTarget,
    preferences: &LaunchPreferencesV1,
) -> (r: AppResult<MameArgv>)
    ensures
        r is Ok <==> target_error(*target) is None,
        r matches Err(e) ==> Some(e.code@) == target_error(*target),
        r matches Ok(a) ==> a.view_args() == target_args(*target) + preference_args(*preferences),
{
    let mut args = build_launch_argv(target)?.into_vec();
    let ghost base = args.deep_view();
    push_window_args(&mut args, preferences.window_mode);
    push_video_args(&mut args, preferences.renderer);
    push_sound_args(&mut args, preferences.audio);
    assert(args.deep_view() =~= base + preference_args(*preferences));
    Ok(MameArgv { args })
}

} // verus!
