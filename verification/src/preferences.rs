//! Launch preferences and their per-machine overrides.

use vstd::prelude::*;

use crate::errors::AppResult;

verus! {

/// Window mode requested for a launch; `Inherit` leaves MAME's own configuration in charge.
#[derive(Debug, Clone, Copy, PartialEq, Eq, Structural)]
pub enum WindowPreference {
    Inherit,
    Windowed,
    Fullscreen,
}

/// Video provider requested for a launch.
#[derive(Debug, Clone, Copy, PartialEq, Eq, Structural)]
pub enum RendererPreference {
    Inherit,
    Auto,
    Bgfx,
    OpenGl,
    Software,
}

/// Sound provider requested for a launch.
#[derive(Debug, Clone, Copy, PartialEq, Eq, Structural)]
pub enum AudioPreference {
    Inherit,
    Auto,
    Disabled,
}

/// The three launch preferences the application manages.
#[derive(Debug, Clone, Copy, PartialEq, Eq, Structural)]
pub struct LaunchPreferencesV1 {
    pub window_mode: WindowPreference,
    pub renderer: RendererPreference,
    pub audio: AudioPreference,
}

/// All three preferences inherited.
pub open spec fn inherited_preferences() -> LaunchPreferencesV1 {
    LaunchPreferencesV1 {
        window_mode: WindowPreference::Inherit,
        renderer: RendererPreference::Inherit,
        audio: AudioPreference::Inherit,
    }
}

impl Default for LaunchPreferencesV1 {
    fn default() -> (r: Self)
        ensures
            r == inherited_preferences(),
    {
        LaunchPreferencesV1 {
            window_mode: WindowPreference::Inherit,
            renderer: RendererPreference::Inherit,
            audio: AudioPreference::Inherit,
        }
    }
}

/// A preference value with a distinguished "inherit" sentinel.
pub trait Preference: Copy {
    /// The "inherit" sentinel of this preference.
    spec fn spec_inherit() -> Self;

    fn is_inherit(&self) -> (r: bool)
        ensures
            r == (*self == Self::spec_inherit()),
    ;

    fn inherit() -> (r: Self)
        ensures
            r == Self::spec_inherit(),
    ;
}

impl Preference for WindowPreference {
    open spec fn spec_inherit() -> Self {
        WindowPreference::Inherit
    }

    fn is_inherit(&self) -> (r: bool) {
        *self == WindowPreference::Inherit
    }

    fn inherit() -> (r: Self) {
        WindowPreference::Inherit
    }
}

impl Preference for RendererPreference {
    open spec fn spec_inherit() -> Self {
        RendererPreference::Inherit
    }

    fn is_inherit(&self) -> (r: bool) {
        *self == RendererPreference::Inherit
    }

    fn inherit() -> (r: Self) {
        RendererPreference::Inherit
    }
}

impl Preference for AudioPreference {
    open spec fn spec_inherit() -> Self {
        AudioPreference::Inherit
    }

    fn is_inherit(&self) -> (r: bool) {
        *self == AudioPreference::Inherit
    }

    fn inherit() -> (r: Self) {
        AudioPreference::Inherit
    }
}

/// `over` unless it inherits, in which case `base`.
pub open spec fn override_or<T: Preference>(over: T, base: T) -> T {
    if over == T::spec_inherit() {
        base
    } else {
        over
    }
}

/// Each machine override wins unless it inherits, in which case the general setting applies.
pub open spec fn effective_preferences_of(
    general: LaunchPreferencesV1,
    overrides: LaunchPreferencesV1,
) -> LaunchPreferencesV1 {
    LaunchPreferencesV1 {
        window_mode: override_or(overrides.window_mode, general.window_mode),
        renderer: override_or(overrides.renderer, general.renderer),
        audio: override_or(overrides.audio, general.audio),
    }
}

/// Effective preferences of a machine from the general settings and its overrides.
pub fn resolve_effective_preferences(
    general: &LaunchPreferencesV1,
    overrides: &LaunchPreferencesV1,
) -> (r: LaunchPreferencesV1)
    ensures
        r == effective_preferences_of(*general, *overrides),
{
    LaunchPreferencesV1 {
        window_mode: if overrides.window_mode.is_inherit() {
            general.window_mode
        } else {
            overrides.window_mode
        },
        renderer: if overrides.renderer.is_inherit() {
            general.renderer
        } else {
            overrides.renderer
        },
        audio: if overrides.audio.is_inherit() {
            general.audio
        } else {
            overrides.audio
        },
    }
}

/// Whether every preference inherits (such overrides are stored as no row at all).
pub fn is_fully_inherited(preferences: &LaunchPreferencesV1) -> (r: bool)
    ensures
        r == (*preferences == inherited_preferences()),
{
    preferences.window_mode.is_inherit() && preferences.renderer.is_inherit()
        && preferences.audio.is_inherit()
}

/// Per-machine launch settings as shown to the user.
#[derive(Debug, Clone, PartialEq, Eq)]
pub struct MachineLaunchSettings {
    pub schema_version: u32,
    pub short_name: String,
    pub overrides: LaunchPreferencesV1,
    pub effective: LaunchPreferencesV1,
}

/// The settings view of one machine: its overrides and what they resolve to.
pub fn machine_launch_settings(
    short_name: String,
    overrides: LaunchPreferencesV1,
    general: &LaunchPreferencesV1,
) -> (r: MachineLaunchSettings)
    ensures
        r.schema_version == 1,
        r.short_name == short_name,
        r.overrides == overrides,
        r.effective == effective_preferences_of(*general, overrides),
{
    let effective = resolve_effective_preferences(general, &overrides);
    MachineLaunchSettings { schema_version: 1, short_name, overrides, effective }
}

/// Resolving overrides that all inherit gives back the general settings, and resolving is
/// idempotent: applying the same overrides to an already resolved result changes nothing.
pub proof fn law_inherited_overrides_are_transparent(
    general: LaunchPreferencesV1,
    overrides: LaunchPreferencesV1,
)
    ensures
        effective_preferences_of(general, inherited_preferences()) == general,
        effective_preferences_of(effective_preferences_of(general, overrides), overrides)
            == effective_preferences_of(general, overrides),
{
}

/// A request for one machine's launch settings.
#[derive(Debug, Clone, PartialEq, Eq)]
pub struct MachineLaunchSettingsRequest {
    pub short_name: String,
}

/// A request to store one machine's launch overrides.
#[derive(Debug, Clone, PartialEq, Eq)]
pub struct SetMachineLaunchSettingsRequest {
    pub short_name: String,
    pub overrides: LaunchPreferencesV1,
}

/// A machine name from a settings request, trimmed, which must be a valid identifier.
pub fn validated_short_name(short_name: String) -> (r: AppResult<String>)
    ensures
        r is Ok <==> crate::argv::valid_identifier_segment(crate::text::trim(short_name@), 16),
        r matches Ok(s) ==> s@ == crate::text::trim(short_name@),
        r matches Err(e) ==> e.code@ == "MAME_IDENTIFIER_INVALID"@,
{
    let chars = crate::text::chars_of(short_name.as_str());
    let trimmed = crate::text::string_from(crate::text::trim_chars(chars.as_slice()).as_slice());
    crate::argv::validate_short_identifier("machine", trimmed.as_str())?;
    Ok(trimmed)
}

} // verus!
