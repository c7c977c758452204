//! The general settings page: the configured MAME executable and the global launch
//! preferences, read from and written into the settings document.

use vstd::prelude::*;

use crate::config::SettingsV2;
use crate::preferences::LaunchPreferencesV1;

verus! {

broadcast use vstd::string::group_string_axioms;

#[derive(Debug, Clone, PartialEq, Eq)]
pub struct GeneralSettings {
    pub schema_version: u32,
    pub mame_executable: Option<String>,
    pub launch_preferences: LaunchPreferencesV1,
}

#[derive(Debug, Clone, PartialEq, Eq)]
pub struct SetMameExecutableRequest {
    pub mame_executable: Option<String>,
}

#[derive(Debug, Clone, PartialEq, Eq)]
pub struct SetLaunchPreferencesRequest {
    pub launch_preferences: LaunchPreferencesV1,
}

impl From<SettingsV2> for GeneralSettings {
    fn from(settings: SettingsV2) -> (r: Self) {
        GeneralSettings {
            schema_version: 1,
            mame_executable: settings.mame_executable,
            launch_preferences: settings.launch_preferences,
        }
    }
}

impl vstd::std_specs::convert::FromSpecImpl<SettingsV2> for GeneralSettings {
    open spec fn obeys_from_spec() -> bool {
        true
    }

    open spec fn from_spec(settings: SettingsV2) -> Self {
        GeneralSettings {
            schema_version: 1,
            mame_executable: settings.mame_executable,
            launch_preferences: settings.launch_preferences,
        }
    }
}

/// The executable to store: an empty path means none is configured.
pub fn normalized_mame_executable(mame_executable: Option<String>) -> (r: Option<String>)
    ensures
        mame_executable matches Some(p) && p@.len() > 0 ==> r == mame_executable,
        mame_executable matches Some(p) && p@.len() == 0 ==> r is None,
        mame_executable is None ==> r is None,
{
    match mame_executable {
        Some(p) => {
            if p.as_str().is_empty() {
                None
            } else {
                Some(p)
            }
        },
        None => None,
    }
}

/// The settings with the executable replaced and everything else kept.
pub fn with_mame_executable(settings: SettingsV2, mame_executable: Option<String>) -> (r: SettingsV2)
    ensures
        r == (SettingsV2 { mame_executable, ..settings }),
{
    SettingsV2 { mame_executable, ..settings }
}

/// The settings with the launch preferences replaced and everything else kept.
pub fn with_launch_preferences(settings: SettingsV2, launch_preferences: LaunchPreferencesV1) -> (r: SettingsV2)
    ensures
        r == (SettingsV2 { launch_preferences, ..settings }),
{
    SettingsV2 { launch_preferences, ..settings }
}

/// The page's view of the settings document.
pub fn general_settings(settings: SettingsV2) -> (r: GeneralSettings)
    ensures
        r.schema_version == 1,
        r.mame_executable == settings.mame_executable,
        r.launch_preferences == settings.launch_preferences,
{
    GeneralSettings::from(settings)
}

} // verus!
