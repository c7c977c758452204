//! Explanation of which configuration layer supplies each launch preference.
//!
//! `Inherit` at the MAME/global layer means the application emits no command-line
//! override for that option; it does not claim what MAME finally selects.

use vstd::prelude::*;

use crate::errors::{AppError, AppResult};
use crate::precedence::{
    effective_value, has_layer, layer_value, layers_distinct, lemma_push_new_layer,
    resolve_effective_value, ConfigurationAssignment, ConfigurationLayer,
};
use crate::preferences::{
    effective_preferences_of, AudioPreference, LaunchPreferencesV1, Preference,
    RendererPreference, WindowPreference,
};

verus! {

/// The effective value of one preference, the layer that supplied it, and the pending
/// launch-only override, if any.
#[derive(Debug, Clone, Copy, PartialEq, Eq)]
pub struct PreferenceExplanation<T> {
    pub effective_value: T,
    pub source_layer: ConfigurationLayer,
    pub pending_launch_override: Option<T>,
}

/// The explanation of all three launch preferences.
#[derive(Debug, Clone, Copy, PartialEq, Eq)]
pub struct LaunchPreferencesExplanation {
    pub window_mode: PreferenceExplanation<WindowPreference>,
    pub renderer: PreferenceExplanation<RendererPreference>,
    pub audio: PreferenceExplanation<AudioPreference>,
}

/// A pending value counts only when it does not inherit.
pub open spec fn pending_override<T: Preference>(pending: Option<T>) -> Option<T> {
    match pending {
        Some(v) => if v == T::spec_inherit() {
            None
        } else {
            Some(v)
        },
        None => None,
    }
}

/// The explanation of one preference: a pending override wins, then a machine override,
/// then the general (profile) setting; otherwise MAME's global configuration owns it.
pub open spec fn explanation_of<T: Preference>(general: T, machine: T, pending: Option<T>) -> PreferenceExplanation<T> {
    let p = pending_override(pending);
    if p is Some {
        PreferenceExplanation {
            effective_value: p->0,
            source_layer: ConfigurationLayer::TransientLaunchOverrides,
            pending_launch_override: p,
        }
    } else if machine != T::spec_inherit() {
        PreferenceExplanation {
            effective_value: machine,
            source_layer: ConfigurationLayer::MachineOverrides,
            pending_launch_override: p,
        }
    } else if general != T::spec_inherit() {
        PreferenceExplanation {
            effective_value: general,
            source_layer: ConfigurationLayer::ProfileDefaults,
            pending_launch_override: p,
        }
    } else {
        PreferenceExplanation {
            effective_value: T::spec_inherit(),
            source_layer: ConfigurationLayer::MameGlobalDefaults,
            pending_launch_override: p,
        }
    }
}

/// The explanation of all three preferences.
pub open spec fn launch_explanation_of(
    general: LaunchPreferencesV1,
    machine: LaunchPreferencesV1,
    pending: Option<LaunchPreferencesV1>,
) -> LaunchPreferencesExplanation {
    LaunchPreferencesExplanation {
        window_mode: explanation_of(
            general.window_mode,
            machine.window_mode,
            match pending {
                Some(p) => Some(p.window_mode),
                None => None,
            },
        ),
        renderer: explanation_of(
            general.renderer,
            machine.renderer,
            match pending {
                Some(p) => Some(p.renderer),
                None => None,
            },
        ),
        audio: explanation_of(
            general.audio,
            machine.audio,
            match pending {
                Some(p) => Some(p.audio),
                None => None,
            },
        ),
    }
}

/// The preferences made of the explained winners.
pub open spec fn winners(e: LaunchPreferencesExplanation) -> LaunchPreferencesV1 {
    LaunchPreferencesV1 {
        window_mode: e.window_mode.effective_value,
        renderer: e.renderer.effective_value,
        audio: e.audio.effective_value,
    }
}

impl LaunchPreferencesExplanation {
    /// The winning value of each preference.
    pub fn effective_preferences(&self) -> (r: LaunchPreferencesV1)
        ensures
            r == winners(*self),
    {
        LaunchPreferencesV1 {
            window_mode: self.window_mode.effective_value,
            renderer: self.renderer.effective_value,
            audio: self.audio.effective_value,
        }
    }
}

/// Explain one preference through the precedence resolver.
pub fn explain_preference<T: Preference>(general: T, machine: T, pending: Option<T>) -> (r: AppResult<
    PreferenceExplanation<T>,
>)
    ensures
        r == Ok::<PreferenceExplanation<T>, AppError>(explanation_of(general, machine, pending)),
{
    let inherit = T::inherit();
    let mut assignments: Vec<ConfigurationAssignment<T>> = Vec::new();
    let first = ConfigurationAssignment::new(ConfigurationLayer::MameGlobalDefaults, inherit);
    proof {
        assert(layers_distinct(assignments@));
        assert(!has_layer(assignments@, ConfigurationLayer::MameGlobalDefaults));
        lemma_push_new_layer(assignments@, first);
    }
    assignments.push(first);
    let general_set = !general.is_inherit();
    if general_set {
        let a = ConfigurationAssignment::new(ConfigurationLayer::ProfileDefaults, general);
        proof {
            lemma_push_new_layer(assignments@, a);
        }
        assignments.push(a);
    }
    let machine_set = !machine.is_inherit();
    if machine_set {
        let a = ConfigurationAssignment::new(ConfigurationLayer::MachineOverrides, machine);
        proof {
            lemma_push_new_layer(assignments@, a);
        }
        assignments.push(a);
    }
    let pending_launch_override = match pending {
        Some(value) => if value.is_inherit() {
            None
        } else {
            Some(value)
        },
        None => None,
    };
    if let Some(value) = pending_launch_override {
        let a = ConfigurationAssignment::new(ConfigurationLayer::TransientLaunchOverrides, value);
        proof {
            lemma_push_new_layer(assignments@, a);
        }
        assignments.push(a);
    }
    proof {
        assert(has_layer(assignments@, ConfigurationLayer::MameGlobalDefaults));
        assert(layer_value(assignments@, ConfigurationLayer::MameGlobalDefaults) == Some(inherit));
        assert(!has_layer(assignments@, ConfigurationLayer::ApplicationDefaults));
    }
    let resolved = resolve_effective_value(assignments);
    match resolved {
        Ok(Some(winner)) => Ok(
            PreferenceExplanation {
                effective_value: winner.value,
                source_layer: winner.source_layer,
                pending_launch_override,
            },
        ),
        Ok(None) => Err(
            AppError::new(
                "CONFIG_EXPLANATION_EMPTY",
                "Configuration explainability unexpectedly produced no effective value.",
            ),
        ),
        Err(error) => Err(error),
    }
}

/// Explain the application-owned launch-preference layers.
pub fn explain_launch_preferences(
    general: &LaunchPreferencesV1,
    machine: &LaunchPreferencesV1,
    pending: Option<&LaunchPreferencesV1>,
) -> (r: AppResult<LaunchPreferencesExplanation>)
    ensures
        r == Ok::<LaunchPreferencesExplanation, AppError>(
            launch_explanation_of(
                *general,
                *machine,
                match pending {
                    Some(p) => Some(*p),
                    None => None,
                },
            ),
        ),
{
    let window_mode = explain_preference(
        general.window_mode,
        machine.window_mode,
        match pending {
            Some(p) => Some(p.window_mode),
            None => None,
        },
    )?;
    let renderer = explain_preference(
        general.renderer,
        machine.renderer,
        match pending {
            Some(p) => Some(p.renderer),
            None => None,
        },
    )?;
    let audio = explain_preference(
        general.audio,
        machine.audio,
        match pending {
            Some(p) => Some(p.audio),
            None => None,
        },
    )?;
    Ok(LaunchPreferencesExplanation { window_mode, renderer, audio })
}

/// The winning launch preferences after explanation.
pub fn resolve_effective_launch_preferences(
    general: &LaunchPreferencesV1,
    machine: &LaunchPreferencesV1,
    pending: Option<&LaunchPreferencesV1>,
) -> (r: AppResult<LaunchPreferencesV1>)
    ensures
        r == Ok::<LaunchPreferencesV1, AppError>(
            winners(
                launch_explanation_of(
                    *general,
                    *machine,
                    match pending {
                        Some(p) => Some(*p),
                        None => None,
                    },
                ),
            ),
        ),
{
    Ok(explain_launch_preferences(general, machine, pending)?.effective_preferences())
}

/// Without a pending launch override, the explained winners are exactly the per-machine
/// effective settings (machine override, else general setting).
pub proof fn law_explanation_agrees_with_machine_settings(
    general: LaunchPreferencesV1,
    machine: LaunchPreferencesV1,
)
    ensures
        winners(launch_explanation_of(general, machine, None)) == effective_preferences_of(
            general,
            machine,
        ),
{
}

/// A pending value that does not inherit always wins and is reported as pending.
pub proof fn law_pending_override_wins<T: Preference>(general: T, machine: T, pending: T)
    requires
        pending != T::spec_inherit(),
    ensures
        explanation_of(general, machine, Some(pending)).effective_value == pending,
        explanation_of(general, machine, Some(pending)).source_layer
            == ConfigurationLayer::TransientLaunchOverrides,
        explanation_of(general, machine, Some(pending)).pending_launch_override == Some(pending),
{
}

} // verus!
