//! Deterministic application-level configuration precedence.
//!
//! MAME's compiled defaults and INI stack are one supplied `MameGlobalDefaults`
//! layer here; MAME still owns the ordering of its native sources.

use vstd::prelude::*;

use crate::errors::{AppError, AppResult};

verus! {

/// Application-owned precedence layers, ordered from lowest to highest.
#[derive(Debug, Clone, Copy, PartialEq, Eq, Hash)]
pub enum ConfigurationLayer {
    ApplicationDefaults,
    MameGlobalDefaults,
    ProfileDefaults,
    MachineOverrides,
    TransientLaunchOverrides,
}

/// One value supplied by exactly one precedence layer.
#[derive(Debug, Clone, PartialEq, Eq)]
pub struct ConfigurationAssignment<T> {
    pub layer: ConfigurationLayer,
    pub value: T,
}

/// The requested value after precedence, with the layer that supplied it.
#[derive(Debug, Clone, PartialEq, Eq)]
pub struct EffectiveConfigurationValue<T> {
    pub value: T,
    pub source_layer: ConfigurationLayer,
}

impl<T> ConfigurationAssignment<T> {
    pub fn new(layer: ConfigurationLayer, value: T) -> (r: Self)
        ensures
            r.layer == layer,
            r.value == value,
    {
        ConfigurationAssignment { layer, value }
    }
}

/// Position of a layer from lowest (0) to highest (4).
pub open spec fn layer_rank(layer: ConfigurationLayer) -> int {
    match layer {
        ConfigurationLayer::ApplicationDefaults => 0,
        ConfigurationLayer::MameGlobalDefaults => 1,
        ConfigurationLayer::ProfileDefaults => 2,
        ConfigurationLayer::MachineOverrides => 3,
        ConfigurationLayer::TransientLaunchOverrides => 4,
    }
}

/// The serialized name of a layer.
pub open spec fn layer_token(layer: ConfigurationLayer) -> Seq<char> {
    match layer {
        ConfigurationLayer::ApplicationDefaults => "applicationDefaults"@,
        ConfigurationLayer::MameGlobalDefaults => "mameGlobalDefaults"@,
        ConfigurationLayer::ProfileDefaults => "profileDefaults"@,
        ConfigurationLayer::MachineOverrides => "machineOverrides"@,
        ConfigurationLayer::TransientLaunchOverrides => "transientLaunchOverrides"@,
    }
}

/// The layers from lowest to highest.
pub open spec fn low_to_high() -> Seq<ConfigurationLayer> {
    seq![
        ConfigurationLayer::ApplicationDefaults,
        ConfigurationLayer::MameGlobalDefaults,
        ConfigurationLayer::ProfileDefaults,
        ConfigurationLayer::MachineOverrides,
        ConfigurationLayer::TransientLaunchOverrides,
    ]
}

/// The layers from highest to lowest.
pub open spec fn high_to_low() -> Seq<ConfigurationLayer> {
    seq![
        ConfigurationLayer::TransientLaunchOverrides,
        ConfigurationLayer::MachineOverrides,
        ConfigurationLayer::ProfileDefaults,
        ConfigurationLayer::MameGlobalDefaults,
        ConfigurationLayer::ApplicationDefaults,
    ]
}

impl ConfigurationLayer {
    /// The layers from lowest to highest precedence.
    pub fn low_to_high() -> (r: [ConfigurationLayer; 5])
        ensures
            r@ == low_to_high(),
    {
        let r = [
            ConfigurationLayer::ApplicationDefaults,
            ConfigurationLayer::MameGlobalDefaults,
            ConfigurationLayer::ProfileDefaults,
            ConfigurationLayer::MachineOverrides,
            ConfigurationLayer::TransientLaunchOverrides,
        ];
        assert(r@ =~= low_to_high());
        r
    }

    /// The layers from highest to lowest precedence.
    pub fn high_to_low() -> (r: [ConfigurationLayer; 5])
        ensures
            r@ == high_to_low(),
    {
        let r = [
            ConfigurationLayer::TransientLaunchOverrides,
            ConfigurationLayer::MachineOverrides,
            ConfigurationLayer::ProfileDefaults,
            ConfigurationLayer::MameGlobalDefaults,
            ConfigurationLayer::ApplicationDefaults,
        ];
        assert(r@ =~= high_to_low());
        r
    }

    /// The serialized name of this layer.
    pub fn token(&self) -> (r: String)
        ensures
            r@ == layer_token(*self),
    {
        match self {
            ConfigurationLayer::ApplicationDefaults => "applicationDefaults".to_owned(),
            ConfigurationLayer::MameGlobalDefaults => "mameGlobalDefaults".to_owned(),
            ConfigurationLayer::ProfileDefaults => "profileDefaults".to_owned(),
            ConfigurationLayer::MachineOverrides => "machineOverrides".to_owned(),
            ConfigurationLayer::TransientLaunchOverrides => "transientLaunchOverrides".to_owned(),
        }
    }
}

/// Some assignment of `s` belongs to `layer`.
pub open spec fn has_layer<T>(s: Seq<ConfigurationAssignment<T>>, layer: ConfigurationLayer) -> bool {
    exists|i: int| 0 <= i < s.len() && #[trigger] s[i].layer == layer
}

/// Assignment `j` repeats the layer of an earlier assignment.
pub open spec fn repeats_earlier<T>(s: Seq<ConfigurationAssignment<T>>, j: int) -> bool {
    0 <= j < s.len() && exists|i: int| 0 <= i < j && #[trigger] s[i].layer == s[j].layer
}

/// Two assignments share a layer.
pub open spec fn has_duplicate_layer<T>(s: Seq<ConfigurationAssignment<T>>) -> bool {
    exists|j: int| repeats_earlier(s, j)
}

/// No two assignments share a layer.
pub open spec fn layers_distinct<T>(s: Seq<ConfigurationAssignment<T>>) -> bool {
    forall|i: int, j: int|
        0 <= i < s.len() && 0 <= j < s.len() && i != j ==> #[trigger] s[i].layer != #[trigger] s[j].layer
}

/// The first assignment that repeats an earlier layer.
pub open spec fn first_repeat<T>(s: Seq<ConfigurationAssignment<T>>) -> int {
    choose|j: int| repeats_earlier(s, j) && forall|k: int| 0 <= k < j ==> !repeats_earlier(s, k)
}

/// The value supplied for `layer`, if any.
pub open spec fn layer_value<T>(s: Seq<ConfigurationAssignment<T>>, layer: ConfigurationLayer) -> Option<T> {
    if has_layer(s, layer) {
        Some(s[choose|i: int| 0 <= i < s.len() && #[trigger] s[i].layer == layer].value)
    } else {
        None
    }
}

/// The value of the highest layer that supplies one.
pub open spec fn effective_value<T>(s: Seq<ConfigurationAssignment<T>>) -> Option<
    EffectiveConfigurationValue<T>,
> {
    if has_layer(s, ConfigurationLayer::TransientLaunchOverrides) {
        Some(
            EffectiveConfigurationValue {
                value: layer_value(s, ConfigurationLayer::TransientLaunchOverrides)->0,
                source_layer: ConfigurationLayer::TransientLaunchOverrides,
            },
        )
    } else if has_layer(s, ConfigurationLayer::MachineOverrides) {
        Some(
            EffectiveConfigurationValue {
                value: layer_value(s, ConfigurationLayer::MachineOverrides)->0,
                source_layer: ConfigurationLayer::MachineOverrides,
            },
        )
    } else if has_layer(s, ConfigurationLayer::ProfileDefaults) {
        Some(
            EffectiveConfigurationValue {
                value: layer_value(s, ConfigurationLayer::ProfileDefaults)->0,
                source_layer: ConfigurationLayer::ProfileDefaults,
            },
        )
    } else if has_layer(s, ConfigurationLayer::MameGlobalDefaults) {
        Some(
            EffectiveConfigurationValue {
                value: layer_value(s, ConfigurationLayer::MameGlobalDefaults)->0,
                source_layer: ConfigurationLayer::MameGlobalDefaults,
            },
        )
    } else if has_layer(s, ConfigurationLayer::ApplicationDefaults) {
        Some(
            EffectiveConfigurationValue {
                value: layer_value(s, ConfigurationLayer::ApplicationDefaults)->0,
                source_layer: ConfigurationLayer::ApplicationDefaults,
            },
        )
    } else {
        None
    }
}

proof fn lemma_layer_value_at<T>(s: Seq<ConfigurationAssignment<T>>, k: int)
    requires
        layers_distinct(s),
        0 <= k < s.len(),
    ensures
        has_layer(s, s[k].layer),
        layer_value(s, s[k].layer) == Some(s[k].value),
{
    let layer = s[k].layer;
    assert(s[k].layer == layer);
    let c = choose|i: int| 0 <= i < s.len() && #[trigger] s[i].layer == layer;
    assert(c == k);
}

proof fn lemma_take_distinct<T>(s: Seq<ConfigurationAssignment<T>>, i: int)
    requires
        0 <= i <= s.len(),
        forall|k: int| 0 <= k < i ==> !repeats_earlier(s, k),
    ensures
        layers_distinct(s.take(i)),
{
    let t = s.take(i);
    assert forall|a: int, b: int|
        0 <= a < t.len() && 0 <= b < t.len() && a != b implies #[trigger] t[a].layer
        != #[trigger] t[b].layer by {
        if t[a].layer == t[b].layer {
            if a < b {
                assert(s[a].layer == s[b].layer);
                assert(repeats_earlier(s, b));
            } else {
                assert(s[b].layer == s[a].layer);
                assert(repeats_earlier(s, a));
            }
        }
    }
}

/// The elements of `v` in reverse order.
fn reversed<T>(v: Vec<T>) -> (r: Vec<T>)
    ensures
        r@.len() == v@.len(),
        forall|k: int| 0 <= k < v@.len() ==> r@[k] == v@[v@.len() - 1 - k],
{
    let ghost orig = v@;
    let mut v = v;
    let mut r: Vec<T> = Vec::new();
    while v.len() > 0
        invariant
            v@.len() + r@.len() == orig.len(),
            forall|k: int| 0 <= k < v@.len() ==> v@[k] == orig[k],
            forall|k: int| 0 <= k < r@.len() ==> r@[k] == orig[orig.len() - 1 - k],
        decreases v.len(),
    {
        let x = v.pop().unwrap();
        r.push(x);
    }
    r
}

/// Resolve one option using the fixed precedence contract.
///
/// Cross-layer conflicts are resolved by the higher layer. Two values for the same
/// layer are rejected instead of relying on input order.
pub fn resolve_effective_value<T>(assignments: Vec<ConfigurationAssignment<T>>) -> (r: AppResult<
    Option<EffectiveConfigurationValue<T>>,
>)
    ensures
        r is Err <==> has_duplicate_layer(assignments@),
        r matches Err(e) ==> {
            &&& e.code@ == "CONFIG_PRECEDENCE_CONFLICT"@
            &&& e.details@.len() == 1
            &&& e.details@[0].key@ == "layer"@
            &&& e.details@[0].value@ == layer_token(
                assignments@[first_repeat(assignments@)].layer,
            )
        },
        r matches Ok(v) ==> v == effective_value(assignments@),
{
    let ghost s = assignments@;
    let mut application_defaults: Option<T> = None;
    let mut mame_global_defaults: Option<T> = None;
    let mut profile_defaults: Option<T> = None;
    let mut machine_overrides: Option<T> = None;
    let mut transient_launch_overrides: Option<T> = None;
    let mut i: usize = 0;
    let total = assignments.len();
    let mut pending = reversed(assignments);
    proof {
        assert(s.take(0).len() == 0);
    }
    while pending.len() > 0
        invariant
            i + pending@.len() == s.len(),
            s == assignments@,
            s.len() == total,
            forall|k: int| 0 <= k < pending@.len() ==> pending@[k] == s[s.len() - 1 - k],
            forall|k: int| 0 <= k < i ==> !repeats_earlier(s, k),
            application_defaults == layer_value(s.take(i as int), ConfigurationLayer::ApplicationDefaults),
            mame_global_defaults == layer_value(s.take(i as int), ConfigurationLayer::MameGlobalDefaults),
            profile_defaults == layer_value(s.take(i as int), ConfigurationLayer::ProfileDefaults),
            machine_overrides == layer_value(s.take(i as int), ConfigurationLayer::MachineOverrides),
            transient_launch_overrides == layer_value(
                s.take(i as int),
                ConfigurationLayer::TransientLaunchOverrides,
            ),
        decreases pending.len(),
    {
        let assignment = pending.pop().unwrap();
        assert(assignment == s[i as int]);
        let layer = assignment.layer;
        let occupied = match layer {
            ConfigurationLayer::ApplicationDefaults => application_defaults.is_some(),
            ConfigurationLayer::MameGlobalDefaults => mame_global_defaults.is_some(),
            ConfigurationLayer::ProfileDefaults => profile_defaults.is_some(),
            ConfigurationLayer::MachineOverrides => machine_overrides.is_some(),
            ConfigurationLayer::TransientLaunchOverrides => transient_launch_overrides.is_some(),
        };
        proof {
            lemma_take_distinct(s, i as int);
        }
        if occupied {
            proof {
                let t = s.take(i as int);
                let c = choose|c: int| 0 <= c < t.len() && #[trigger] t[c].layer == layer;
                assert(s[c].layer == s[i as int].layer);
                assert(repeats_earlier(s, i as int));
                assert(has_duplicate_layer(s));
                assert(repeats_earlier(s, i as int) && forall|k: int|
                    0 <= k < i ==> !repeats_earlier(s, k));
                let j = first_repeat(s);
                assert(repeats_earlier(s, j) && forall|k: int| 0 <= k < j ==> !repeats_earlier(s, k));
                assert(j == i);
            }
            let error = AppError::new(
                "CONFIG_PRECEDENCE_CONFLICT",
                "More than one value was supplied for the same configuration layer.",
            ).with_detail("layer", layer.token());
            return Err(error);
        }
        let ghost t = s.take(i as int);
        let ghost u = s.take(i + 1);
        proof {
            assert(!has_layer(t, layer));
            assert forall|k: int| 0 <= k < i + 1 implies !repeats_earlier(s, k) by {
                if k == i {
                    if repeats_earlier(s, k) {
                        let c = choose|c: int| 0 <= c < k && #[trigger] s[c].layer == s[k].layer;
                        assert(t[c].layer == layer);
                    }
                }
            }
            lemma_take_distinct(s, i + 1);
            assert(u[i as int] == assignment);
            lemma_layer_value_at(u, i as int);
            assert forall|other: ConfigurationLayer| other != layer implies layer_value(u, other)
                == layer_value(t, other) by {
                if has_layer(t, other) {
                    let c = choose|c: int| 0 <= c < t.len() && #[trigger] t[c].layer == other;
                    lemma_layer_value_at(t, c);
                    assert(u[c] == t[c]);
                    lemma_layer_value_at(u, c);
                }
                if has_layer(u, other) {
                    let c = choose|c: int| 0 <= c < u.len() && #[trigger] u[c].layer == other;
                    assert(c != i);
                    assert(t[c] == u[c]);
                }
            }
        }
        let value = assignment.value;
        match layer {
            ConfigurationLayer::ApplicationDefaults => application_defaults = Some(value),
            ConfigurationLayer::MameGlobalDefaults => mame_global_defaults = Some(value),
            ConfigurationLayer::ProfileDefaults => profile_defaults = Some(value),
            ConfigurationLayer::MachineOverrides => machine_overrides = Some(value),
            ConfigurationLayer::TransientLaunchOverrides => transient_launch_overrides = Some(value),
        }
        i += 1;
    }
    proof {
        assert(s.take(s.len() as int) == s);
        assert(!has_duplicate_layer(s));
    }
    let winner = if let Some(value) = transient_launch_overrides {
        Some(EffectiveConfigurationValue { value, source_layer: ConfigurationLayer::TransientLaunchOverrides })
    } else if let Some(value) = machine_overrides {
        Some(EffectiveConfigurationValue { value, source_layer: ConfigurationLayer::MachineOverrides })
    } else if let Some(value) = profile_defaults {
        Some(EffectiveConfigurationValue { value, source_layer: ConfigurationLayer::ProfileDefaults })
    } else if let Some(value) = mame_global_defaults {
        Some(EffectiveConfigurationValue { value, source_layer: ConfigurationLayer::MameGlobalDefaults })
    } else if let Some(value) = application_defaults {
        Some(EffectiveConfigurationValue { value, source_layer: ConfigurationLayer::ApplicationDefaults })
    } else {
        None
    };
    Ok(winner)
}

/// `s2` lists the assignments of `s1` in another order: `s2[k] == s1[perm[k]]`, with
/// `perm` a bijection on the positions.
pub open spec fn is_reordering<T>(
    s1: Seq<ConfigurationAssignment<T>>,
    s2: Seq<ConfigurationAssignment<T>>,
    perm: Seq<int>,
) -> bool {
    &&& s1.len() == s2.len()
    &&& perm.len() == s1.len()
    &&& forall|k: int| 0 <= k < s2.len() ==> 0 <= #[trigger] perm[k] < s1.len() && s2[k] == s1[perm[k]]
    &&& forall|a: int, b: int| 0 <= a < perm.len() && 0 <= b < perm.len() && a != b ==> #[trigger] perm[a] != #[trigger] perm[b]
    &&& forall|m: int| 0 <= m < s1.len() ==> #[trigger] position_hit(perm, m)
}

/// Some position maps to `m`.
pub open spec fn position_hit(perm: Seq<int>, m: int) -> bool {
    exists|k: int| 0 <= k < perm.len() && #[trigger] perm[k] == m
}

proof fn lemma_distinct_iff_no_duplicate<T>(s: Seq<ConfigurationAssignment<T>>)
    ensures
        layers_distinct(s) <==> !has_duplicate_layer(s),
{
    if has_duplicate_layer(s) {
        let j = choose|j: int| repeats_earlier(s, j);
        let i = choose|i: int| 0 <= i < j && #[trigger] s[i].layer == s[j].layer;
        assert(s[i].layer == s[j].layer);
    }
    if !layers_distinct(s) {
        let (a, b) = choose|a: int, b: int|
            0 <= a < s.len() && 0 <= b < s.len() && a != b && #[trigger] s[a].layer == #[trigger] s[b].layer;
        if a < b {
            assert(repeats_earlier(s, b));
        } else {
            assert(repeats_earlier(s, a));
        }
    }
}

/// Reordering the assignments neither hides nor invents a same-layer conflict, and
/// without one the effective value and its source layer do not depend on the order.
pub proof fn law_resolution_ignores_input_order<T>(
    s1: Seq<ConfigurationAssignment<T>>,
    s2: Seq<ConfigurationAssignment<T>>,
    perm: Seq<int>,
)
    requires
        is_reordering(s1, s2, perm),
    ensures
        has_duplicate_layer(s1) <==> has_duplicate_layer(s2),
        !has_duplicate_layer(s1) ==> effective_value(s1) == effective_value(s2),
{
    lemma_distinct_iff_no_duplicate(s1);
    lemma_distinct_iff_no_duplicate(s2);
    if !layers_distinct(s1) {
        let (a, b) = choose|a: int, b: int|
            0 <= a < s1.len() && 0 <= b < s1.len() && a != b && #[trigger] s1[a].layer
                == #[trigger] s1[b].layer;
        assert(position_hit(perm, a) && position_hit(perm, b));
        let ka = choose|k: int| 0 <= k < perm.len() && #[trigger] perm[k] == a;
        let kb = choose|k: int| 0 <= k < perm.len() && #[trigger] perm[k] == b;
        assert(s2[ka].layer == s2[kb].layer);
    }
    if !layers_distinct(s2) {
        let (a, b) = choose|a: int, b: int|
            0 <= a < s2.len() && 0 <= b < s2.len() && a != b && #[trigger] s2[a].layer
                == #[trigger] s2[b].layer;
        assert(perm[a] != perm[b]);
        assert(s1[perm[a]].layer == s1[perm[b]].layer);
    }
    if layers_distinct(s1) {
        assert forall|layer: ConfigurationLayer| #[trigger] layer_value(s1, layer) == layer_value(s2, layer)
            && has_layer(s1, layer) == has_layer(s2, layer) by {
            if has_layer(s1, layer) {
                let m = choose|m: int| 0 <= m < s1.len() && #[trigger] s1[m].layer == layer;
                assert(position_hit(perm, m));
                let k = choose|k: int| 0 <= k < perm.len() && #[trigger] perm[k] == m;
                lemma_layer_value_at(s1, m);
                assert(s2[k] == s1[m]);
                lemma_layer_value_at(s2, k);
            }
            if has_layer(s2, layer) {
                let k = choose|k: int| 0 <= k < s2.len() && #[trigger] s2[k].layer == layer;
                assert(s1[perm[k]].layer == layer);
            }
        }
        assert(has_layer(s1, ConfigurationLayer::TransientLaunchOverrides) == has_layer(s2, ConfigurationLayer::TransientLaunchOverrides)
            && layer_value(s1, ConfigurationLayer::TransientLaunchOverrides) == layer_value(s2, ConfigurationLayer::TransientLaunchOverrides));
        assert(has_layer(s1, ConfigurationLayer::MachineOverrides) == has_layer(s2, ConfigurationLayer::MachineOverrides)
            && layer_value(s1, ConfigurationLayer::MachineOverrides) == layer_value(s2, ConfigurationLayer::MachineOverrides));
        assert(has_layer(s1, ConfigurationLayer::ProfileDefaults) == has_layer(s2, ConfigurationLayer::ProfileDefaults)
            && layer_value(s1, ConfigurationLayer::ProfileDefaults) == layer_value(s2, ConfigurationLayer::ProfileDefaults));
        assert(has_layer(s1, ConfigurationLayer::MameGlobalDefaults) == has_layer(s2, ConfigurationLayer::MameGlobalDefaults)
            && layer_value(s1, ConfigurationLayer::MameGlobalDefaults) == layer_value(s2, ConfigurationLayer::MameGlobalDefaults));
        assert(has_layer(s1, ConfigurationLayer::ApplicationDefaults) == has_layer(s2, ConfigurationLayer::ApplicationDefaults)
            && layer_value(s1, ConfigurationLayer::ApplicationDefaults) == layer_value(s2, ConfigurationLayer::ApplicationDefaults));
    }
}

/// Without a same-layer conflict, the winner is the highest layer present: its value is
/// the one that layer supplied and no assignment comes from a higher layer. An option
/// that no layer sets has no effective value.
pub proof fn law_highest_present_layer_wins<T>(s: Seq<ConfigurationAssignment<T>>)
    requires
        !has_duplicate_layer(s),
    ensures
        effective_value(s) is None <==> s.len() == 0,
        effective_value(s) matches Some(v) ==> {
            &&& exists|k: int| 0 <= k < s.len() && s[k].layer == v.source_layer && s[k].value == v.value
            &&& forall|k: int| 0 <= k < s.len() ==> layer_rank(#[trigger] s[k].layer) <= layer_rank(v.source_layer)
        },
{
    lemma_distinct_iff_no_duplicate(s);
    if s.len() > 0 {
        assert(has_layer(s, s[0].layer));
    }
    if let Some(v) = effective_value(s) {
        let k = choose|k: int| 0 <= k < s.len() && #[trigger] s[k].layer == v.source_layer;
        lemma_layer_value_at(s, k);
        assert forall|m: int| 0 <= m < s.len() implies layer_rank(#[trigger] s[m].layer) <= layer_rank(v.source_layer) by {
            assert(has_layer(s, s[m].layer));
        }
    }
}

/// Appending an assignment for a layer not yet present keeps the layers distinct, adds
/// that layer with its value and leaves every other layer as it was.
pub proof fn lemma_push_new_layer<T>(s: Seq<ConfigurationAssignment<T>>, a: ConfigurationAssignment<T>)
    requires
        layers_distinct(s),
        !has_layer(s, a.layer),
    ensures
        layers_distinct(s.push(a)),
        !has_duplicate_layer(s.push(a)),
        forall|l: ConfigurationLayer| #[trigger] has_layer(s.push(a), l) == (has_layer(s, l) || l == a.layer),
        layer_value(s.push(a), a.layer) == Some(a.value),
        forall|l: ConfigurationLayer| l != a.layer ==> #[trigger] layer_value(s.push(a), l) == layer_value(s, l),
{
    let t = s.push(a);
    assert forall|i: int, j: int| 0 <= i < t.len() && 0 <= j < t.len() && i != j implies #[trigger] t[i].layer
        != #[trigger] t[j].layer by {
        if i == s.len() {
            assert(s[j].layer != a.layer);
        } else if j == s.len() {
            assert(s[i].layer != a.layer);
        } else {
            assert(t[i] == s[i] && t[j] == s[j]);
        }
    }
    lemma_distinct_iff_no_duplicate(t);
    assert forall|l: ConfigurationLayer| #[trigger] has_layer(t, l) == (has_layer(s, l) || l == a.layer) by {
        if has_layer(s, l) {
            let k = choose|k: int| 0 <= k < s.len() && #[trigger] s[k].layer == l;
            assert(t[k] == s[k]);
        }
        if l == a.layer {
            assert(t[s.len() as int] == a);
        }
        if has_layer(t, l) && l != a.layer {
            let k = choose|k: int| 0 <= k < t.len() && #[trigger] t[k].layer == l;
            assert(k < s.len());
            assert(s[k] == t[k]);
        }
    }
    assert(t[s.len() as int] == a);
    lemma_layer_value_at(t, s.len() as int);
    assert forall|l: ConfigurationLayer| l != a.layer implies #[trigger] layer_value(t, l) == layer_value(s, l) by {
        if has_layer(s, l) {
            let k = choose|k: int| 0 <= k < s.len() && #[trigger] s[k].layer == l;
            lemma_layer_value_at(s, k);
            assert(t[k] == s[k]);
            lemma_layer_value_at(t, k);
        }
    }
}

} // verus!
