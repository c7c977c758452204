//! The content path page: the configured ROM, software and CHD directories, each with
//! the result of checking it, in the user's order.

use vstd::prelude::*;

use crate::config::{validate_content_path, validation_of, ContentPathsV1, PathProbe, PathValidation, PlatformPath, SettingsV2};

verus! {

#[derive(Debug, Clone, PartialEq, Eq)]
pub struct ContentPathValidations {
    pub rom_paths: Vec<PathValidation>,
    pub software_paths: Vec<PathValidation>,
    pub chd_paths: Vec<PathValidation>,
}

#[derive(Debug, Clone, PartialEq, Eq)]
pub struct ContentPathConfiguration {
    pub content_paths: ContentPathsV1,
    pub validations: ContentPathValidations,
}

#[derive(Debug, Clone, PartialEq, Eq)]
pub struct SetContentPathsRequest {
    pub content_paths: ContentPathsV1,
}

/// Each validation is that of the path at the same position, from its probe.
pub open spec fn validations_of(paths: Seq<PlatformPath>, probes: Seq<PathProbe>, vs: Seq<PathValidation>) -> bool {
    &&& vs.len() == paths.len()
    &&& forall|i: int| 0 <= i < paths.len() ==> validation_of(paths[i].bytes(), probes[i], #[trigger] vs[i])
}

/// Validate a list of paths, one probe per path, keeping their order.
pub fn validate_paths(paths: &[PlatformPath], probes: Vec<PathProbe>) -> (r: Vec<PathValidation>)
    requires
        probes@.len() == paths@.len(),
    ensures
        validations_of(paths@, probes@, r@),
{
    let mut out: Vec<PathValidation> = Vec::new();
    let mut rest = probes;
    let ghost all = rest@;
    let mut k: usize = 0;
    while k < paths.len()
        invariant
            all == probes@,
            all.len() == paths@.len(),
            k <= paths@.len(),
            rest@ == all.subrange(k as int, all.len() as int),
            out@.len() == k,
            forall|i: int| 0 <= i < k ==> validation_of(paths@[i].bytes(), all[i], #[trigger] out@[i]),
        decreases paths.len() - k,
    {
        let probe = rest.remove(0);
        assert(probe == all[k as int]);
        let v = validate_content_path(&paths[k], probe);
        out.push(v);
        k += 1;
    }
    out
}

/// The page for the given paths, with each path's probe.
pub fn configuration_for(
    content_paths: ContentPathsV1,
    rom_probes: Vec<PathProbe>,
    software_probes: Vec<PathProbe>,
    chd_probes: Vec<PathProbe>,
) -> (r: ContentPathConfiguration)
    requires
        rom_probes@.len() == content_paths.rom_paths@.len(),
        software_probes@.len() == content_paths.software_paths@.len(),
        chd_probes@.len() == content_paths.chd_paths@.len(),
    ensures
        r.content_paths == content_paths,
        validations_of(content_paths.rom_paths@, rom_probes@, r.validations.rom_paths@),
        validations_of(content_paths.software_paths@, software_probes@, r.validations.software_paths@),
        validations_of(content_paths.chd_paths@, chd_probes@, r.validations.chd_paths@),
{
    let rom_paths = validate_paths(content_paths.rom_paths.as_slice(), rom_probes);
    let software_paths = validate_paths(content_paths.software_paths.as_slice(), software_probes);
    let chd_paths = validate_paths(content_paths.chd_paths.as_slice(), chd_probes);
    ContentPathConfiguration {
        content_paths,
        validations: ContentPathValidations { rom_paths, software_paths, chd_paths },
    }
}

/// The settings with the content paths replaced and everything else kept, such as the
/// configured executable.
pub fn with_content_paths(settings: SettingsV2, content_paths: ContentPathsV1) -> (r: SettingsV2)
    ensures
        r == (SettingsV2 { content_paths, ..settings }),
{
    SettingsV2 { content_paths, ..settings }
}

} // verus!
