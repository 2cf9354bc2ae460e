//! The build plan: the probe query for the selected profile, validation of
//! the probe's report, and the complete, deterministic layout of the rest of
//! the build.

use vstd::prelude::*;
use crate::directives::{directives_match, emit_directives, LinkDirectives};
use crate::error::BuildError;
use crate::generator::{config_matches, generator_config, GeneratorConfig};
use crate::paths::{dedup_first, dir_candidates, runtime_lib_dirs};
use crate::profile::{spec_profile_id, spec_requests_static, Profile};
use crate::version::{minimum_version, spec_minimum_version, spec_version_below, version_below};

verus! {

/// The parameters of one package-metadata query.
pub struct ProbeQuery {
    /// The canonical identifier to look up.
    pub name: String,
    /// The version floor the query enforces.
    pub min_version: String,
    /// Whether static linking is requested.
    pub statik: bool,
}

/// What a package-metadata probe reported, as plain text: produced once per
/// build and consumed by planning.
pub struct ProbeResult {
    /// The version the library reports.
    pub version: String,
    /// The include directories, first one holding the master header.
    pub include_dirs: Vec<String>,
    /// The explicit link-search directories.
    pub link_search_dirs: Vec<String>,
    /// The direct link file paths.
    pub link_files: Vec<String>,
}

/// Everything the build does after a successful probe: the translator
/// configuration and the link directives.
pub struct BuildPlan {
    /// The selected profile the plan was made for.
    pub profile: Profile,
    /// The header-translator configuration.
    pub generator: GeneratorConfig,
    /// The link directives to emit.
    pub directives: LinkDirectives,
}

/// The query for a profile: its canonical identifier, the fixed version
/// floor, and a static lookup exactly when the profile requests one.
pub fn probe_query(p: &Profile) -> (q: ProbeQuery)
    ensures
        q.name@ == spec_profile_id(*p),
        q.min_version@ == spec_minimum_version(),
        q.statik == spec_requests_static(*p),
{
    ProbeQuery {
        name: String::from_str(p.canonical_id()),
        min_version: String::from_str(minimum_version()),
        statik: p.requests_static(),
    }
}

/// What a successful plan holds, determined by the profile and the probe
/// report alone: the translator configured for the first include directory,
/// and the directives for the deduplicated runtime library directories.
pub open spec fn plan_matches(
    plan: BuildPlan,
    p: Profile,
    include_dirs: Seq<Seq<char>>,
    link_files: Seq<Seq<char>>,
    link_search_dirs: Seq<Seq<char>>,
) -> bool {
    &&& plan.profile == p
    &&& config_matches(plan.generator, include_dirs[0])
    &&& directives_match(plan.directives, p, dedup_first(dir_candidates(link_files, link_search_dirs)))
}

/// Validate the probe report and lay out the rest of the build.
///
/// The plan fails exactly when the reported version is below the fixed
/// minimum, or when no include directory was reported; otherwise it succeeds
/// and every part of the plan is pinned by the inputs.
pub fn plan_from_probe(p: &Profile, probe: &ProbeResult) -> (r: Result<BuildPlan, BuildError>)
    ensures
        spec_version_below(probe.version@, spec_minimum_version())
            ==> r == Err::<BuildPlan, BuildError>(BuildError::VersionBelowMinimum),
        !spec_version_below(probe.version@, spec_minimum_version())
            && probe.include_dirs@.len() == 0
            ==> r == Err::<BuildPlan, BuildError>(BuildError::NoIncludeDir),
        !spec_version_below(probe.version@, spec_minimum_version())
            && probe.include_dirs@.len() > 0
            ==> (r matches Ok(plan) && plan_matches(
                plan,
                *p,
                probe.include_dirs.deep_view(),
                probe.link_files.deep_view(),
                probe.link_search_dirs.deep_view(),
            )),
{
    if version_below(probe.version.as_str(), minimum_version()) {
        return Err(BuildError::VersionBelowMinimum);
    }
    if probe.include_dirs.len() == 0 {
        return Err(BuildError::NoIncludeDir);
    }
    let generator = generator_config(probe.include_dirs[0].as_str());
    let lib_dirs = runtime_lib_dirs(&probe.link_files, &probe.link_search_dirs);
    let directives = emit_directives(p, &lib_dirs);
    Ok(BuildPlan { profile: *p, generator, directives })
}

/// Planning is deterministic: with the profile and the probe report fixed,
/// two plans agree on every observable part — the header path, the compiler
/// arguments, every policy, the blocked functions, the link requests and the
/// published search path.
pub proof fn lemma_plan_deterministic(
    plan1: BuildPlan,
    plan2: BuildPlan,
    p: Profile,
    include_dirs: Seq<Seq<char>>,
    link_files: Seq<Seq<char>>,
    link_search_dirs: Seq<Seq<char>>,
)
    requires
        plan_matches(plan1, p, include_dirs, link_files, link_search_dirs),
        plan_matches(plan2, p, include_dirs, link_files, link_search_dirs),
    ensures
        plan1.profile == plan2.profile,
        plan1.generator.include_dir@ == plan2.generator.include_dir@,
        plan1.generator.header_path@ == plan2.generator.header_path@,
        plan1.generator.clang_args.deep_view() == plan2.generator.clang_args.deep_view(),
        plan1.generator.blocked_functions.deep_view() == plan2.generator.blocked_functions.deep_view(),
        plan1.generator.output_file_name@ == plan2.generator.output_file_name@,
        plan1.generator.public_fields == plan2.generator.public_fields,
        plan1.generator.transparent_aliases == plan2.generator.transparent_aliases,
        plan1.generator.exhaustive_plain_enums == plan2.generator.exhaustive_plain_enums,
        plan1.generator.unsigned_macro_constants == plan2.generator.unsigned_macro_constants,
        plan1.generator.wrapped_non_copy_unions == plan2.generator.wrapped_non_copy_unions,
        plan1.generator.derive_default == plan2.generator.derive_default,
        plan1.generator.derive_hash == plan2.generator.derive_hash,
        plan1.generator.derive_partialord == plan2.generator.derive_partialord,
        plan1.generator.derive_ord == plan2.generator.derive_ord,
        plan1.generator.derive_eq == plan2.generator.derive_eq,
        plan1.generator.derive_partialeq == plan2.generator.derive_partialeq,
        plan1.generator.generate_comments == plan2.generator.generate_comments,
        plan1.directives.link_gomp == plan2.directives.link_gomp,
        plan1.directives.link_iomp == plan2.directives.link_iomp,
        plan1.directives.ld_library_path@ == plan2.directives.ld_library_path@,
{
}

} // verus!
