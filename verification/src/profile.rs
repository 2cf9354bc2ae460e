//! The linking profiles and the decision table from enabled build options to
//! the single selected profile and its canonical identifier.

use vstd::prelude::*;
use crate::error::BuildError;

verus! {

/// How the library is linked into the final artifact.
#[derive(Clone, Copy, Debug, PartialEq, Eq, Structural)]
pub enum Linkage {
    Dynamic,
    Static,
}

/// The integer index width the library was built for.
#[derive(Clone, Copy, Debug, PartialEq, Eq, Structural)]
pub enum IndexWidth {
    Ilp64,
    Lp64,
}

/// The threading runtime the library variant relies on.
#[derive(Clone, Copy, Debug, PartialEq, Eq, Structural)]
pub enum Threading {
    Gomp,
    Iomp,
    Sequential,
}

/// One linking profile: a specific combination of linkage, index width and
/// threading runtime, or the single-dynamic-library catch-all.
#[derive(Clone, Copy, Debug, PartialEq, Eq, Structural)]
pub enum Profile {
    Specific { linkage: Linkage, index: IndexWidth, threading: Threading },
    Sdl,
}

/// The mutually exclusive build options, one per linking profile. Exactly one
/// must be enabled per build.
#[derive(Clone, Copy, Debug, PartialEq, Eq, Structural)]
pub struct ProfileOptions {
    pub dynamic_ilp64_gomp: bool,
    pub dynamic_ilp64_iomp: bool,
    pub dynamic_ilp64_seq: bool,
    pub dynamic_lp64_gomp: bool,
    pub dynamic_lp64_iomp: bool,
    pub dynamic_lp64_seq: bool,
    pub static_ilp64_gomp: bool,
    pub static_ilp64_iomp: bool,
    pub static_ilp64_seq: bool,
    pub static_lp64_gomp: bool,
    pub static_lp64_iomp: bool,
    pub static_lp64_seq: bool,
    pub sdl: bool,
}

/// A specific (non-catch-all) profile.
pub open spec fn specific(linkage: Linkage, index: IndexWidth, threading: Threading) -> Profile {
    Profile::Specific { linkage, index, threading }
}

/// Whether any of the twelve specific profile options is enabled.
pub open spec fn any_specific(o: ProfileOptions) -> bool {
    ||| o.dynamic_ilp64_gomp
    ||| o.dynamic_ilp64_iomp
    ||| o.dynamic_ilp64_seq
    ||| o.dynamic_lp64_gomp
    ||| o.dynamic_lp64_iomp
    ||| o.dynamic_lp64_seq
    ||| o.static_ilp64_gomp
    ||| o.static_ilp64_iomp
    ||| o.static_ilp64_seq
    ||| o.static_lp64_gomp
    ||| o.static_lp64_iomp
    ||| o.static_lp64_seq
}

/// The decision table: the ordered list of options, first enabled one wins,
/// with the catch-all last. None when no option is enabled.
pub open spec fn first_match(o: ProfileOptions) -> Option<Profile> {
    if o.dynamic_ilp64_gomp {
        Some(specific(Linkage::Dynamic, IndexWidth::Ilp64, Threading::Gomp))
    } else if o.dynamic_ilp64_iomp {
        Some(specific(Linkage::Dynamic, IndexWidth::Ilp64, Threading::Iomp))
    } else if o.dynamic_ilp64_seq {
        Some(specific(Linkage::Dynamic, IndexWidth::Ilp64, Threading::Sequential))
    } else if o.dynamic_lp64_gomp {
        Some(specific(Linkage::Dynamic, IndexWidth::Lp64, Threading::Gomp))
    } else if o.dynamic_lp64_iomp {
        Some(specific(Linkage::Dynamic, IndexWidth::Lp64, Threading::Iomp))
    } else if o.dynamic_lp64_seq {
        Some(specific(Linkage::Dynamic, IndexWidth::Lp64, Threading::Sequential))
    } else if o.static_ilp64_gomp {
        Some(specific(Linkage::Static, IndexWidth::Ilp64, Threading::Gomp))
    } else if o.static_ilp64_iomp {
        Some(specific(Linkage::Static, IndexWidth::Ilp64, Threading::Iomp))
    } else if o.static_ilp64_seq {
        Some(specific(Linkage::Static, IndexWidth::Ilp64, Threading::Sequential))
    } else if o.static_lp64_gomp {
        Some(specific(Linkage::Static, IndexWidth::Lp64, Threading::Gomp))
    } else if o.static_lp64_iomp {
        Some(specific(Linkage::Static, IndexWidth::Lp64, Threading::Iomp))
    } else if o.static_lp64_seq {
        Some(specific(Linkage::Static, IndexWidth::Lp64, Threading::Sequential))
    } else if o.sdl {
        Some(Profile::Sdl)
    } else {
        None
    }
}

/// What profile selection returns: the catch-all beside any specific option
/// is a conflict, no option at all is an error, and otherwise the first
/// enabled option of the table decides.
pub open spec fn spec_select(o: ProfileOptions) -> Result<Profile, BuildError> {
    if o.sdl && any_specific(o) {
        Err(BuildError::ConflictingProfiles)
    } else {
        match first_match(o) {
            Some(p) => Ok(p),
            None => Err(BuildError::NoProfileSelected),
        }
    }
}

/// Resolve the enabled options to the single selected profile, or report why
/// none can be selected.
pub fn select_profile(o: ProfileOptions) -> (r: Result<Profile, BuildError>)
    ensures
        r == spec_select(o),
{
    let conflict = o.sdl && (o.dynamic_ilp64_gomp || o.dynamic_ilp64_iomp || o.dynamic_ilp64_seq
        || o.dynamic_lp64_gomp || o.dynamic_lp64_iomp || o.dynamic_lp64_seq
        || o.static_ilp64_gomp || o.static_ilp64_iomp || o.static_ilp64_seq
        || o.static_lp64_gomp || o.static_lp64_iomp || o.static_lp64_seq);
    if conflict {
        Err(BuildError::ConflictingProfiles)
    } else if o.dynamic_ilp64_gomp {
        Ok(Profile::Specific { linkage: Linkage::Dynamic, index: IndexWidth::Ilp64, threading: Threading::Gomp })
    } else if o.dynamic_ilp64_iomp {
        Ok(Profile::Specific { linkage: Linkage::Dynamic, index: IndexWidth::Ilp64, threading: Threading::Iomp })
    } else if o.dynamic_ilp64_seq {
        Ok(Profile::Specific { linkage: Linkage::Dynamic, index: IndexWidth::Ilp64, threading: Threading::Sequential })
    } else if o.dynamic_lp64_gomp {
        Ok(Profile::Specific { linkage: Linkage::Dynamic, index: IndexWidth::Lp64, threading: Threading::Gomp })
    } else if o.dynamic_lp64_iomp {
        Ok(Profile::Specific { linkage: Linkage::Dynamic, index: IndexWidth::Lp64, threading: Threading::Iomp })
    } else if o.dynamic_lp64_seq {
        Ok(Profile::Specific { linkage: Linkage::Dynamic, index: IndexWidth::Lp64, threading: Threading::Sequential })
    } else if o.static_ilp64_gomp {
        Ok(Profile::Specific { linkage: Linkage::Static, index: IndexWidth::Ilp64, threading: Threading::Gomp })
    } else if o.static_ilp64_iomp {
        Ok(Profile::Specific { linkage: Linkage::Static, index: IndexWidth::Ilp64, threading: Threading::Iomp })
    } else if o.static_ilp64_seq {
        Ok(Profile::Specific { linkage: Linkage::Static, index: IndexWidth::Ilp64, threading: Threading::Sequential })
    } else if o.static_lp64_gomp {
        Ok(Profile::Specific { linkage: Linkage::Static, index: IndexWidth::Lp64, threading: Threading::Gomp })
    } else if o.static_lp64_iomp {
        Ok(Profile::Specific { linkage: Linkage::Static, index: IndexWidth::Lp64, threading: Threading::Iomp })
    } else if o.static_lp64_seq {
        Ok(Profile::Specific { linkage: Linkage::Static, index: IndexWidth::Lp64, threading: Threading::Sequential })
    } else if o.sdl {
        Ok(Profile::Sdl)
    } else {
        Err(BuildError::NoProfileSelected)
    }
}

/// The canonical identifier the package metadata is registered under.
pub open spec fn spec_profile_id(p: Profile) -> Seq<char> {
    match p {
        Profile::Specific { linkage: Linkage::Dynamic, index: IndexWidth::Ilp64, threading: Threading::Gomp } => "mkl-dynamic-ilp64-gomp"@,
        Profile::Specific { linkage: Linkage::Dynamic, index: IndexWidth::Ilp64, threading: Threading::Iomp } => "mkl-dynamic-ilp64-iomp"@,
        Profile::Specific { linkage: Linkage::Dynamic, index: IndexWidth::Ilp64, threading: Threading::Sequential } => "mkl-dynamic-ilp64-seq"@,
        Profile::Specific { linkage: Linkage::Dynamic, index: IndexWidth::Lp64, threading: Threading::Gomp } => "mkl-dynamic-lp64-gomp"@,
        Profile::Specific { linkage: Linkage::Dynamic, index: IndexWidth::Lp64, threading: Threading::Iomp } => "mkl-dynamic-lp64-iomp"@,
        Profile::Specific { linkage: Linkage::Dynamic, index: IndexWidth::Lp64, threading: Threading::Sequential } => "mkl-dynamic-lp64-seq"@,
        Profile::Specific { linkage: Linkage::Static, index: IndexWidth::Ilp64, threading: Threading::Gomp } => "mkl-static-ilp64-gomp"@,
        Profile::Specific { linkage: Linkage::Static, index: IndexWidth::Ilp64, threading: Threading::Iomp } => "mkl-static-ilp64-iomp"@,
        Profile::Specific { linkage: Linkage::Static, index: IndexWidth::Ilp64, threading: Threading::Sequential } => "mkl-static-ilp64-seq"@,
        Profile::Specific { linkage: Linkage::Static, index: IndexWidth::Lp64, threading: Threading::Gomp } => "mkl-static-lp64-gomp"@,
        Profile::Specific { linkage: Linkage::Static, index: IndexWidth::Lp64, threading: Threading::Iomp } => "mkl-static-lp64-iomp"@,
        Profile::Specific { linkage: Linkage::Static, index: IndexWidth::Lp64, threading: Threading::Sequential } => "mkl-static-lp64-seq"@,
        Profile::Sdl => "mkl-sdl"@,
    }
}

/// The threading runtime of a specific profile; the catch-all has none.
pub open spec fn spec_threading(p: Profile) -> Option<Threading> {
    match p {
        Profile::Specific { threading, .. } => Some(threading),
        Profile::Sdl => None,
    }
}

/// Whether the package metadata is queried for static linking. The catch-all
/// names the single dynamic library, and the probe convention requests a
/// static query for it all the same, as for the static profiles.
pub open spec fn spec_requests_static(p: Profile) -> bool {
    match p {
        Profile::Specific { linkage, .. } => linkage is Static,
        Profile::Sdl => true,
    }
}

impl Profile {
    /// The canonical identifier the package metadata is registered under.
    pub fn canonical_id(&self) -> (r: &'static str)
        ensures
            r@ == spec_profile_id(*self),
    {
        match self {
            Profile::Specific { linkage: Linkage::Dynamic, index: IndexWidth::Ilp64, threading: Threading::Gomp } => "mkl-dynamic-ilp64-gomp",
            Profile::Specific { linkage: Linkage::Dynamic, index: IndexWidth::Ilp64, threading: Threading::Iomp } => "mkl-dynamic-ilp64-iomp",
            Profile::Specific { linkage: Linkage::Dynamic, index: IndexWidth::Ilp64, threading: Threading::Sequential } => "mkl-dynamic-ilp64-seq",
            Profile::Specific { linkage: Linkage::Dynamic, index: IndexWidth::Lp64, threading: Threading::Gomp } => "mkl-dynamic-lp64-gomp",
            Profile::Specific { linkage: Linkage::Dynamic, index: IndexWidth::Lp64, threading: Threading::Iomp } => "mkl-dynamic-lp64-iomp",
            Profile::Specific { linkage: Linkage::Dynamic, index: IndexWidth::Lp64, threading: Threading::Sequential } => "mkl-dynamic-lp64-seq",
            Profile::Specific { linkage: Linkage::Static, index: IndexWidth::Ilp64, threading: Threading::Gomp } => "mkl-static-ilp64-gomp",
            Profile::Specific { linkage: Linkage::Static, index: IndexWidth::Ilp64, threading: Threading::Iomp } => "mkl-static-ilp64-iomp",
            Profile::Specific { linkage: Linkage::Static, index: IndexWidth::Ilp64, threading: Threading::Sequential } => "mkl-static-ilp64-seq",
            Profile::Specific { linkage: Linkage::Static, index: IndexWidth::Lp64, threading: Threading::Gomp } => "mkl-static-lp64-gomp",
            Profile::Specific { linkage: Linkage::Static, index: IndexWidth::Lp64, threading: Threading::Iomp } => "mkl-static-lp64-iomp",
            Profile::Specific { linkage: Linkage::Static, index: IndexWidth::Lp64, threading: Threading::Sequential } => "mkl-static-lp64-seq",
            Profile::Sdl => "mkl-sdl",
        }
    }

    /// The threading runtime of a specific profile; the catch-all has none.
    pub fn threading(&self) -> (r: Option<Threading>)
        ensures
            r == spec_threading(*self),
    {
        match self {
            Profile::Specific { threading, .. } => Some(*threading),
            Profile::Sdl => None,
        }
    }

    /// Whether the package metadata is queried for static linking.
    pub fn requests_static(&self) -> (r: bool)
        ensures
            r == spec_requests_static(*self),
    {
        match self {
            Profile::Specific { linkage: Linkage::Static, .. } => true,
            Profile::Specific { linkage: Linkage::Dynamic, .. } => false,
            Profile::Sdl => true,
        }
    }
}

/// How many options are enabled.
pub open spec fn enabled_count(o: ProfileOptions) -> int {
    (if o.dynamic_ilp64_gomp { 1int } else { 0 })
    + (if o.dynamic_ilp64_iomp { 1int } else { 0 })
    + (if o.dynamic_ilp64_seq { 1int } else { 0 })
    + (if o.dynamic_lp64_gomp { 1int } else { 0 })
    + (if o.dynamic_lp64_iomp { 1int } else { 0 })
    + (if o.dynamic_lp64_seq { 1int } else { 0 })
    + (if o.static_ilp64_gomp { 1int } else { 0 })
    + (if o.static_ilp64_iomp { 1int } else { 0 })
    + (if o.static_ilp64_seq { 1int } else { 0 })
    + (if o.static_lp64_gomp { 1int } else { 0 })
    + (if o.static_lp64_iomp { 1int } else { 0 })
    + (if o.static_lp64_seq { 1int } else { 0 })
    + (if o.sdl { 1int } else { 0 })
}

/// With exactly one option enabled, selection succeeds and yields the
/// profile whose canonical identifier belongs to that option.
pub proof fn lemma_exactly_one_option_selects(o: ProfileOptions)
    requires
        enabled_count(o) == 1,
    ensures
        spec_select(o) is Ok,
        o.dynamic_ilp64_gomp ==> (spec_select(o) matches Ok(p) && spec_profile_id(p) == "mkl-dynamic-ilp64-gomp"@),
        o.dynamic_ilp64_iomp ==> (spec_select(o) matches Ok(p) && spec_profile_id(p) == "mkl-dynamic-ilp64-iomp"@),
        o.dynamic_ilp64_seq ==> (spec_select(o) matches Ok(p) && spec_profile_id(p) == "mkl-dynamic-ilp64-seq"@),
        o.dynamic_lp64_gomp ==> (spec_select(o) matches Ok(p) && spec_profile_id(p) == "mkl-dynamic-lp64-gomp"@),
        o.dynamic_lp64_iomp ==> (spec_select(o) matches Ok(p) && spec_profile_id(p) == "mkl-dynamic-lp64-iomp"@),
        o.dynamic_lp64_seq ==> (spec_select(o) matches Ok(p) && spec_profile_id(p) == "mkl-dynamic-lp64-seq"@),
        o.static_ilp64_gomp ==> (spec_select(o) matches Ok(p) && spec_profile_id(p) == "mkl-static-ilp64-gomp"@),
        o.static_ilp64_iomp ==> (spec_select(o) matches Ok(p) && spec_profile_id(p) == "mkl-static-ilp64-iomp"@),
        o.static_ilp64_seq ==> (spec_select(o) matches Ok(p) && spec_profile_id(p) == "mkl-static-ilp64-seq"@),
        o.static_lp64_gomp ==> (spec_select(o) matches Ok(p) && spec_profile_id(p) == "mkl-static-lp64-gomp"@),
        o.static_lp64_iomp ==> (spec_select(o) matches Ok(p) && spec_profile_id(p) == "mkl-static-lp64-iomp"@),
        o.static_lp64_seq ==> (spec_select(o) matches Ok(p) && spec_profile_id(p) == "mkl-static-lp64-seq"@),
        o.sdl ==> (spec_select(o) matches Ok(p) && spec_profile_id(p) == "mkl-sdl"@),
{
}

/// With no option enabled, selection reports that a profile is missing.
pub proof fn lemma_no_option_fails(o: ProfileOptions)
    requires
        enabled_count(o) == 0,
    ensures
        spec_select(o) == Err::<Profile, BuildError>(BuildError::NoProfileSelected),
{
}

/// The catch-all beside any specific option is rejected as a conflict.
pub proof fn lemma_catch_all_conflicts(o: ProfileOptions)
    requires
        o.sdl,
        any_specific(o),
    ensures
        spec_select(o) == Err::<Profile, BuildError>(BuildError::ConflictingProfiles),
{
}

impl ProfileOptions {
    /// Options with nothing enabled; tests and callers enable fields from it.
    pub fn none_enabled() -> (r: ProfileOptions)
        ensures
            !r.dynamic_ilp64_gomp && !r.dynamic_ilp64_iomp && !r.dynamic_ilp64_seq,
            !r.dynamic_lp64_gomp && !r.dynamic_lp64_iomp && !r.dynamic_lp64_seq,
            !r.static_ilp64_gomp && !r.static_ilp64_iomp && !r.static_ilp64_seq,
            !r.static_lp64_gomp && !r.static_lp64_iomp && !r.static_lp64_seq,
            !r.sdl,
    {
        ProfileOptions {
            dynamic_ilp64_gomp: false,
            dynamic_ilp64_iomp: false,
            dynamic_ilp64_seq: false,
            dynamic_lp64_gomp: false,
            dynamic_lp64_iomp: false,
            dynamic_lp64_seq: false,
            static_ilp64_gomp: false,
            static_ilp64_iomp: false,
            static_ilp64_seq: false,
            static_lp64_gomp: false,
            static_lp64_iomp: false,
            static_lp64_seq: false,
            sdl: false,
        }
    }
}

} // verus!
