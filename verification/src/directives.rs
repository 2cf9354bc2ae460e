//! The link directives the build emits for the selected profile: which
//! companion OpenMP runtime to link, and the joined runtime library search
//! path published for dependent steps.

use vstd::prelude::*;
use crate::paths::joined;
use crate::profile::{Profile, Threading};
use crate::profile::spec_threading;

verus! {

/// The advisory output of a build: the OpenMP runtime link requests and the
/// runtime library search path, ready for the enclosing build tool.
pub struct LinkDirectives {
    /// Link the GNU OpenMP runtime.
    pub link_gomp: bool,
    /// Link the Intel OpenMP runtime.
    pub link_iomp: bool,
    /// The deduplicated runtime library directories, joined with ':'.
    pub ld_library_path: String,
}

/// What the directives for a profile and a directory list hold: a GNU-OpenMP
/// link exactly for the GNU-OpenMP profiles, an Intel-OpenMP link exactly
/// for the Intel-OpenMP profiles, and the joined directory list.
pub open spec fn directives_match(d: LinkDirectives, p: Profile, dirs: Seq<Seq<char>>) -> bool {
    &&& d.link_gomp == (spec_threading(p) == Some(Threading::Gomp))
    &&& d.link_iomp == (spec_threading(p) == Some(Threading::Iomp))
    &&& d.ld_library_path@ == joined(dirs)
}

/// The link directives for the selected profile and the resolved runtime
/// library directories.
pub fn emit_directives(p: &Profile, dirs: &Vec<String>) -> (r: LinkDirectives)
    ensures
        directives_match(r, *p, dirs.deep_view()),
{
    let threading = p.threading();
    let link_gomp = matches!(threading, Some(Threading::Gomp));
    let link_iomp = matches!(threading, Some(Threading::Iomp));
    LinkDirectives {
        link_gomp,
        link_iomp,
        ld_library_path: crate::paths::join_paths(dirs),
    }
}

/// The companion OpenMP runtime library to link, when the profile's
/// threading runtime needs one.
pub fn runtime_lib_name(p: &Profile) -> (r: Option<&'static str>)
    ensures
        spec_threading(*p) == Some(Threading::Gomp) ==> (r matches Some(s) && s@ == "gomp"@),
        spec_threading(*p) == Some(Threading::Iomp) ==> (r matches Some(s) && s@ == "iomp5"@),
        spec_threading(*p) == Some(Threading::Sequential) ==> r is None,
        spec_threading(*p) is None ==> r is None,
{
    match p.threading() {
        Some(Threading::Gomp) => Some("gomp"),
        Some(Threading::Iomp) => Some("iomp5"),
        Some(Threading::Sequential) => None,
        None => None,
    }
}

} // verus!
