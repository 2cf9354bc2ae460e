//! The fixed header-translator configuration: style and derivation policies,
//! the header compiler arguments, and the symbols kept out of the bindings.
//!
//! The configuration is pure data; the enclosing build script maps it onto
//! the translator and runs it.

use vstd::prelude::*;

verus! {

/// Everything the header translator is configured with. The style and
/// derivation policies are fixed; only the include directory, and the header
/// path under it, vary with the probe result.
pub struct GeneratorConfig {
    /// The include directory the probe reported first.
    pub include_dir: String,
    /// The master header under the include directory.
    pub header_path: String,
    /// Arguments handed to the header compiler.
    pub clang_args: Vec<String>,
    /// Generated struct fields are public.
    pub public_fields: bool,
    /// Type aliases translate to transparent type aliases.
    pub transparent_aliases: bool,
    /// Enums translate to plain exhaustive enumerations, without a catch-all
    /// variant.
    pub exhaustive_plain_enums: bool,
    /// Macro constants of unclear type translate as unsigned integers.
    pub unsigned_macro_constants: bool,
    /// Non-copyable union-like types translate to a wrapper preserving raw
    /// bytes.
    pub wrapped_non_copy_unions: bool,
    /// Derive default-value construction where feasible.
    pub derive_default: bool,
    /// Derive hashing where feasible.
    pub derive_hash: bool,
    /// Derive partial ordering where feasible.
    pub derive_partialord: bool,
    /// Derive total ordering where feasible.
    pub derive_ord: bool,
    /// Derive total equality where feasible.
    pub derive_eq: bool,
    /// Derive partial equality where feasible.
    pub derive_partialeq: bool,
    /// Turn header comments into documentation comments.
    pub generate_comments: bool,
    /// Functions never generated, even when the header declares them.
    pub blocked_functions: Vec<String>,
    /// Name of the artifact written to the build output directory.
    pub output_file_name: String,
}

/// The header compiler arguments: the reported include directory on the
/// search path, comments retained and parsed, and non-fatal diagnostics
/// suppressed.
pub open spec fn spec_clang_args(include_dir: Seq<char>) -> Seq<Seq<char>> {
    seq![
        "-I"@ + include_dir,
        "-fretain-comments-from-system-headers"@,
        "-fparse-all-comments"@,
        "-Wno-everything"@,
    ]
}

/// The six extended-precision conversion functions kept out of the bindings:
/// they depend on a numeric type that is not portably representable.
pub open spec fn spec_blocked_functions() -> Seq<Seq<char>> {
    seq!["strtold"@, "qecvt"@, "qfcvt"@, "qgcvt"@, "qecvt_r"@, "qfcvt_r"@]
}

/// What the translator configuration for a given include directory holds:
/// the master header directly under it, the fixed compiler arguments, every
/// policy enabled, and exactly the six blocked functions.
pub open spec fn config_matches(c: GeneratorConfig, include_dir: Seq<char>) -> bool {
    &&& c.include_dir@ == include_dir
    &&& c.header_path@ == include_dir + "/mkl.h"@
    &&& c.clang_args.deep_view() == spec_clang_args(include_dir)
    &&& c.public_fields
    &&& c.transparent_aliases
    &&& c.exhaustive_plain_enums
    &&& c.unsigned_macro_constants
    &&& c.wrapped_non_copy_unions
    &&& c.derive_default
    &&& c.derive_hash
    &&& c.derive_partialord
    &&& c.derive_ord
    &&& c.derive_eq
    &&& c.derive_partialeq
    &&& c.generate_comments
    &&& c.blocked_functions.deep_view() == spec_blocked_functions()
    &&& c.output_file_name@ == "bindings.rs"@
}

/// The translator configuration for the master header under include_dir.
pub fn generator_config(include_dir: &str) -> (r: GeneratorConfig)
    ensures
        config_matches(r, include_dir@),
{
    let mut header_path = include_dir.to_owned();
    header_path.append("/mkl.h");

    let mut include_arg = String::from_str("-I");
    include_arg.append(include_dir);
    let mut clang_args: Vec<String> = Vec::new();
    clang_args.push(include_arg);
    clang_args.push(String::from_str("-fretain-comments-from-system-headers"));
    clang_args.push(String::from_str("-fparse-all-comments"));
    clang_args.push(String::from_str("-Wno-everything"));

    let mut blocked_functions: Vec<String> = Vec::new();
    blocked_functions.push(String::from_str("strtold"));
    blocked_functions.push(String::from_str("qecvt"));
    blocked_functions.push(String::from_str("qfcvt"));
    blocked_functions.push(String::from_str("qgcvt"));
    blocked_functions.push(String::from_str("qecvt_r"));
    blocked_functions.push(String::from_str("qfcvt_r"));

    proof {
        assert(clang_args.deep_view() =~= spec_clang_args(include_dir@));
        assert(blocked_functions.deep_view() =~= spec_blocked_functions());
    }

    GeneratorConfig {
        include_dir: include_dir.to_owned(),
        header_path,
        clang_args,
        public_fields: true,
        transparent_aliases: true,
        exhaustive_plain_enums: true,
        unsigned_macro_constants: true,
        wrapped_non_copy_unions: true,
        derive_default: true,
        derive_hash: true,
        derive_partialord: true,
        derive_ord: true,
        derive_eq: true,
        derive_partialeq: true,
        generate_comments: true,
        blocked_functions,
        output_file_name: String::from_str("bindings.rs"),
    }
}

} // verus!
