use mkl_rs_build::directives::{emit_directives, runtime_lib_name};
use mkl_rs_build::error::BuildError;
use mkl_rs_build::plan::{plan_from_probe, probe_query, ProbeResult};
use mkl_rs_build::profile::{select_profile, ProfileOptions};

fn strings(v: &[&str]) -> Vec<String> {
    v.iter().map(|s| s.to_string()).collect()
}

fn profile_from(set: impl Fn(&mut ProfileOptions)) -> mkl_rs_build::profile::Profile {
    let mut o = ProfileOptions::none_enabled();
    set(&mut o);
    select_profile(o).expect("one option is enabled")
}

#[test]
fn gomp_profile_links_the_gnu_runtime_only() {
    let p = profile_from(|o| o.static_lp64_gomp = true);
    let d = emit_directives(&p, &strings(&[]));
    assert!(d.link_gomp);
    assert!(!d.link_iomp);
    assert_eq!(runtime_lib_name(&p), Some("gomp"));
}

#[test]
fn sequential_profile_links_no_openmp_runtime() {
    let p = profile_from(|o| o.dynamic_lp64_seq = true);
    let d = emit_directives(&p, &strings(&[]));
    assert!(!d.link_gomp);
    assert!(!d.link_iomp);
    assert_eq!(runtime_lib_name(&p), None);
}

#[test]
fn iomp_profile_links_the_intel_runtime_only() {
    let p = profile_from(|o| o.static_ilp64_iomp = true);
    let d = emit_directives(&p, &strings(&[]));
    assert!(!d.link_gomp);
    assert!(d.link_iomp);
    assert_eq!(runtime_lib_name(&p), Some("iomp5"));
}

#[test]
fn catch_all_links_no_openmp_runtime() {
    let p = profile_from(|o| o.sdl = true);
    let d = emit_directives(&p, &strings(&[]));
    assert!(!d.link_gomp);
    assert!(!d.link_iomp);
    assert_eq!(runtime_lib_name(&p), None);
}

#[test]
fn directives_carry_the_joined_search_path() {
    let p = profile_from(|o| o.dynamic_ilp64_gomp = true);
    let d = emit_directives(&p, &strings(&["/opt/mkl/lib", "/usr/lib"]));
    assert_eq!(d.ld_library_path, "/opt/mkl/lib:/usr/lib");
}

#[test]
fn the_query_carries_identifier_floor_and_linkage() {
    let p = profile_from(|o| o.static_lp64_seq = true);
    let q = probe_query(&p);
    assert_eq!(q.name, "mkl-static-lp64-seq");
    assert_eq!(q.min_version, "2024");
    assert!(q.statik);
}

#[test]
fn sequential_static_build_end_to_end() {
    let p = profile_from(|o| o.static_lp64_seq = true);
    let probe = ProbeResult {
        version: "2024.1".to_string(),
        include_dirs: strings(&["/opt/mkl/include"]),
        link_search_dirs: strings(&[]),
        link_files: strings(&[]),
    };
    let plan = plan_from_probe(&p, &probe).expect("the probe satisfies the plan");
    assert_eq!(plan.generator.header_path, "/opt/mkl/include/mkl.h");
    assert_eq!(plan.generator.output_file_name, "bindings.rs");
    assert!(!plan.directives.link_gomp);
    assert!(!plan.directives.link_iomp);
    assert_eq!(plan.directives.ld_library_path, "");
}

#[test]
fn a_version_below_the_floor_is_rejected() {
    let p = profile_from(|o| o.dynamic_lp64_gomp = true);
    let probe = ProbeResult {
        version: "2023.2".to_string(),
        include_dirs: strings(&["/opt/mkl/include"]),
        link_search_dirs: strings(&[]),
        link_files: strings(&[]),
    };
    assert!(matches!(plan_from_probe(&p, &probe), Err(BuildError::VersionBelowMinimum)));
    assert!(BuildError::VersionBelowMinimum.message().contains("2024"));
}

#[test]
fn a_probe_without_include_directories_is_rejected() {
    let p = profile_from(|o| o.dynamic_lp64_gomp = true);
    let probe = ProbeResult {
        version: "2025.0".to_string(),
        include_dirs: strings(&[]),
        link_search_dirs: strings(&["/opt/mkl/lib"]),
        link_files: strings(&[]),
    };
    assert!(matches!(plan_from_probe(&p, &probe), Err(BuildError::NoIncludeDir)));
    assert_eq!(BuildError::NoIncludeDir.message(), "No include path found");
}

#[test]
fn the_plan_deduplicates_runtime_directories() {
    let p = profile_from(|o| o.dynamic_ilp64_iomp = true);
    let probe = ProbeResult {
        version: "2024.0".to_string(),
        include_dirs: strings(&["/opt/mkl/include"]),
        link_search_dirs: strings(&["/opt/mkl/lib"]),
        link_files: strings(&["/opt/mkl/lib/libmkl_rt.so", "/opt/intel/lib/libiomp5.so"]),
    };
    let plan = plan_from_probe(&p, &probe).expect("the probe satisfies the plan");
    assert_eq!(plan.directives.ld_library_path, "/opt/mkl/lib:/opt/intel/lib");
    assert!(plan.directives.link_iomp);
    assert!(!plan.directives.link_gomp);
}
