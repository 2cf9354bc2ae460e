use mkl_rs_build::error::BuildError;
use mkl_rs_build::profile::{select_profile, Profile, ProfileOptions, Threading};

fn selected_id(o: ProfileOptions) -> &'static str {
    select_profile(o).expect("one option is enabled").canonical_id()
}

#[test]
fn id_dynamic_ilp64_gomp() {
    let mut o = ProfileOptions::none_enabled();
    o.dynamic_ilp64_gomp = true;
    assert_eq!(selected_id(o), "mkl-dynamic-ilp64-gomp");
}

#[test]
fn id_dynamic_ilp64_iomp() {
    let mut o = ProfileOptions::none_enabled();
    o.dynamic_ilp64_iomp = true;
    assert_eq!(selected_id(o), "mkl-dynamic-ilp64-iomp");
}

#[test]
fn id_dynamic_ilp64_seq() {
    let mut o = ProfileOptions::none_enabled();
    o.dynamic_ilp64_seq = true;
    assert_eq!(selected_id(o), "mkl-dynamic-ilp64-seq");
}

#[test]
fn id_dynamic_lp64_gomp() {
    let mut o = ProfileOptions::none_enabled();
    o.dynamic_lp64_gomp = true;
    assert_eq!(selected_id(o), "mkl-dynamic-lp64-gomp");
}

#[test]
fn id_dynamic_lp64_iomp() {
    let mut o = ProfileOptions::none_enabled();
    o.dynamic_lp64_iomp = true;
    assert_eq!(selected_id(o), "mkl-dynamic-lp64-iomp");
}

#[test]
fn id_dynamic_lp64_seq() {
    let mut o = ProfileOptions::none_enabled();
    o.dynamic_lp64_seq = true;
    assert_eq!(selected_id(o), "mkl-dynamic-lp64-seq");
}

#[test]
fn id_static_ilp64_gomp() {
    let mut o = ProfileOptions::none_enabled();
    o.static_ilp64_gomp = true;
    assert_eq!(selected_id(o), "mkl-static-ilp64-gomp");
}

#[test]
fn id_static_ilp64_iomp() {
    let mut o = ProfileOptions::none_enabled();
    o.static_ilp64_iomp = true;
    assert_eq!(selected_id(o), "mkl-static-ilp64-iomp");
}

#[test]
fn id_static_ilp64_seq() {
    let mut o = ProfileOptions::none_enabled();
    o.static_ilp64_seq = true;
    assert_eq!(selected_id(o), "mkl-static-ilp64-seq");
}

#[test]
fn id_static_lp64_gomp() {
    let mut o = ProfileOptions::none_enabled();
    o.static_lp64_gomp = true;
    assert_eq!(selected_id(o), "mkl-static-lp64-gomp");
}

#[test]
fn id_static_lp64_iomp() {
    let mut o = ProfileOptions::none_enabled();
    o.static_lp64_iomp = true;
    assert_eq!(selected_id(o), "mkl-static-lp64-iomp");
}

#[test]
fn id_static_lp64_seq() {
    let mut o = ProfileOptions::none_enabled();
    o.static_lp64_seq = true;
    assert_eq!(selected_id(o), "mkl-static-lp64-seq");
}

#[test]
fn id_sdl() {
    let mut o = ProfileOptions::none_enabled();
    o.sdl = true;
    assert_eq!(selected_id(o), "mkl-sdl");
}

#[test]
fn no_option_is_an_error() {
    let o = ProfileOptions::none_enabled();
    assert_eq!(select_profile(o), Err(BuildError::NoProfileSelected));
    let msg = BuildError::NoProfileSelected.message();
    assert!(msg.contains("At least one of the following features must be enabled"));
    assert!(msg.contains("sdl"));
}

#[test]
fn catch_all_beside_specific_is_a_conflict() {
    let mut o = ProfileOptions::none_enabled();
    o.sdl = true;
    o.static_lp64_seq = true;
    assert_eq!(select_profile(o), Err(BuildError::ConflictingProfiles));
}

#[test]
fn catch_all_beside_dynamic_specific_is_a_conflict() {
    let mut o = ProfileOptions::none_enabled();
    o.sdl = true;
    o.dynamic_ilp64_gomp = true;
    assert_eq!(select_profile(o), Err(BuildError::ConflictingProfiles));
}

#[test]
fn two_specific_options_select_the_first_of_the_table() {
    let mut o = ProfileOptions::none_enabled();
    o.static_ilp64_gomp = true;
    o.dynamic_lp64_seq = true;
    assert_eq!(selected_id(o), "mkl-dynamic-lp64-seq");
}

#[test]
fn static_profiles_request_a_static_lookup() {
    let mut o = ProfileOptions::none_enabled();
    o.static_ilp64_iomp = true;
    assert!(select_profile(o).unwrap().requests_static());

    let mut d = ProfileOptions::none_enabled();
    d.dynamic_lp64_gomp = true;
    assert!(!select_profile(d).unwrap().requests_static());

    let mut s = ProfileOptions::none_enabled();
    s.sdl = true;
    assert!(select_profile(s).unwrap().requests_static());
}

#[test]
fn threading_of_the_selected_profile() {
    let mut o = ProfileOptions::none_enabled();
    o.static_lp64_gomp = true;
    assert_eq!(select_profile(o).unwrap().threading(), Some(Threading::Gomp));

    let mut s = ProfileOptions::none_enabled();
    s.sdl = true;
    assert_eq!(select_profile(s).unwrap().threading(), None);
}

#[test]
fn selected_profile_carries_its_attributes() {
    let mut o = ProfileOptions::none_enabled();
    o.dynamic_ilp64_seq = true;
    let p = select_profile(o).unwrap();
    assert!(matches!(p, Profile::Specific { .. }));
    assert_eq!(p.threading(), Some(Threading::Sequential));
    assert!(!p.requests_static());
}
