use mkl_rs_build::generator::generator_config;

#[test]
fn header_lies_under_the_include_directory() {
    let c = generator_config("/opt/mkl/include");
    assert_eq!(c.include_dir, "/opt/mkl/include");
    assert_eq!(c.header_path, "/opt/mkl/include/mkl.h");
}

#[test]
fn compiler_arguments_are_fixed() {
    let c = generator_config("/usr/include/mkl");
    assert_eq!(
        c.clang_args,
        vec![
            "-I/usr/include/mkl",
            "-fretain-comments-from-system-headers",
            "-fparse-all-comments",
            "-Wno-everything",
        ]
    );
}

#[test]
fn every_policy_is_enabled() {
    let c = generator_config("/opt/mkl/include");
    assert!(c.public_fields);
    assert!(c.transparent_aliases);
    assert!(c.exhaustive_plain_enums);
    assert!(c.unsigned_macro_constants);
    assert!(c.wrapped_non_copy_unions);
    assert!(c.derive_default);
    assert!(c.derive_hash);
    assert!(c.derive_partialord);
    assert!(c.derive_ord);
    assert!(c.derive_eq);
    assert!(c.derive_partialeq);
    assert!(c.generate_comments);
}

#[test]
fn the_six_extended_precision_functions_are_blocked() {
    let c = generator_config("/opt/mkl/include");
    assert_eq!(
        c.blocked_functions,
        vec!["strtold", "qecvt", "qfcvt", "qgcvt", "qecvt_r", "qfcvt_r"]
    );
}

#[test]
fn one_artifact_name() {
    let c = generator_config("/opt/mkl/include");
    assert_eq!(c.output_file_name, "bindings.rs");
}

#[test]
fn repeated_configuration_is_identical() {
    let a = generator_config("/opt/mkl/include");
    let b = generator_config("/opt/mkl/include");
    assert_eq!(a.header_path, b.header_path);
    assert_eq!(a.clang_args, b.clang_args);
    assert_eq!(a.blocked_functions, b.blocked_functions);
    assert_eq!(a.output_file_name, b.output_file_name);
}
