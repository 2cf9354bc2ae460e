use mkl_rs_build::version::{minimum_version, split_version, version_below};

#[test]
fn the_floor_is_a_calendar_year() {
    assert_eq!(minimum_version(), "2024");
}

#[test]
fn below_the_floor() {
    assert!(version_below("2023.9", "2024"));
    assert!(version_below("2023", "2024"));
    assert!(version_below("1999.12", "2024"));
    assert!(version_below("9", "2024"));
    assert!(version_below("", "2024"));
}

#[test]
fn at_or_above_the_floor() {
    assert!(!version_below("2024", "2024"));
    assert!(!version_below("2024.1", "2024"));
    assert!(!version_below("2024.0", "2024"));
    assert!(!version_below("2025", "2024"));
    assert!(!version_below("2024.0.1", "2024"));
}

#[test]
fn components_compare_numerically() {
    assert!(version_below("2024.9", "2024.10"));
    assert!(!version_below("2024.10", "2024.9"));
    assert!(version_below("2.9.9", "2.10.0"));
}

#[test]
fn leading_zeros_do_not_count() {
    assert!(!version_below("02024", "2024"));
    assert!(!version_below("2024", "02024"));
    assert!(version_below("2024.09", "2024.10"));
}

#[test]
fn a_longer_version_with_an_equal_prefix_is_above() {
    assert!(version_below("2024", "2024.1"));
    assert!(version_below("2024", "2024.0"));
}

#[test]
fn versions_split_at_the_dots() {
    assert_eq!(split_version("2024.1.0"), vec!["2024", "1", "0"]);
    assert_eq!(split_version("2024"), vec!["2024"]);
    assert_eq!(split_version(""), vec![""]);
    assert_eq!(split_version("a.b"), vec!["a", "b"]);
    assert_eq!(split_version(".5"), vec!["", "5"]);
    assert_eq!(split_version("5."), vec!["5", ""]);
}
