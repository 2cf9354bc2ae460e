use mkl_rs_build::paths::{join_paths, parent_of_path, runtime_lib_dirs};

fn strings(v: &[&str]) -> Vec<String> {
    v.iter().map(|s| s.to_string()).collect()
}

#[test]
fn parent_of_a_nested_path() {
    assert_eq!(parent_of_path("/opt/mkl/lib/libmkl_rt.so"), Some("/opt/mkl/lib".to_string()));
    assert_eq!(parent_of_path("a/b"), Some("a".to_string()));
}

#[test]
fn parent_under_the_root() {
    assert_eq!(parent_of_path("/libmkl_rt.so"), Some("/".to_string()));
}

#[test]
fn a_bare_name_has_no_parent() {
    assert_eq!(parent_of_path("libmkl_rt.so"), None);
    assert_eq!(parent_of_path(""), None);
}

#[test]
fn link_file_parents_and_search_dirs_union() {
    let files = strings(&["/a/x.so", "/a/y.so", "/b/z.so"]);
    let dirs = strings(&["/a", "/c"]);
    let out = runtime_lib_dirs(&files, &dirs);
    assert_eq!(out, strings(&["/a", "/b", "/c"]));
}

#[test]
fn union_has_no_duplicates() {
    let files = strings(&["/lib/x.a", "/lib/y.a", "/lib/z.a"]);
    let dirs = strings(&["/lib", "/lib"]);
    let out = runtime_lib_dirs(&files, &dirs);
    assert_eq!(out, strings(&["/lib"]));
}

#[test]
fn union_is_order_independent_as_a_set() {
    let out1 = runtime_lib_dirs(&strings(&["/a/x.so", "/b/y.so"]), &strings(&["/c", "/a"]));
    let out2 = runtime_lib_dirs(&strings(&["/b/y.so", "/a/x.so"]), &strings(&["/a", "/c"]));
    let mut s1 = out1.clone();
    let mut s2 = out2.clone();
    s1.sort();
    s2.sort();
    assert_eq!(s1, s2);
    assert_eq!(s1, strings(&["/a", "/b", "/c"]));
}

#[test]
fn files_without_a_parent_add_nothing() {
    let out = runtime_lib_dirs(&strings(&["plain.a"]), &strings(&[]));
    assert_eq!(out, Vec::<String>::new());
}

#[test]
fn joined_with_the_path_list_separator() {
    assert_eq!(join_paths(&strings(&[])), "");
    assert_eq!(join_paths(&strings(&["/a"])), "/a");
    assert_eq!(join_paths(&strings(&["/a", "/b", "/c"])), "/a:/b:/c");
}
