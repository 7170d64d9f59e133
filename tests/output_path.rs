use mun_codegen::output_path::assembly_output_path;

#[test]
fn artifact_keeps_base_name() {
    assert_eq!(assembly_output_path("foo/bar.src", None), Some("bar.munlib".to_string()));
}

#[test]
fn artifact_goes_into_output_directory() {
    assert_eq!(
        assembly_output_path("foo/bar.src", Some("/out")),
        Some("/out/bar.munlib".to_string())
    );
    assert_eq!(
        assembly_output_path("other/dir/bar.src", Some("/out")),
        Some("/out/bar.munlib".to_string())
    );
}

#[test]
fn output_directory_with_trailing_separator() {
    assert_eq!(assembly_output_path("bar.src", Some("/out/")), Some("/out/bar.munlib".to_string()));
}

#[test]
fn empty_output_directory_adds_no_separator() {
    assert_eq!(assembly_output_path("bar.src", Some("")), Some("bar.munlib".to_string()));
}

#[test]
fn only_last_extension_is_replaced() {
    assert_eq!(assembly_output_path("a/b.tar.gz", None), Some("b.tar.munlib".to_string()));
}

#[test]
fn name_without_extension_gains_one() {
    assert_eq!(assembly_output_path("main", None), Some("main.munlib".to_string()));
}

#[test]
fn hidden_file_keeps_its_leading_dot() {
    assert_eq!(assembly_output_path("dir/.hidden", None), Some(".hidden.munlib".to_string()));
}

#[test]
fn trailing_separators_are_ignored() {
    assert_eq!(assembly_output_path("foo/bar.src//", None), Some("bar.munlib".to_string()));
}

#[test]
fn path_without_file_name_has_no_artifact() {
    assert_eq!(assembly_output_path("", None), None);
    assert_eq!(assembly_output_path("foo/..", None), None);
    assert_eq!(assembly_output_path("foo/.", Some("/out")), None);
    assert_eq!(assembly_output_path("///", None), None);
}
