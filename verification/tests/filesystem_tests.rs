//! Tests for file system operations
//!
//! These tests check the content of the files that a scaffolded project
//! starts with.

use chio::content::templates;
use tempfile::TempDir;

#[test]
fn mollusk_test_file_contains_framework_reference() {
    let _temp_dir = TempDir::new().expect("Failed to create temp dir");

    let test_file = templates::unit_tests::unit_test_rs("user", "prog", "test_proj");

    assert!(test_file.contains("mollusk"));
    assert!(test_file.contains("use mollusk_svm"));
}

#[test]
fn litesvm_test_file_contains_framework_reference() {
    let _temp_dir = TempDir::new().expect("Failed to create temp dir");

    let test_file = templates::unit_tests::litesvm_initialize_rs("test_proj");

    assert!(test_file.contains("litesvm"));
    assert!(test_file.contains("use litesvm"));
}

#[test]
fn readme_contains_project_structure() {
    let readme = templates::readme_md();

    assert!(readme.contains("src/"));
    assert!(readme.contains("tests/"));
    assert!(readme.contains("entrypoint.rs"));
    assert!(readme.contains("instructions/"));
    assert!(readme.contains("states/"));
}

#[test]
fn gitignore_has_required_entries() {
    let gitignore = templates::gitignore();

    assert!(gitignore.contains("/target"));
    assert!(gitignore.contains(".env"));
}
