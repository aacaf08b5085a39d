//! The file set of a project and the plan that lays it down.

use chio::content::templates;
use chio::project::{AddressPair, ProjectSpec};
use chio::scaffold::{
    directories_of, directory_plan, generated_files, join, paths_in, scaffold_plan, FsOp,
    GeneratedFile,
};

fn strings(items: &[&str]) -> Vec<String> {
    items.iter().map(|s| s.to_string()).collect()
}

fn file(path: &str, content: &str) -> GeneratedFile {
    GeneratedFile { path: path.to_string(), content: content.to_string() }
}

fn show(op: &FsOp) -> String {
    match op {
        FsOp::CreateDir { path } => format!("mkdir {}", path),
        FsOp::WriteFile { path, content } => format!("write {} <{}>", path, content),
    }
}

fn demo_files() -> Vec<GeneratedFile> {
    let project = ProjectSpec::new("demo1").expect("a valid name");
    let addresses = AddressPair { program_address: "PROG".to_string(), user_address: "USER".to_string() };
    generated_files(&project, &addresses)
}

#[test]
fn the_file_set_has_the_eleven_source_files_in_order() {
    let files = demo_files();
    let paths: Vec<&str> = files.iter().map(|f| f.path.as_str()).collect();
    assert_eq!(
        paths,
        vec![
            "README.md",
            ".gitignore",
            "src/lib.rs",
            "src/entrypoint.rs",
            "src/errors.rs",
            "src/instructions/mod.rs",
            "src/instructions/initialize.rs",
            "src/states/mod.rs",
            "src/states/utils.rs",
            "src/states/state.rs",
            "tests/tests.rs",
        ]
    );
}

#[test]
fn the_file_set_holds_the_rendered_templates() {
    let files = demo_files();
    assert_eq!(files[0].content, templates::readme_md());
    assert_eq!(files[1].content, templates::gitignore());
    assert_eq!(files[2].content, templates::lib_rs("PROG"));
    assert_eq!(files[3].content, templates::entrypoint_rs());
    assert_eq!(files[4].content, templates::errors_rs());
    assert_eq!(files[5].content, templates::instructions::instructions_mod_rs());
    assert_eq!(files[6].content, templates::instructions::initialize());
    assert_eq!(files[7].content, templates::states::states_mod_rs());
    assert_eq!(files[8].content, templates::states::utils_rs());
    assert_eq!(files[9].content, templates::states::state_rs());
    assert_eq!(files[10].content, templates::unit_tests::unit_test_rs("USER", "PROG", "demo1"));
}

#[test]
fn the_file_set_is_the_same_for_the_same_input() {
    let one = demo_files();
    let two = demo_files();
    assert_eq!(one.len(), two.len());
    for (a, b) in one.iter().zip(two.iter()) {
        assert_eq!(a.path, b.path);
        assert_eq!(a.content.as_bytes(), b.content.as_bytes());
    }
}

#[test]
fn the_file_set_with_an_empty_user_address() {
    let project = ProjectSpec::new("demo1").expect("a valid name");
    let addresses = AddressPair { program_address: "PROG".to_string(), user_address: String::new() };
    let files = generated_files(&project, &addresses);
    assert!(files[10].content.contains("pub const PAYER: Pubkey = pubkey!(\"\");"));
    assert!(files[10].content.contains("pub const PROGRAM: Pubkey = pubkey!(\"PROG\");"));
}

#[test]
fn directories_of_the_file_set() {
    let dirs = directories_of(&paths_in(&demo_files()));
    assert_eq!(dirs, strings(&["src", "src/instructions", "src/states", "tests"]));
}

#[test]
fn directories_come_outer_first_and_once() {
    let dirs = directories_of(&strings(&["a/b/c/d.txt", "a/x.txt", "a/b/y.txt", "z/w/v.txt", "top.txt"]));
    assert_eq!(dirs, strings(&["a", "a/b", "a/b/c", "z", "z/w"]));
}

#[test]
fn directories_of_an_inner_path_first() {
    let dirs = directories_of(&strings(&["a/b/c.txt", "a/d.txt", "e/f.txt", "a/b/g/h.txt"]));
    assert_eq!(dirs, strings(&["a", "a/b", "e", "a/b/g"]));
}

#[test]
fn directories_of_paths_without_a_slash() {
    assert_eq!(directories_of(&strings(&["README.md", ".gitignore", "Cargo.toml"])), Vec::<String>::new());
    assert_eq!(directories_of(&Vec::new()), Vec::<String>::new());
    assert_eq!(directories_of(&strings(&[""])), Vec::<String>::new());
}

#[test]
fn directories_of_odd_paths() {
    assert_eq!(directories_of(&strings(&["/x"])), Vec::<String>::new());
    assert_eq!(directories_of(&strings(&["a/"])), strings(&["a"]));
    assert_eq!(directories_of(&strings(&["a//b"])), strings(&["a", "a/"]));
    assert_eq!(directories_of(&strings(&["caf\u{e9}/\u{540d}/f"])), strings(&["caf\u{e9}", "caf\u{e9}/\u{540d}"]));
}

#[test]
fn every_directory_follows_its_parent() {
    let dirs = directories_of(&strings(&["x/y/z/1", "a/b/2", "x/q/3", "a/b/c/d/4"]));
    for (k, dir) in dirs.iter().enumerate() {
        if let Some(at) = dir.rfind('/') {
            let parent = &dir[..at];
            assert!(dirs[..k].iter().any(|d| d == parent), "{} before {}", parent, dir);
        }
        assert_eq!(dirs.iter().filter(|d| *d == dir).count(), 1);
    }
    assert_eq!(dirs.len(), 8);
}

#[test]
fn join_puts_a_slash_between() {
    assert_eq!(join("demo1", "src/lib.rs"), "demo1/src/lib.rs");
    assert_eq!(join("demo1", ""), "demo1/");
    assert_eq!(join("", "x"), "/x");
}

#[test]
fn a_plan_makes_directories_before_it_writes_files() {
    let files = vec![file("a/b/one.txt", "1"), file("two.txt", "2"), file("a/three.txt", "3"), file("c/four.txt", "4")];
    let ops: Vec<String> = scaffold_plan("root", &files).iter().map(show).collect();
    assert_eq!(
        ops,
        vec![
            "mkdir root",
            "mkdir root/a",
            "mkdir root/a/b",
            "mkdir root/c",
            "write root/a/b/one.txt <1>",
            "write root/two.txt <2>",
            "write root/a/three.txt <3>",
            "write root/c/four.txt <4>",
        ]
    );
}

#[test]
fn a_plan_for_no_files_makes_the_root() {
    let ops: Vec<String> = scaffold_plan("demo1", &Vec::new()).iter().map(show).collect();
    assert_eq!(ops, vec!["mkdir demo1"]);
}

#[test]
fn a_plan_writes_a_path_twice_if_the_set_holds_it_twice() {
    let files = vec![file("x/a.txt", "old"), file("x/a.txt", "new")];
    let ops: Vec<String> = scaffold_plan("r", &files).iter().map(show).collect();
    assert_eq!(ops, vec!["mkdir r", "mkdir r/x", "write r/x/a.txt <old>", "write r/x/a.txt <new>"]);
}

#[test]
fn a_directory_plan_makes_the_root_and_the_parents() {
    let ops: Vec<String> = directory_plan("demo1", &strings(&["target/deploy/demo1-keypair.json"])).iter().map(show).collect();
    assert_eq!(ops, vec!["mkdir demo1", "mkdir demo1/target", "mkdir demo1/target/deploy"]);
}

#[test]
fn the_plan_of_the_file_set() {
    let files = demo_files();
    let ops = scaffold_plan("demo1", &files);
    let shown: Vec<String> = ops
        .iter()
        .map(|op| match op {
            FsOp::CreateDir { path } => format!("mkdir {}", path),
            FsOp::WriteFile { path, .. } => format!("write {}", path),
        })
        .collect();
    assert_eq!(
        shown,
        vec![
            "mkdir demo1",
            "mkdir demo1/src",
            "mkdir demo1/src/instructions",
            "mkdir demo1/src/states",
            "mkdir demo1/tests",
            "write demo1/README.md",
            "write demo1/.gitignore",
            "write demo1/src/lib.rs",
            "write demo1/src/entrypoint.rs",
            "write demo1/src/errors.rs",
            "write demo1/src/instructions/mod.rs",
            "write demo1/src/instructions/initialize.rs",
            "write demo1/src/states/mod.rs",
            "write demo1/src/states/utils.rs",
            "write demo1/src/states/state.rs",
            "write demo1/tests/tests.rs",
        ]
    );
    for (op, f) in ops[5..].iter().zip(files.iter()) {
        match op {
            FsOp::WriteFile { content, .. } => assert_eq!(content, &f.content),
            FsOp::CreateDir { .. } => panic!("a directory after the files began"),
        }
    }
}
