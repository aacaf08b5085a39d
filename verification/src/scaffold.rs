//! The files of a new project and the order in which they reach the disk.
//!
//! A file set is an ordered list of relative paths with their contents. It is
//! laid down by a plan: first the root directory, then every directory that a
//! path of the set lies in, the outer before the inner, then the files in the
//! order of the set. A file that is already there is replaced.

use vstd::prelude::*;
use vstd::string::StrSliceExecFns;
use vstd::string::StringExecFns;

use crate::content::templates::ENTRYPOINT_RS;
use crate::content::templates::ERRORS_RS;
use crate::content::templates::GITIGNORE;
use crate::content::templates::README_MD;
use crate::content::templates::entrypoint_rs;
use crate::content::templates::errors_rs;
use crate::content::templates::gitignore;
use crate::content::templates::lib_rs;
use crate::content::templates::lib_rs_text;
use crate::content::templates::readme_md;
use crate::content::templates::instructions::INITIALIZE_RS;
use crate::content::templates::instructions::INSTRUCTIONS_MOD_RS;
use crate::content::templates::instructions::initialize;
use crate::content::templates::instructions::instructions_mod_rs;
use crate::content::templates::states::STATES_MOD_RS;
use crate::content::templates::states::STATE_RS;
use crate::content::templates::states::UTILS_RS;
use crate::content::templates::states::state_rs;
use crate::content::templates::states::states_mod_rs;
use crate::content::templates::states::utils_rs;
use crate::content::templates::unit_tests::unit_test_rs;
use crate::content::templates::unit_tests::unit_test_text;
use crate::project::AddressPair;
use crate::project::AddressPairView;
use crate::project::ProjectSpec;
use crate::text::chars_of;

verus! {

/// The mathematical content of a `GeneratedFile`.
pub struct GeneratedFileView {
    pub path: Seq<char>,
    pub content: Seq<char>,
}

/// One file of a project: where it goes, relative to the root of the
/// project and with `/` between the parts, and what it holds.
pub struct GeneratedFile {
    pub path: String,
    pub content: String,
}

impl View for GeneratedFile {
    type V = GeneratedFileView;

    open spec fn view(&self) -> GeneratedFileView {
        GeneratedFileView { path: self.path@, content: self.content@ }
    }
}

impl DeepView for GeneratedFile {
    type V = GeneratedFileView;

    open spec fn deep_view(&self) -> GeneratedFileView {
        self.view()
    }
}

/// Where the readme goes.
pub const README_PATH: &'static str = "README.md";

/// Where the ignore file goes.
pub const GITIGNORE_PATH: &'static str = ".gitignore";

/// Where the crate root goes.
pub const LIB_RS_PATH: &'static str = "src/lib.rs";

/// Where the entrypoint module goes.
pub const ENTRYPOINT_RS_PATH: &'static str = "src/entrypoint.rs";

/// Where the error module goes.
pub const ERRORS_RS_PATH: &'static str = "src/errors.rs";

/// Where the instruction module goes.
pub const INSTRUCTIONS_MOD_RS_PATH: &'static str = "src/instructions/mod.rs";

/// Where the handler of the initialize instruction goes.
pub const INITIALIZE_RS_PATH: &'static str = "src/instructions/initialize.rs";

/// Where the state module goes.
pub const STATES_MOD_RS_PATH: &'static str = "src/states/mod.rs";

/// Where the state helpers go.
pub const UTILS_RS_PATH: &'static str = "src/states/utils.rs";

/// Where the account state goes.
pub const STATE_RS_PATH: &'static str = "src/states/state.rs";

/// Where the test file goes.
pub const TESTS_RS_PATH: &'static str = "tests/tests.rs";

/// Where the manifest goes.
pub const MANIFEST_PATH: &'static str = "Cargo.toml";

/// The source files of the project `name` for the given addresses, in the
/// order they are written: the repository files, the crate root with the
/// program address, the program modules, and the test file with both
/// addresses and the name.
pub open spec fn file_set(name: Seq<char>, addresses: AddressPairView) -> Seq<GeneratedFileView> {
    seq![
        GeneratedFileView { path: README_PATH@, content: README_MD@ },
        GeneratedFileView { path: GITIGNORE_PATH@, content: GITIGNORE@ },
        GeneratedFileView { path: LIB_RS_PATH@, content: lib_rs_text(addresses.program_address) },
        GeneratedFileView { path: ENTRYPOINT_RS_PATH@, content: ENTRYPOINT_RS@ },
        GeneratedFileView { path: ERRORS_RS_PATH@, content: ERRORS_RS@ },
        GeneratedFileView { path: INSTRUCTIONS_MOD_RS_PATH@, content: INSTRUCTIONS_MOD_RS@ },
        GeneratedFileView { path: INITIALIZE_RS_PATH@, content: INITIALIZE_RS@ },
        GeneratedFileView { path: STATES_MOD_RS_PATH@, content: STATES_MOD_RS@ },
        GeneratedFileView { path: UTILS_RS_PATH@, content: UTILS_RS@ },
        GeneratedFileView { path: STATE_RS_PATH@, content: STATE_RS@ },
        GeneratedFileView {
            path: TESTS_RS_PATH@,
            content: unit_test_text(addresses.user_address, addresses.program_address, name),
        },
    ]
}

/// The file set is a mapping from paths to contents: no path occurs in it
/// twice, and none of its paths is that of the manifest. The paths are the
/// same for every project.
pub proof fn lemma_file_set_paths(name: Seq<char>, addresses: AddressPairView)
    ensures
        paths_of(file_set(name, addresses)) == seq![
            README_PATH@,
            GITIGNORE_PATH@,
            LIB_RS_PATH@,
            ENTRYPOINT_RS_PATH@,
            ERRORS_RS_PATH@,
            INSTRUCTIONS_MOD_RS_PATH@,
            INITIALIZE_RS_PATH@,
            STATES_MOD_RS_PATH@,
            UTILS_RS_PATH@,
            STATE_RS_PATH@,
            TESTS_RS_PATH@,
        ],
        paths_of(file_set(name, addresses)).no_duplicates(),
        !paths_of(file_set(name, addresses)).contains(MANIFEST_PATH@),
{
    reveal_strlit("README.md");
    reveal_strlit(".gitignore");
    reveal_strlit("src/lib.rs");
    reveal_strlit("src/entrypoint.rs");
    reveal_strlit("src/errors.rs");
    reveal_strlit("src/instructions/mod.rs");
    reveal_strlit("src/instructions/initialize.rs");
    reveal_strlit("src/states/mod.rs");
    reveal_strlit("src/states/utils.rs");
    reveal_strlit("src/states/state.rs");
    reveal_strlit("tests/tests.rs");
    reveal_strlit("Cargo.toml");
    let paths = paths_of(file_set(name, addresses));
    assert(paths =~= seq![
        README_PATH@,
        GITIGNORE_PATH@,
        LIB_RS_PATH@,
        ENTRYPOINT_RS_PATH@,
        ERRORS_RS_PATH@,
        INSTRUCTIONS_MOD_RS_PATH@,
        INITIALIZE_RS_PATH@,
        STATES_MOD_RS_PATH@,
        UTILS_RS_PATH@,
        STATE_RS_PATH@,
        TESTS_RS_PATH@,
    ]);
    // Paths of the same length differ in a character.
    assert forall|i: int, j: int| 0 <= i < paths.len() && 0 <= j < paths.len() && i != j implies paths[i]
        != paths[j] by {
        if paths[i].len() == paths[j].len() {
            if i == 1 || j == 1 {
                assert(paths[i][0] != paths[j][0]);
            } else if i == 3 || j == 3 {
                assert(paths[i][4] != paths[j][4]);
            } else {
                assert(paths[i][11] != paths[j][11]);
            }
        }
    }
    assert forall|i: int| 0 <= i < paths.len() implies paths[i] != MANIFEST_PATH@ by {
        if paths[i].len() == MANIFEST_PATH@.len() {
            assert(paths[i][0] != MANIFEST_PATH@[0]);
        }
    }
}

fn entry(path: &str, content: String) -> (file: GeneratedFile)
    ensures
        file@ == (GeneratedFileView { path: path@, content: content@ }),
{
    GeneratedFile { path: String::from_str(path), content }
}

/// Renders the source files of a project. The project is validated by its
/// type, so the name that is spliced into the test file holds nothing but
/// letters, digits and underscores.
pub fn generated_files(project: &ProjectSpec, addresses: &AddressPair) -> (files: Vec<
    GeneratedFile,
>)
    ensures
        files.deep_view() == file_set(project@.name, addresses@),
{
    let mut files: Vec<GeneratedFile> = Vec::new();
    files.push(entry(README_PATH, String::from_str(readme_md())));
    files.push(entry(GITIGNORE_PATH, String::from_str(gitignore())));
    files.push(entry(LIB_RS_PATH, lib_rs(addresses.program_address.as_str())));
    files.push(entry(ENTRYPOINT_RS_PATH, String::from_str(entrypoint_rs())));
    files.push(entry(ERRORS_RS_PATH, String::from_str(errors_rs())));
    files.push(entry(INSTRUCTIONS_MOD_RS_PATH, String::from_str(instructions_mod_rs())));
    files.push(entry(INITIALIZE_RS_PATH, String::from_str(initialize())));
    files.push(entry(STATES_MOD_RS_PATH, String::from_str(states_mod_rs())));
    files.push(entry(UTILS_RS_PATH, String::from_str(utils_rs())));
    files.push(entry(STATE_RS_PATH, String::from_str(state_rs())));
    files.push(
        entry(
            TESTS_RS_PATH,
            unit_test_rs(
                addresses.user_address.as_str(),
                addresses.program_address.as_str(),
                project.name(),
            ),
        ),
    );
    assert(files.deep_view() =~= file_set(project@.name, addresses@));
    files
}

/// The paths of a file set, in its order.
pub open spec fn paths_of(files: Seq<GeneratedFileView>) -> Seq<Seq<char>> {
    files.map_values(|f: GeneratedFileView| f.path)
}

/// Whether `dir` is a directory that `path` lies in: what stands before one
/// of the slashes of `path`.
pub open spec fn is_parent_dir(dir: Seq<char>, path: Seq<char>) -> bool {
    ends_at_slash(dir, path, path.len() as int)
}

/// Whether `dir` is what stands before a slash of `path` that comes before
/// position `upto`.
pub open spec fn ends_at_slash(dir: Seq<char>, path: Seq<char>, upto: int) -> bool {
    exists|i: int|
        0 < i < upto && i < path.len() && path[i] == '/' && dir == #[trigger] path.take(i)
}

/// `dirs`, with `dir` at its end unless it holds it already.
pub open spec fn with_dir(dirs: Seq<Seq<char>>, dir: Seq<char>) -> Seq<Seq<char>> {
    if dirs.contains(dir) {
        dirs
    } else {
        dirs.push(dir)
    }
}

/// `dirs`, followed by the directories that `path` lies in by its slashes
/// before position `upto`, the outer first, each only if it is new.
pub open spec fn with_parents(dirs: Seq<Seq<char>>, path: Seq<char>, upto: int) -> Seq<Seq<char>>
    decreases upto,
{
    if upto <= 0 {
        dirs
    } else {
        let before = with_parents(dirs, path, upto - 1);
        if upto - 1 > 0 && path[upto - 1] == '/' {
            with_dir(before, path.take(upto - 1))
        } else {
            before
        }
    }
}

/// The directories that the paths lie in: each once, in the order in which
/// the paths first need them, an outer directory before those inside it.
pub open spec fn directories(paths: Seq<Seq<char>>) -> Seq<Seq<char>>
    decreases paths.len(),
{
    if paths.len() == 0 {
        Seq::empty()
    } else {
        with_parents(directories(paths.drop_last()), paths.last(), paths.last().len() as int)
    }
}

/// Every directory of the list is one that some path lies in.
pub open spec fn all_needed(dirs: Seq<Seq<char>>, paths: Seq<Seq<char>>) -> bool {
    forall|k: int|
        0 <= k < dirs.len() ==> exists|j: int|
            0 <= j < paths.len() && is_parent_dir(#[trigger] dirs[k], #[trigger] paths[j])
}

/// Every directory that `path` lies in by a slash before `upto` is in the
/// list.
pub open spec fn covers_upto(dirs: Seq<Seq<char>>, path: Seq<char>, upto: int) -> bool {
    forall|i: int|
        0 < i < upto && i < path.len() && path[i] == '/' ==> dirs.contains(#[trigger] path.take(i))
}

/// Every directory that one of the paths lies in is in the list.
pub open spec fn covers_all(dirs: Seq<Seq<char>>, paths: Seq<Seq<char>>) -> bool {
    forall|j: int|
        0 <= j < paths.len() ==> covers_upto(dirs, #[trigger] paths[j], paths[j].len() as int)
}

/// Whether `dir` stands in the list before position `k`.
pub open spec fn comes_before(dirs: Seq<Seq<char>>, k: int, dir: Seq<char>) -> bool {
    exists|e: int| 0 <= e < k && e < dirs.len() && #[trigger] dirs[e] == dir
}

/// Every directory of the list comes after the directories it lies in.
pub open spec fn top_down(dirs: Seq<Seq<char>>) -> bool {
    forall|k: int, i: int|
        0 <= k < dirs.len() && 0 < i < dirs[k].len() && dirs[k][i] == '/' ==> comes_before(
            dirs,
            k,
            #[trigger] dirs[k].take(i),
        )
}

proof fn lemma_with_dir(dirs: Seq<Seq<char>>, dir: Seq<char>)
    requires
        dirs.no_duplicates(),
    ensures
        with_dir(dirs, dir).no_duplicates(),
        with_dir(dirs, dir).contains(dir),
        dirs.len() <= with_dir(dirs, dir).len(),
        forall|k: int| 0 <= k < dirs.len() ==> with_dir(dirs, dir)[k] == dirs[k],
        forall|k: int| dirs.len() <= k < with_dir(dirs, dir).len() ==> with_dir(dirs, dir)[k] == dir,
{
    if dirs.contains(dir) {
    } else {
        let out = dirs.push(dir);
        assert(out[dirs.len() as int] == dir);
        assert forall|a: int, b: int| 0 <= a < out.len() && 0 <= b < out.len() && a != b implies out[a]
            != out[b] by {
            if a == dirs.len() {
                assert(dirs[b] == out[b]);
            } else if b == dirs.len() {
                assert(dirs[a] == out[a]);
            }
        }
    }
}

proof fn lemma_with_parents(dirs: Seq<Seq<char>>, path: Seq<char>, upto: int)
    requires
        dirs.no_duplicates(),
        top_down(dirs),
        0 <= upto <= path.len(),
    ensures
        ({
            let out = with_parents(dirs, path, upto);
            &&& out.no_duplicates()
            &&& top_down(out)
            &&& covers_upto(out, path, upto)
            &&& dirs.len() <= out.len()
            &&& forall|k: int| 0 <= k < dirs.len() ==> out[k] == dirs[k]
            &&& forall|k: int|
                dirs.len() <= k < out.len() ==> ends_at_slash(#[trigger] out[k], path, upto)
        }),
    decreases upto,
{
    if upto > 0 {
        let before = with_parents(dirs, path, upto - 1);
        lemma_with_parents(dirs, path, upto - 1);
        let at = upto - 1;
        if at > 0 && path[at] == '/' {
            let dir = path.take(at);
            let out = with_dir(before, dir);
            lemma_with_dir(before, dir);
            assert forall|i: int| 0 < i < upto && i < path.len() && path[i] == '/' implies out.contains(
                #[trigger] path.take(i),
            ) by {
                if i < at {
                    assert(before.contains(path.take(i)));
                    let k = choose|k: int| 0 <= k < before.len() && before[k] == path.take(i);
                    assert(out[k] == path.take(i));
                }
            }
            assert forall|k: int| dirs.len() <= k < out.len() implies ends_at_slash(
                #[trigger] out[k],
                path,
                upto,
            ) by {
                if k < before.len() {
                    assert(out[k] == before[k]);
                    assert(ends_at_slash(before[k], path, upto - 1));
                    let i = choose|i: int|
                        0 < i < upto - 1 && i < path.len() && path[i] == '/' && before[k]
                            == #[trigger] path.take(i);
                    assert(0 < i < upto && path[i] == '/' && out[k] == path.take(i));
                } else {
                    assert(out[k] == path.take(at));
                }
            }
            assert forall|k: int, i: int|
                0 <= k < out.len() && 0 < i < out[k].len() && out[k][i] == '/' implies comes_before(
                out,
                k,
                #[trigger] out[k].take(i),
            ) by {
                if k < before.len() {
                    assert(out[k] == before[k]);
                    assert(comes_before(before, k, before[k].take(i)));
                    let e = choose|e: int|
                        0 <= e < k && e < before.len() && #[trigger] before[e] == before[k].take(i);
                    assert(out[e] == before[e]);
                } else {
                    assert(out[k] == dir);
                    assert(dir.take(i) =~= path.take(i));
                    assert(path[i] == dir[i]);
                    assert(before.contains(path.take(i)));
                    let e = choose|e: int| 0 <= e < before.len() && before[e] == path.take(i);
                    assert(out[e] == before[e]);
                    assert(e < k);
                }
            }
        } else {
            assert forall|i: int| 0 < i < upto && i < path.len() && path[i] == '/' implies before.contains(
                #[trigger] path.take(i),
            ) by {
                assert(i < upto - 1);
            }
            assert forall|k: int| dirs.len() <= k < before.len() implies ends_at_slash(
                #[trigger] before[k],
                path,
                upto,
            ) by {
                assert(ends_at_slash(before[k], path, upto - 1));
                let i = choose|i: int|
                    0 < i < upto - 1 && i < path.len() && path[i] == '/' && before[k]
                        == #[trigger] path.take(i);
                assert(0 < i < upto && path[i] == '/' && before[k] == path.take(i));
            }
        }
    }
}

/// The directories of a list of paths are exactly those that the paths lie
/// in, none of them twice, and each comes after the directories it lies in
/// itself: made in this order, every directory finds its parent in place.
pub proof fn lemma_directories(paths: Seq<Seq<char>>)
    ensures
        directories(paths).no_duplicates(),
        all_needed(directories(paths), paths),
        covers_all(directories(paths), paths),
        top_down(directories(paths)),
    decreases paths.len(),
{
    if paths.len() > 0 {
        let earlier = paths.drop_last();
        let path = paths.last();
        let before = directories(earlier);
        let out = directories(paths);
        lemma_directories(earlier);
        lemma_with_parents(before, path, path.len() as int);
        assert forall|k: int| 0 <= k < out.len() implies exists|j: int|
            0 <= j < paths.len() && is_parent_dir(#[trigger] out[k], #[trigger] paths[j]) by {
            if k < before.len() {
                assert(out[k] == before[k]);
                let j = choose|j: int|
                    0 <= j < earlier.len() && is_parent_dir(#[trigger] before[k], #[trigger] earlier[j]);
                assert(earlier[j] == paths[j]);
                assert(is_parent_dir(out[k], paths[j]));
            } else {
                assert(ends_at_slash(out[k], path, path.len() as int));
                assert(is_parent_dir(out[k], paths[paths.len() - 1]));
            }
        }
        assert forall|j: int| 0 <= j < paths.len() implies covers_upto(
            out,
            #[trigger] paths[j],
            paths[j].len() as int,
        ) by {
            if j < earlier.len() {
                assert(earlier[j] == paths[j]);
                assert(covers_upto(before, earlier[j], earlier[j].len() as int));
                assert forall|i: int|
                    0 < i < paths[j].len() && paths[j][i] == '/' implies out.contains(
                    #[trigger] paths[j].take(i),
                ) by {
                    assert(before.contains(paths[j].take(i)));
                    let k = choose|k: int| 0 <= k < before.len() && before[k] == paths[j].take(i);
                    assert(out[k] == before[k]);
                }
            }
        }
    }
}

fn holds(dirs: &Vec<String>, dir: &String) -> (found: bool)
    ensures
        found == dirs.deep_view().contains(dir@),
{
    let mut k: usize = 0;
    while k < dirs.len()
        invariant
            k <= dirs.len(),
            forall|e: int| 0 <= e < k ==> dirs.deep_view()[e] != dir@,
        decreases dirs.len() - k,
    {
        if dirs[k] == *dir {
            assert(dirs.deep_view()[k as int] == dir@);
            return true;
        }
        k += 1;
    }
    false
}

/// The paths of a file set, in its order.
pub fn paths_in(files: &Vec<GeneratedFile>) -> (paths: Vec<String>)
    ensures
        paths.deep_view() == paths_of(files.deep_view()),
{
    let mut paths: Vec<String> = Vec::new();
    let mut j: usize = 0;
    while j < files.len()
        invariant
            j <= files.len(),
            paths.deep_view() =~= paths_of(files.deep_view().take(j as int)),
        decreases files.len() - j,
    {
        let ghost old_paths = paths.deep_view();
        paths.push(files[j].path.clone());
        proof {
            let file = files.deep_view()[j as int];
            assert(files.deep_view().take(j + 1) =~= files.deep_view().take(j as int).push(file));
            assert(paths.deep_view() =~= old_paths.push(file.path));
        }
        j += 1;
    }
    assert(files.deep_view().take(files.len() as int) =~= files.deep_view());
    paths
}

/// The directories that the paths lie in, in the order in which they are to
/// be made.
pub fn directories_of(paths: &Vec<String>) -> (dirs: Vec<String>)
    ensures
        dirs.deep_view() == directories(paths.deep_view()),
        dirs.deep_view().no_duplicates(),
        all_needed(dirs.deep_view(), paths.deep_view()),
        covers_all(dirs.deep_view(), paths.deep_view()),
        top_down(dirs.deep_view()),
{
    let ghost all = paths.deep_view();
    let mut dirs: Vec<String> = Vec::new();
    let mut j: usize = 0;
    assert(all.take(0) =~= Seq::<Seq<char>>::empty());
    assert(dirs.deep_view() =~= Seq::<Seq<char>>::empty());
    while j < paths.len()
        invariant
            j <= paths.len(),
            all == paths.deep_view(),
            dirs.deep_view() == directories(all.take(j as int)),
        decreases paths.len() - j,
    {
        let path = paths[j].as_str();
        let chars = chars_of(path);
        let ghost before = dirs.deep_view();
        let mut i: usize = 0;
        assert(path@ == all[j as int]);
        while i < chars.len()
            invariant
                i <= chars.len(),
                chars@ == path@,
                dirs.deep_view() == with_parents(before, path@, i as int),
            decreases chars.len() - i,
        {
            if i > 0 && chars[i] == '/' {
                let dir = String::from_str(path.substring_char(0, i));
                assert(dir@ =~= path@.take(i as int));
                if !holds(&dirs, &dir) {
                    let ghost old_dirs = dirs.deep_view();
                    dirs.push(dir);
                    assert(dirs.deep_view() =~= old_dirs.push(path@.take(i as int)));
                }
            }
            i += 1;
        }
        proof {
            let upto = all.take(j + 1);
            assert(upto.drop_last() =~= all.take(j as int));
            assert(upto.last() == path@);
        }
        j += 1;
    }
    proof {
        assert(all.take(paths.len() as int) =~= all);
        lemma_directories(all);
    }
    dirs
}

/// The mathematical content of an `FsOp`.
pub enum FsOpView {
    CreateDir { path: Seq<char> },
    WriteFile { path: Seq<char>, content: Seq<char> },
}

/// One step of laying a project down. Paths are relative to where the run
/// started, with `/` between the parts.
pub enum FsOp {
    /// Make the directory, and those it lies in, unless they exist.
    CreateDir { path: String },
    /// Write the file, replacing one that is there.
    WriteFile { path: String, content: String },
}

impl View for FsOp {
    type V = FsOpView;

    open spec fn view(&self) -> FsOpView {
        match self {
            FsOp::CreateDir { path } => FsOpView::CreateDir { path: path@ },
            FsOp::WriteFile { path, content } => FsOpView::WriteFile {
                path: path@,
                content: content@,
            },
        }
    }
}

impl DeepView for FsOp {
    type V = FsOpView;

    open spec fn deep_view(&self) -> FsOpView {
        self.view()
    }
}

/// The path `rel` below the directory `root`.
pub open spec fn joined(root: Seq<char>, rel: Seq<char>) -> Seq<char> {
    root + seq!['/'] + rel
}

/// The steps that make the directories `dirs` below `root`.
pub open spec fn create_dirs(root: Seq<char>, dirs: Seq<Seq<char>>) -> Seq<FsOpView> {
    dirs.map_values(|dir: Seq<char>| FsOpView::CreateDir { path: joined(root, dir) })
}

/// The steps that write the files of a set below `root`.
pub open spec fn write_files(root: Seq<char>, files: Seq<GeneratedFileView>) -> Seq<FsOpView> {
    files.map_values(
        |f: GeneratedFileView| FsOpView::WriteFile { path: joined(root, f.path), content: f.content },
    )
}

/// The steps that make `root` and, below it, every directory that one of
/// the paths lies in, the outer before the inner.
pub open spec fn directory_steps(root: Seq<char>, paths: Seq<Seq<char>>) -> Seq<FsOpView> {
    seq![FsOpView::CreateDir { path: root }] + create_dirs(root, directories(paths))
}

/// The plan that lays a file set down below `root`: the root, the directories
/// of the set, then the files.
pub open spec fn plan(root: Seq<char>, files: Seq<GeneratedFileView>) -> Seq<FsOpView> {
    directory_steps(root, paths_of(files)) + write_files(root, files)
}

/// `rel` below `root`.
pub fn join(root: &str, rel: &str) -> (path: String)
    ensures
        path@ == joined(root@, rel@),
{
    proof {
        reveal_strlit("/");
    }
    let mut path = String::from_str(root);
    path.append("/");
    path.append(rel);
    assert("/"@ =~= seq!['/']);
    path
}

/// The steps that make `root` and the directories of `paths` below it.
pub fn directory_plan(root: &str, paths: &Vec<String>) -> (ops: Vec<FsOp>)
    ensures
        ops.deep_view() == directory_steps(root@, paths.deep_view()),
{
    let dirs = directories_of(paths);
    let ghost first = seq![FsOpView::CreateDir { path: root@ }];
    let mut ops: Vec<FsOp> = Vec::new();
    ops.push(FsOp::CreateDir { path: String::from_str(root) });
    assert(ops.deep_view() =~= first);
    let mut k: usize = 0;
    assert(create_dirs(root@, dirs.deep_view().take(0)) =~= Seq::<FsOpView>::empty());
    while k < dirs.len()
        invariant
            k <= dirs.len(),
            first == seq![FsOpView::CreateDir { path: root@ }],
            ops.deep_view() =~= first + create_dirs(root@, dirs.deep_view().take(k as int)),
        decreases dirs.len() - k,
    {
        let ghost old_ops = ops.deep_view();
        ops.push(FsOp::CreateDir { path: join(root, dirs[k].as_str()) });
        proof {
            let done = dirs.deep_view().take(k as int);
            let more = dirs.deep_view().take(k + 1);
            let op = FsOpView::CreateDir { path: joined(root@, dirs.deep_view()[k as int]) };
            assert(more =~= done.push(dirs.deep_view()[k as int]));
            assert(create_dirs(root@, more) =~= create_dirs(root@, done).push(op));
            assert(ops.deep_view() =~= old_ops.push(op));
        }
        k += 1;
    }
    assert(dirs.deep_view().take(dirs.len() as int) =~= dirs.deep_view());
    ops
}

/// The plan that lays `files` down below `root`.
pub fn scaffold_plan(root: &str, files: &Vec<GeneratedFile>) -> (ops: Vec<FsOp>)
    ensures
        ops.deep_view() == plan(root@, files.deep_view()),
{
    let paths = paths_in(files);
    let mut ops = directory_plan(root, &paths);
    let ghost made = ops.deep_view();
    let mut j: usize = 0;
    assert(write_files(root@, files.deep_view().take(0)) =~= Seq::<FsOpView>::empty());
    assert(ops.deep_view() =~= made + write_files(root@, files.deep_view().take(0)));
    while j < files.len()
        invariant
            j <= files.len(),
            ops.deep_view() =~= made + write_files(root@, files.deep_view().take(j as int)),
        decreases files.len() - j,
    {
        let ghost old_ops = ops.deep_view();
        ops.push(
            FsOp::WriteFile {
                path: join(root, files[j].path.as_str()),
                content: files[j].content.clone(),
            },
        );
        proof {
            let file = files.deep_view()[j as int];
            let done = files.deep_view().take(j as int);
            let more = files.deep_view().take(j + 1);
            let op = FsOpView::WriteFile { path: joined(root@, file.path), content: file.content };
            assert(more =~= done.push(file));
            assert(write_files(root@, more) =~= write_files(root@, done).push(op));
            assert(ops.deep_view() =~= old_ops.push(op));
        }
        j += 1;
    }
    assert(files.deep_view().take(files.len() as int) =~= files.deep_view());
    ops
}

/// In a plan every directory is made before any file is written, each file
/// of the set is written once and in the order of the set, and every
/// directory that a file lies in is made by a step of the plan.
pub proof fn lemma_plan_directories_first(root: Seq<char>, files: Seq<GeneratedFileView>)
    ensures
        ({
            let ops = plan(root, files);
            let dirs = directories(paths_of(files));
            &&& ops.len() == 1 + dirs.len() + files.len()
            &&& ops[0] == FsOpView::CreateDir { path: root }
            &&& forall|k: int|
                0 <= k < dirs.len() ==> #[trigger] ops[1 + k] == (FsOpView::CreateDir {
                    path: joined(root, dirs[k]),
                })
            &&& forall|j: int|
                0 <= j < files.len() ==> #[trigger] ops[1 + dirs.len() + j] == (FsOpView::WriteFile {
                    path: joined(root, files[j].path),
                    content: files[j].content,
                })
            &&& forall|a: int, b: int|
                0 <= a < b < ops.len() && ops[b] is CreateDir ==> ops[a] is CreateDir
            &&& forall|j: int, i: int|
                0 <= j < files.len() && 0 < i < files[j].path.len() && files[j].path[i] == '/'
                    ==> dirs.contains(#[trigger] files[j].path.take(i))
        }),
{
    let ops = plan(root, files);
    let paths = paths_of(files);
    let dirs = directories(paths);
    lemma_directories(paths);
    assert forall|j: int, i: int|
        0 <= j < files.len() && 0 < i < files[j].path.len() && files[j].path[i]
            == '/' implies dirs.contains(#[trigger] files[j].path.take(i)) by {
        assert(paths[j] == files[j].path);
        assert(covers_upto(dirs, paths[j], paths[j].len() as int));
    }
}

} // verus!
