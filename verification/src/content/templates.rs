//! Templates of the crate root, the manifest and the repository files.
//!
//! Each function returns the complete text of one file. A function with
//! parameters writes each argument into the text as it is, once for every
//! place the file names it, so the result is fixed by the arguments and two
//! different arguments never give the same text.

use vstd::prelude::*;
use vstd::string::StringExecFns;

use crate::is_name_char;
use crate::valid_project_name;
use crate::text::lemma_spliced_once_injective;

pub mod instructions;
pub mod states;
pub mod unit_tests;

verus! {

/// The crate root of the program, up to the quote that opens the program address.
pub const LIB_RS_HEAD: &'static str = r#"#![no_std]

#[cfg(not(feature = "no-entrypoint"))]
mod entrypoint;

#[cfg(feature = "std")]
extern crate std;

pub mod errors;
pub mod instructions;
pub mod states;

pinocchio_pubkey::declare_id!(""#;

/// What follows the program address in the crate root.
pub const LIB_RS_TAIL: &'static str = "\");";

/// The crate root of a program that declares `address` as its id.
pub open spec fn lib_rs_text(address: Seq<char>) -> Seq<char> {
    LIB_RS_HEAD@ + address + LIB_RS_TAIL@
}

/// `src/lib.rs`: a `no_std` crate root that declares the modules of the
/// program and binds its id to `address`.
pub fn lib_rs(address: &str) -> (out: String)
    ensures
        out@ == lib_rs_text(address@),
{
    let mut out = String::from_str(LIB_RS_HEAD);
    out.append(address);
    out.append(LIB_RS_TAIL);
    out
}

/// The crate root is fixed by the program address, and the address by the
/// crate root: two addresses give the same text exactly when they are the
/// same address.
pub proof fn lemma_lib_rs_injective(a: Seq<char>, b: Seq<char>)
    ensures
        lib_rs_text(a) == lib_rs_text(b) <==> a == b,
{
    if lib_rs_text(a) == lib_rs_text(b) {
        lemma_spliced_once_injective(LIB_RS_HEAD@, a, b, LIB_RS_TAIL@);
    }
}

/// The entrypoint module.
pub const ENTRYPOINT_RS: &'static str = r#"#![allow(unexpected_cfgs)]

use crate::instructions::{self, ProgramInstruction};
use pinocchio::{
    account_info::AccountInfo, default_panic_handler, msg, no_allocator, program_entrypoint,
    program_error::ProgramError, pubkey::Pubkey, ProgramResult,
};

// This is the entrypoint for the program.
program_entrypoint!(process_instruction);
//Do not allocate memory.
no_allocator!();
// Use the no_std panic handler.
default_panic_handler!();

#[inline(always)]
fn process_instruction(
    _program_id: &Pubkey,
    accounts: &[AccountInfo],
    instruction_data: &[u8],
) -> ProgramResult {
    let (ix_disc, instruction_data) = instruction_data
        .split_first()
        .ok_or(ProgramError::InvalidInstructionData)?;

    match ProgramInstruction::try_from(ix_disc)? {
        ProgramInstruction::InitializeState => {
            msg!("initialize");
            instructions::initialize(accounts, instruction_data)
        }
    }
}"#;

/// `src/entrypoint.rs`: the program entrypoint, which dispatches on the
/// instruction discriminator.
pub fn entrypoint_rs() -> (text: &'static str)
    ensures
        text@ == ENTRYPOINT_RS@,
{
    ENTRYPOINT_RS
}

/// The readme.
pub const README_MD: &'static str = r#"# Chio Pinocchio Project

A Solana program built with the Chio CLI tool.

## Project Structure

```
src/
├── entrypoint.rs          # Program entry point with nostd_panic_handler
├── lib.rs                 # Library crate (no_std optimization)
├── instructions/          # Program instruction handlers
├── states/                # Account state definitions
│   └── utils.rs           # State management helpers (load_acc, load_mut_acc)
└── errors.rs              # Program error definitions

tests/
└── tests.rs               # Unit tests using mollusk-svm framework
```

## Commands

```bash
# Build the program
 chio build

# Run tests
 chio test

# Deploy the program
 chio deploy

# Get help
 chio help
```

---

**Author of Chio CLI**: [4rjunc](https://github.com/4rjunc) | [Twitter](https://x.com/4rjunc)"#;

/// `README.md`: the layout of the project and the commands that work on it.
pub fn readme_md() -> (text: &'static str)
    ensures
        text@ == README_MD@,
{
    README_MD
}

/// The ignore file.
pub const GITIGNORE: &'static str = r#"/target
.env"#;

/// `.gitignore`: keeps build output and local environment files out of the
/// repository.
pub fn gitignore() -> (text: &'static str)
    ensures
        text@ == GITIGNORE@,
{
    GITIGNORE
}

/// The error module.
pub const ERRORS_RS: &'static str = r#"use pinocchio::program_error::ProgramError;

#[derive(Clone, PartialEq, shank::ShankType)]
pub enum MyProgramError {
    InvalidInstructionData,
    PdaMismatch,
    InvalidOwner,
}

impl From<MyProgramError> for ProgramError {
    fn from(e: MyProgramError) -> Self {
        Self::Custom(e as u32)
    }
}
"#;

/// `src/errors.rs`: the error enum of the program and its conversion into a
/// program error.
pub fn errors_rs() -> (text: &'static str)
    ensures
        text@ == ERRORS_RS@,
{
    ERRORS_RS
}

/// A manifest up to the quote that opens the package name.
pub const PACKAGE_OPEN: &'static str = "[package]\nname = \"";

/// The rest of the package table, from the quote that closes the package name.
pub const PACKAGE_CLOSE: &'static str = "\"\nversion = \"0.1.0\"\nedition = \"2021\"\n";

/// Library, dependency and feature tables of the manifest of a new project.
pub const MANIFEST_BODY: &'static str = r#"
[lib]
crate-type = ["cdylib", "rlib"]

[dependencies]
pinocchio = "0.9.2"
pinocchio-log = "0.5.1"
pinocchio-pubkey = "0.3.0"
pinocchio-system = "0.3.0"
shank = "0.4.5"

[dev-dependencies]
solana-sdk = "3.0.0"
mollusk-svm = "0.7.0"
mollusk-svm-bencher = "0.7.0" 

[features]
no-entrypoint = []
std = []
test-default = ["no-entrypoint", "std"]
"#;

/// Library, dependency and feature tables of a manifest that tests with mollusk.
pub const MANIFEST_BODY_MOLLUSK: &'static str = r#"
[lib]
crate-type = ["cdylib", "rlib"]

[dependencies]
pinocchio = "0.9.2"

[dev-dependencies]
solana-sdk = "3.0.0"
mollusk-svm = "0.7.0"
mollusk-svm-bencher = "0.7.0"

[features]
no-entrypoint = []
std = []
test-default = ["no-entrypoint", "std"]
"#;

/// Library, dependency and feature tables of a manifest that tests with litesvm.
pub const MANIFEST_BODY_LITESVM: &'static str = r#"
[lib]
crate-type = ["cdylib", "rlib"]

[dependencies]
pinocchio = "0.9.2"

[dev-dependencies]
solana-sdk = "3.0.0"
litesvm = "0.8.1"
litesvm-token = "0.8.1"

[features]
no-entrypoint = []
std = []
test-default = ["no-entrypoint", "std"]
"#;

/// A manifest whose package is called `name` and whose other tables are `body`.
pub open spec fn manifest_text(name: Seq<char>, body: Seq<char>) -> Seq<char> {
    PACKAGE_OPEN@ + name + PACKAGE_CLOSE@ + body
}

fn manifest(project_name: &str, body: &str) -> (out: String)
    ensures
        out@ == manifest_text(project_name@, body@),
{
    let mut out = String::from_str(PACKAGE_OPEN);
    out.append(project_name);
    out.append(PACKAGE_CLOSE);
    out.append(body);
    out
}

/// `Cargo.toml` of a new project: the package `project_name`, built as
/// `cdylib` and `rlib`, with the pinocchio crates, shank and the mollusk test
/// harness.
pub fn cargo_toml(project_name: &str) -> (out: String)
    ensures
        out@ == manifest_text(project_name@, MANIFEST_BODY@),
{
    manifest(project_name, MANIFEST_BODY)
}

/// A manifest for the package `project_name` that tests with mollusk.
pub fn cargo_toml_mollusk(project_name: &str) -> (out: String)
    ensures
        out@ == manifest_text(project_name@, MANIFEST_BODY_MOLLUSK@),
{
    manifest(project_name, MANIFEST_BODY_MOLLUSK)
}

/// A manifest for the package `project_name` that tests with litesvm.
pub fn cargo_toml_litesvm(project_name: &str) -> (out: String)
    ensures
        out@ == manifest_text(project_name@, MANIFEST_BODY_LITESVM@),
{
    manifest(project_name, MANIFEST_BODY_LITESVM)
}

/// The key of a manifest that introduces the package name, with the quote
/// that opens the value.
pub const NAME_KEY: &'static str = "name = \"";

/// The first position at or after `from` where `pattern` occurs in `text`.
pub open spec fn find_from(text: Seq<char>, pattern: Seq<char>, from: int) -> Option<int>
    decreases text.len() - from,
{
    if from < 0 || from + pattern.len() > text.len() {
        None
    } else if text.subrange(from, from + pattern.len()) == pattern {
        Some(from)
    } else {
        proof {
            if pattern.len() == 0 {
                assert(text.subrange(from, from + pattern.len()) =~= pattern);
            }
        }
        find_from(text, pattern, from + 1)
    }
}

/// The characters of `text` before its first double quote.
pub open spec fn until_quote(text: Seq<char>) -> Seq<char>
    decreases text.len(),
{
    if text.len() == 0 || text[0] == '"' {
        Seq::empty()
    } else {
        seq![text[0]] + until_quote(text.drop_first())
    }
}

/// The package name that a manifest declares: the quoted value behind the
/// first `name = ` of the text, if there is one.
pub open spec fn package_name_field(manifest: Seq<char>) -> Option<Seq<char>> {
    match find_from(manifest, NAME_KEY@, 0) {
        Some(at) => Some(until_quote(manifest.skip(at + NAME_KEY@.len()))),
        None => None,
    }
}

proof fn lemma_until_quote(value: Seq<char>, rest: Seq<char>)
    requires
        forall|i: int| 0 <= i < value.len() ==> value[i] != '"',
        rest.len() > 0,
        rest[0] == '"',
    ensures
        until_quote(value + rest) == value,
    decreases value.len(),
{
    let text = value + rest;
    if value.len() == 0 {
        assert(text[0] == rest[0]);
    } else {
        assert(text[0] == value[0]);
        assert(text.drop_first() == value.drop_first() + rest);
        lemma_until_quote(value.drop_first(), rest);
        assert(seq![value[0]] + value.drop_first() == value);
    }
}

/// The package name that a manifest declares is the project name it was
/// made from, character for character, whenever that name is valid.
pub proof fn lemma_manifest_declares_name(name: Seq<char>, body: Seq<char>)
    requires
        valid_project_name(name),
    ensures
        package_name_field(manifest_text(name, body)) == Some(name),
{
    reveal_strlit("[package]\nname = \"");
    reveal_strlit("\"\nversion = \"0.1.0\"\nedition = \"2021\"\n");
    reveal_strlit("name = \"");
    let text = manifest_text(name, body);
    let key = NAME_KEY@;
    assert(key.len() == 8);
    assert(PACKAGE_OPEN@.len() == 18);
    assert forall|k: int| 0 <= k < 10 implies #[trigger] text.subrange(k, k + 8) != key by {
        assert(text.subrange(k, k + 8)[0] == text[k]);
        assert(text[k] == PACKAGE_OPEN@[k]);
    }
    assert(text.subrange(10, 18) == key) by {
        assert forall|j: int| 0 <= j < 8 implies text.subrange(10, 18)[j] == key[j] by {
            assert(text[10 + j] == PACKAGE_OPEN@[10 + j]);
        }
    }
    reveal_with_fuel(find_from, 11);
    assert(find_from(text, key, 0) == Some(10int));
    let rest = PACKAGE_CLOSE@ + body;
    assert(text.skip(18) == name + rest);
    assert forall|i: int| 0 <= i < name.len() implies name[i] != '"' by {
        assert(is_name_char(name[i]));
    }
    assert(rest[0] == PACKAGE_CLOSE@[0]);
    lemma_until_quote(name, rest);
}

/// Two project names give the same manifest exactly when they are the same
/// name.
pub proof fn lemma_manifest_injective(a: Seq<char>, b: Seq<char>, body: Seq<char>)
    ensures
        manifest_text(a, body) == manifest_text(b, body) <==> a == b,
{
    if manifest_text(a, body) == manifest_text(b, body) {
        assert(manifest_text(a, body) == PACKAGE_OPEN@ + a + (PACKAGE_CLOSE@ + body));
        assert(manifest_text(b, body) == PACKAGE_OPEN@ + b + (PACKAGE_CLOSE@ + body));
        lemma_spliced_once_injective(PACKAGE_OPEN@, a, b, PACKAGE_CLOSE@ + body);
    }
}

} // verus!
