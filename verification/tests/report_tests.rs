//! The lines that report errors and warnings.

use chio::initializer::{ErrorKind, InitError, Stage, Warning};
use chio::report::{program_address_line, stage_name};

fn error(stage: Stage, kind: ErrorKind, detail: &str) -> InitError {
    InitError { stage, kind, detail: detail.to_string(), status: 1 }
}

#[test]
fn stage_names() {
    let names = [
        (Stage::ValidateName, "ValidateName"),
        (Stage::CreateRootDir, "CreateRootDir"),
        (Stage::ToolchainInit, "ToolchainInit"),
        (Stage::CreateDeployDir, "CreateDeployDir"),
        (Stage::GenerateKeypair, "GenerateKeypair"),
        (Stage::ReadProgramAddress, "ReadProgramAddress"),
        (Stage::ReadUserAddress, "ReadUserAddress"),
        (Stage::RenderAndWriteFiles, "RenderAndWriteFiles"),
        (Stage::RewriteManifest, "RewriteManifest"),
        (Stage::VcsInit, "VcsInit"),
        (Stage::VcsStage, "VcsStage"),
        (Stage::VcsCommit, "VcsCommit"),
        (Stage::Done, "Done"),
    ];
    for (stage, name) in names {
        assert_eq!(stage_name(stage), name);
        assert_eq!(format!("{:?}", stage), name);
    }
}

#[test]
fn messages_of_tools_that_exited_with_a_failure() {
    let cases = [
        (Stage::CreateRootDir, "Failed to create project directory: E"),
        (Stage::ToolchainInit, "Failed to initialize Cargo project: E"),
        (Stage::CreateDeployDir, "Failed to create deploy directory: E"),
        (Stage::GenerateKeypair, "Failed to generate keypair: E"),
        (Stage::ReadProgramAddress, "Failed to get program address from keypair: E"),
        (Stage::ReadUserAddress, "Failed to get user Solana address: E"),
        (Stage::RenderAndWriteFiles, "Failed to write project files: E"),
        (Stage::RewriteManifest, "Failed to write Cargo.toml: E"),
        (Stage::VcsInit, "Failed to initialize git repository: E"),
        (Stage::VcsStage, "Failed to add files to git: E"),
        (Stage::VcsCommit, "Failed to make initial commit: E"),
    ];
    for (stage, line) in cases {
        assert_eq!(error(stage, ErrorKind::ExternalTool, "E").message(), line);
    }
}

#[test]
fn messages_of_actions_that_could_not_be_carried_out() {
    let cases = [
        (Stage::CreateRootDir, "Failed to create project directory: E"),
        (Stage::ToolchainInit, "Failed to run 'cargo init': E"),
        (Stage::CreateDeployDir, "Failed to create deploy directory: E"),
        (Stage::GenerateKeypair, "Failed to generate keypair: E"),
        (Stage::ReadProgramAddress, "Failed to read keypair address: E"),
        (Stage::ReadUserAddress, "Failed to get user address: E"),
        (Stage::RenderAndWriteFiles, "Failed to write project files: E"),
        (Stage::RewriteManifest, "Failed to write Cargo.toml: E"),
        (Stage::VcsInit, "Failed to initialize git repository: E"),
        (Stage::VcsStage, "Failed to add files to git: E"),
        (Stage::VcsCommit, "Failed to make initial commit: E"),
    ];
    for (stage, line) in cases {
        assert_eq!(error(stage, ErrorKind::Unavailable, "E").message(), line);
    }
}

#[test]
fn the_message_of_a_rejected_name() {
    assert_eq!(
        error(Stage::ValidateName, ErrorKind::Validation, "my-proj").message(),
        "Invalid project name 'my-proj'. Project names can only contain letters, numbers, and underscores (_). Hyphens (-) and other special characters are not allowed."
    );
}

#[test]
fn error_output_is_passed_on_verbatim() {
    let stderr = "  error: could not find `Cargo.toml`\n\tcaused by: \u{2718} caf\u{e9}\r\n\n";
    let line = error(Stage::ToolchainInit, ErrorKind::ExternalTool, stderr).message();
    assert_eq!(line, format!("Failed to initialize Cargo project: {}", stderr));
    let warning = Warning { stage: Stage::VcsInit, detail: stderr.to_string() };
    assert_eq!(warning.message(), format!("Warning: Failed to initialize git repository: {}", stderr));
    assert_eq!(error(Stage::ToolchainInit, ErrorKind::ExternalTool, "").message(), "Failed to initialize Cargo project: ");
}

#[test]
fn warnings_of_the_best_effort_stages() {
    let cases = [
        (Stage::ReadUserAddress, "Failed to get user Solana address: E"),
        (Stage::VcsInit, "Warning: Failed to initialize git repository: E"),
        (Stage::VcsStage, "Warning: Failed to add files to git: E"),
        (Stage::VcsCommit, "Warning: Failed to make initial commit: E"),
    ];
    for (stage, line) in cases {
        assert_eq!(Warning { stage, detail: "E".to_string() }.message(), line);
    }
}

#[test]
fn the_hint_needs_the_commit_and_a_word_about_identity() {
    let hint = Some("Hint: Set your git config with:\n  git config --global user.email \"you@example.com\"\n  git config --global user.name \"Your Name\"");
    let at = |stage: Stage, detail: &str| Warning { stage, detail: detail.to_string() }.hint();
    assert_eq!(at(Stage::VcsCommit, "set user.email first"), hint);
    assert_eq!(at(Stage::VcsCommit, "user.name"), hint);
    assert_eq!(at(Stage::VcsCommit, "nothing to commit"), None);
    assert_eq!(at(Stage::VcsCommit, ""), None);
    assert_eq!(at(Stage::VcsCommit, "user.mail user_name"), None);
    assert_eq!(at(Stage::VcsInit, "user.email"), None);
    assert_eq!(at(Stage::VcsStage, "user.name"), None);
    assert_eq!(at(Stage::ReadUserAddress, "user.email"), None);
}

#[test]
fn the_line_of_the_program_address() {
    assert_eq!(program_address_line("7Np41oeY"), "Generated program address: 7Np41oeY");
    assert_eq!(program_address_line(""), "Generated program address: ");
}
