//! The words in which a run reports its errors and warnings.
//!
//! An error or warning keeps the stage it came from and the text that came
//! with it; the functions here turn it into the line that the user reads.
//! Captured error output is passed on as it is.

use vstd::prelude::*;
use vstd::string::StringExecFns;

use crate::initializer::ErrorKind;
use crate::initializer::InitError;
use crate::initializer::InitErrorView;
use crate::initializer::Stage;
use crate::initializer::Warning;
use crate::initializer::WarningView;
use crate::text::contains_text;
use crate::text::has_substring;

verus! {

/// What stands before a rejected name.
pub const INVALID_NAME_HEAD: &'static str = "Invalid project name '";

/// What stands behind a rejected name: the rule it breaks.
pub const INVALID_NAME_TAIL: &'static str =
    "'. Project names can only contain letters, numbers, and underscores (_). Hyphens (-) and other special characters are not allowed.";

/// What stands between what failed and the text of the failure.
pub const SEPARATOR: &'static str = ": ";

/// What marks the warning of a version-control stage.
pub const WARNING_HEAD: &'static str = "Warning: ";

/// What stands before the program address.
pub const PROGRAM_ADDRESS_HEAD: &'static str = "Generated program address: ";

/// The root directory could not be made.
pub const CANNOT_CREATE_ROOT: &'static str = "Failed to create project directory";

/// The build toolchain could not be started.
pub const CANNOT_RUN_TOOLCHAIN: &'static str = "Failed to run 'cargo init'";

/// The build toolchain refused to set the package up.
pub const TOOLCHAIN_FAILED: &'static str = "Failed to initialize Cargo project";

/// The directory for the keypair could not be made.
pub const CANNOT_CREATE_DEPLOY_DIR: &'static str = "Failed to create deploy directory";

/// No keypair was generated.
pub const KEYPAIR_FAILED: &'static str = "Failed to generate keypair";

/// The address lookup for the keypair could not be started.
pub const CANNOT_READ_PROGRAM_ADDRESS: &'static str = "Failed to read keypair address";

/// The address lookup for the keypair failed.
pub const PROGRAM_ADDRESS_FAILED: &'static str = "Failed to get program address from keypair";

/// The lookup of the user address could not be started.
pub const CANNOT_READ_USER_ADDRESS: &'static str = "Failed to get user address";

/// The lookup of the user address failed.
pub const USER_ADDRESS_FAILED: &'static str = "Failed to get user Solana address";

/// The source files could not be written.
pub const CANNOT_WRITE_FILES: &'static str = "Failed to write project files";

/// The manifest could not be written.
pub const CANNOT_WRITE_MANIFEST: &'static str = "Failed to write Cargo.toml";

/// No repository was made.
pub const VCS_INIT_FAILED: &'static str = "Failed to initialize git repository";

/// The files were not staged.
pub const VCS_STAGE_FAILED: &'static str = "Failed to add files to git";

/// The first commit was not made.
pub const VCS_COMMIT_FAILED: &'static str = "Failed to make initial commit";

/// What is said of the two stages at which no action is taken.
pub const NO_ACTION: &'static str = "Failed";

/// The setting for the mail address of the committer.
pub const USER_EMAIL: &'static str = "user.email";

/// The setting for the name of the committer.
pub const USER_NAME: &'static str = "user.name";

/// How to set the identity that commits need.
pub const GIT_CONFIG_HINT: &'static str =
    "Hint: Set your git config with:\n  git config --global user.email \"you@example.com\"\n  git config --global user.name \"Your Name\"";

/// The name of a stage.
pub open spec fn stage_label(stage: Stage) -> Seq<char> {
    match stage {
        Stage::ValidateName => "ValidateName"@,
        Stage::CreateRootDir => "CreateRootDir"@,
        Stage::ToolchainInit => "ToolchainInit"@,
        Stage::CreateDeployDir => "CreateDeployDir"@,
        Stage::GenerateKeypair => "GenerateKeypair"@,
        Stage::ReadProgramAddress => "ReadProgramAddress"@,
        Stage::ReadUserAddress => "ReadUserAddress"@,
        Stage::RenderAndWriteFiles => "RenderAndWriteFiles"@,
        Stage::RewriteManifest => "RewriteManifest"@,
        Stage::VcsInit => "VcsInit"@,
        Stage::VcsStage => "VcsStage"@,
        Stage::VcsCommit => "VcsCommit"@,
        Stage::Done => "Done"@,
    }
}

/// What is said when the action of a stage could not be carried out.
pub open spec fn unavailable_text(stage: Stage) -> Seq<char> {
    match stage {
        Stage::ValidateName | Stage::Done => NO_ACTION@,
        Stage::CreateRootDir => CANNOT_CREATE_ROOT@,
        Stage::ToolchainInit => CANNOT_RUN_TOOLCHAIN@,
        Stage::CreateDeployDir => CANNOT_CREATE_DEPLOY_DIR@,
        Stage::GenerateKeypair => KEYPAIR_FAILED@,
        Stage::ReadProgramAddress => CANNOT_READ_PROGRAM_ADDRESS@,
        Stage::ReadUserAddress => CANNOT_READ_USER_ADDRESS@,
        Stage::RenderAndWriteFiles => CANNOT_WRITE_FILES@,
        Stage::RewriteManifest => CANNOT_WRITE_MANIFEST@,
        Stage::VcsInit => VCS_INIT_FAILED@,
        Stage::VcsStage => VCS_STAGE_FAILED@,
        Stage::VcsCommit => VCS_COMMIT_FAILED@,
    }
}

/// What is said when the tool of a stage exited with a failure.
pub open spec fn failure_text(stage: Stage) -> Seq<char> {
    match stage {
        Stage::ToolchainInit => TOOLCHAIN_FAILED@,
        Stage::ReadProgramAddress => PROGRAM_ADDRESS_FAILED@,
        Stage::ReadUserAddress => USER_ADDRESS_FAILED@,
        _ => unavailable_text(stage),
    }
}

/// The line that reports an error: for a rejected name, the name and the
/// rule it breaks; for any other error, what failed at its stage, a colon,
/// and the text that came with the failure, unchanged.
pub open spec fn error_message(error: InitErrorView) -> Seq<char> {
    match error.kind {
        ErrorKind::Validation => INVALID_NAME_HEAD@ + error.detail + INVALID_NAME_TAIL@,
        ErrorKind::ExternalTool => failure_text(error.stage) + SEPARATOR@ + error.detail,
        ErrorKind::Unavailable => unavailable_text(error.stage) + SEPARATOR@ + error.detail,
    }
}

/// Whether a warning is one of the version-control stages.
pub open spec fn is_vcs_stage(stage: Stage) -> bool {
    stage == Stage::VcsInit || stage == Stage::VcsStage || stage == Stage::VcsCommit
}

/// The line that reports a warning: what failed at its stage, a colon, and
/// the error output of the tool, unchanged. A warning of a version-control
/// stage is marked as a warning in front.
pub open spec fn warning_message(warning: WarningView) -> Seq<char> {
    if is_vcs_stage(warning.stage) {
        WARNING_HEAD@ + failure_text(warning.stage) + SEPARATOR@ + warning.detail
    } else {
        failure_text(warning.stage) + SEPARATOR@ + warning.detail
    }
}

/// Whether a warning calls for the hint on the identity that commits need:
/// it comes from the commit, and the error output names one of the two
/// settings.
pub open spec fn needs_hint(warning: WarningView) -> bool {
    warning.stage == Stage::VcsCommit && (has_substring(warning.detail, USER_EMAIL@)
        || has_substring(warning.detail, USER_NAME@))
}

/// The line that tells the program address.
pub open spec fn program_address_notice(address: Seq<char>) -> Seq<char> {
    PROGRAM_ADDRESS_HEAD@ + address
}

/// The name of a stage, for diagnosis.
pub fn stage_name(stage: Stage) -> (name: &'static str)
    ensures
        name@ == stage_label(stage),
{
    match stage {
        Stage::ValidateName => "ValidateName",
        Stage::CreateRootDir => "CreateRootDir",
        Stage::ToolchainInit => "ToolchainInit",
        Stage::CreateDeployDir => "CreateDeployDir",
        Stage::GenerateKeypair => "GenerateKeypair",
        Stage::ReadProgramAddress => "ReadProgramAddress",
        Stage::ReadUserAddress => "ReadUserAddress",
        Stage::RenderAndWriteFiles => "RenderAndWriteFiles",
        Stage::RewriteManifest => "RewriteManifest",
        Stage::VcsInit => "VcsInit",
        Stage::VcsStage => "VcsStage",
        Stage::VcsCommit => "VcsCommit",
        Stage::Done => "Done",
    }
}

fn unavailable_words(stage: Stage) -> (words: &'static str)
    ensures
        words@ == unavailable_text(stage),
{
    match stage {
        Stage::ValidateName | Stage::Done => NO_ACTION,
        Stage::CreateRootDir => CANNOT_CREATE_ROOT,
        Stage::ToolchainInit => CANNOT_RUN_TOOLCHAIN,
        Stage::CreateDeployDir => CANNOT_CREATE_DEPLOY_DIR,
        Stage::GenerateKeypair => KEYPAIR_FAILED,
        Stage::ReadProgramAddress => CANNOT_READ_PROGRAM_ADDRESS,
        Stage::ReadUserAddress => CANNOT_READ_USER_ADDRESS,
        Stage::RenderAndWriteFiles => CANNOT_WRITE_FILES,
        Stage::RewriteManifest => CANNOT_WRITE_MANIFEST,
        Stage::VcsInit => VCS_INIT_FAILED,
        Stage::VcsStage => VCS_STAGE_FAILED,
        Stage::VcsCommit => VCS_COMMIT_FAILED,
    }
}

fn failure_words(stage: Stage) -> (words: &'static str)
    ensures
        words@ == failure_text(stage),
{
    match stage {
        Stage::ToolchainInit => TOOLCHAIN_FAILED,
        Stage::ReadProgramAddress => PROGRAM_ADDRESS_FAILED,
        Stage::ReadUserAddress => USER_ADDRESS_FAILED,
        _ => unavailable_words(stage),
    }
}

impl InitError {
    /// The line that reports the error.
    pub fn message(&self) -> (line: String)
        ensures
            line@ == error_message(self@),
    {
        match self.kind {
            ErrorKind::Validation => {
                let mut line = String::from_str(INVALID_NAME_HEAD);
                line.append(self.detail.as_str());
                line.append(INVALID_NAME_TAIL);
                line
            },
            ErrorKind::ExternalTool => {
                let mut line = String::from_str(failure_words(self.stage));
                line.append(SEPARATOR);
                line.append(self.detail.as_str());
                line
            },
            ErrorKind::Unavailable => {
                let mut line = String::from_str(unavailable_words(self.stage));
                line.append(SEPARATOR);
                line.append(self.detail.as_str());
                line
            },
        }
    }
}

impl Warning {
    /// The line that reports the warning.
    pub fn message(&self) -> (line: String)
        ensures
            line@ == warning_message(self@),
    {
        let mut line = match self.stage {
            Stage::VcsInit | Stage::VcsStage | Stage::VcsCommit => {
                let mut head = String::from_str(WARNING_HEAD);
                head.append(failure_words(self.stage));
                head
            },
            _ => String::from_str(failure_words(self.stage)),
        };
        line.append(SEPARATOR);
        line.append(self.detail.as_str());
        line
    }

    /// The hint that goes with the warning, if it calls for one: how to set
    /// the identity that commits need.
    pub fn hint(&self) -> (hint: Option<&'static str>)
        ensures
            hint is Some <==> needs_hint(self@),
            hint matches Some(text) ==> text@ == GIT_CONFIG_HINT@,
    {
        match self.stage {
            Stage::VcsCommit => {
                if contains_text(self.detail.as_str(), USER_EMAIL) || contains_text(
                    self.detail.as_str(),
                    USER_NAME,
                ) {
                    Some(GIT_CONFIG_HINT)
                } else {
                    None
                }
            },
            _ => None,
        }
    }
}

/// The line that tells the program address.
pub fn program_address_line(address: &str) -> (line: String)
    ensures
        line@ == program_address_notice(address@),
{
    let mut line = String::from_str(PROGRAM_ADDRESS_HEAD);
    line.append(address);
    line
}

/// The text of an error holds the text that came with the failure, as it
/// was: it can be read back from the line.
pub proof fn lemma_error_message_keeps_detail(error: InitErrorView)
    ensures
        has_substring(error_message(error), error.detail),
{
    let line = error_message(error);
    let detail = error.detail;
    match error.kind {
        ErrorKind::Validation => {
            let at = INVALID_NAME_HEAD@.len() as int;
            assert(line.subrange(at, at + detail.len()) =~= detail);
        },
        ErrorKind::ExternalTool => {
            let at = (failure_text(error.stage) + SEPARATOR@).len() as int;
            assert(line.subrange(at, at + detail.len()) =~= detail);
        },
        ErrorKind::Unavailable => {
            let at = (unavailable_text(error.stage) + SEPARATOR@).len() as int;
            assert(line.subrange(at, at + detail.len()) =~= detail);
        },
    }
}

} // verus!
