//! The initialisation of a project as a run through fixed stages.
//!
//! A run asks for one action at a time: a piece of the project to lay down
//! or a tool to invoke. The driver carries the action out and hands back
//! what happened; the run decides what follows. Each stage has a policy.
//! The stages up to the reading of the program address, and the writing of
//! the files, are required: if one of them fails, the run is over and
//! nothing further is attempted. The lookup of the user address and the
//! version-control stages are best effort: by then a keypair exists that
//! must not be thrown away, so a failure only leaves a warning and the run
//! goes on with the next stage. Nothing is ever undone or tried again.

use vstd::prelude::*;
use vstd::string::StringExecFns;

use crate::valid_project_name;
use crate::content::templates::MANIFEST_BODY;
use crate::content::templates::cargo_toml;
use crate::content::templates::manifest_text;
use crate::project::AddressPair;
use crate::project::AddressPairView;
use crate::project::ProjectSpec;
use crate::report::GIT_CONFIG_HINT;
use crate::report::needs_hint;
use crate::report::program_address_line;
use crate::report::program_address_notice;
use crate::report::warning_message;
use crate::scaffold::FsOp;
use crate::scaffold::FsOpView;
use crate::scaffold::GeneratedFile;
use crate::scaffold::GeneratedFileView;
use crate::scaffold::MANIFEST_PATH;
use crate::scaffold::directory_plan;
use crate::scaffold::directory_steps;
use crate::scaffold::file_set;
use crate::scaffold::generated_files;
use crate::scaffold::plan;
use crate::scaffold::scaffold_plan;
use crate::text::first_line;
use crate::text::first_line_trimmed;
use crate::text::trim;

pub mod laws;

verus! {

/// The stages of a run, in the order in which they are passed.
#[derive(Clone, Copy, PartialEq, Eq, Structural, Debug)]
pub enum Stage {
    ValidateName,
    CreateRootDir,
    ToolchainInit,
    CreateDeployDir,
    GenerateKeypair,
    ReadProgramAddress,
    ReadUserAddress,
    RenderAndWriteFiles,
    RewriteManifest,
    VcsInit,
    VcsStage,
    VcsCommit,
    Done,
}

/// What a failure at a stage does to the run.
#[derive(Clone, Copy, PartialEq, Eq, Structural, Debug)]
pub enum Policy {
    /// The run ends with the failure as its error.
    AbortOnFailure,
    /// The failure is kept as a warning and the run goes on.
    WarnOnFailure,
}

/// The place of a stage in the sequence.
pub open spec fn stage_index(stage: Stage) -> nat {
    match stage {
        Stage::ValidateName => 0,
        Stage::CreateRootDir => 1,
        Stage::ToolchainInit => 2,
        Stage::CreateDeployDir => 3,
        Stage::GenerateKeypair => 4,
        Stage::ReadProgramAddress => 5,
        Stage::ReadUserAddress => 6,
        Stage::RenderAndWriteFiles => 7,
        Stage::RewriteManifest => 8,
        Stage::VcsInit => 9,
        Stage::VcsStage => 10,
        Stage::VcsCommit => 11,
        Stage::Done => 12,
    }
}

/// The stage that follows `stage`; nothing follows `Done`.
pub open spec fn next_stage(stage: Stage) -> Stage {
    match stage {
        Stage::ValidateName => Stage::CreateRootDir,
        Stage::CreateRootDir => Stage::ToolchainInit,
        Stage::ToolchainInit => Stage::CreateDeployDir,
        Stage::CreateDeployDir => Stage::GenerateKeypair,
        Stage::GenerateKeypair => Stage::ReadProgramAddress,
        Stage::ReadProgramAddress => Stage::ReadUserAddress,
        Stage::ReadUserAddress => Stage::RenderAndWriteFiles,
        Stage::RenderAndWriteFiles => Stage::RewriteManifest,
        Stage::RewriteManifest => Stage::VcsInit,
        Stage::VcsInit => Stage::VcsStage,
        Stage::VcsStage => Stage::VcsCommit,
        Stage::VcsCommit => Stage::Done,
        Stage::Done => Stage::Done,
    }
}

/// The policy of a stage: the lookup of the user address and the three
/// version-control stages are best effort, every other stage is required.
pub open spec fn policy_of(stage: Stage) -> Policy {
    match stage {
        Stage::ReadUserAddress | Stage::VcsInit | Stage::VcsStage | Stage::VcsCommit => {
            Policy::WarnOnFailure
        },
        _ => Policy::AbortOnFailure,
    }
}

/// The mathematical content of a `ToolInvocationResult`.
pub struct ToolInvocationResultView {
    pub stdout: Seq<char>,
    pub stderr: Seq<char>,
    pub exit_code: Option<i32>,
}

/// What a tool left behind when it exited: the text of its two output
/// streams and its exit code, which is absent when a signal ended it.
pub struct ToolInvocationResult {
    pub stdout: String,
    pub stderr: String,
    pub exit_code: Option<i32>,
}

impl View for ToolInvocationResult {
    type V = ToolInvocationResultView;

    open spec fn view(&self) -> ToolInvocationResultView {
        ToolInvocationResultView {
            stdout: self.stdout@,
            stderr: self.stderr@,
            exit_code: self.exit_code,
        }
    }
}

impl DeepView for ToolInvocationResult {
    type V = ToolInvocationResultView;

    open spec fn deep_view(&self) -> ToolInvocationResultView {
        self.view()
    }
}

/// The mathematical content of an `Outcome`.
pub enum OutcomeView {
    Completed,
    Exited(ToolInvocationResultView),
    Failed(Seq<char>),
}

/// What the driver reports of an action.
pub enum Outcome {
    /// The action was carried out without error and left no output.
    Completed,
    /// The tool ran and exited.
    Exited(ToolInvocationResult),
    /// The action could not be carried out: the tool could not be started,
    /// or the file system refused. The text says why.
    Failed(String),
}

impl View for Outcome {
    type V = OutcomeView;

    open spec fn view(&self) -> OutcomeView {
        match self {
            Outcome::Completed => OutcomeView::Completed,
            Outcome::Exited(result) => OutcomeView::Exited(result@),
            Outcome::Failed(reason) => OutcomeView::Failed(reason@),
        }
    }
}

impl DeepView for Outcome {
    type V = OutcomeView;

    open spec fn deep_view(&self) -> OutcomeView {
        self.view()
    }
}

/// The mathematical content of a `ToolCommand`.
pub struct ToolCommandView {
    pub program: Seq<char>,
    pub args: Seq<Seq<char>>,
    pub working_dir: Seq<char>,
}

/// A tool to invoke: the program, its arguments, and the directory to run it
/// in.
pub struct ToolCommand {
    pub program: String,
    pub args: Vec<String>,
    pub working_dir: String,
}

impl DeepView for ToolCommand {
    type V = ToolCommandView;

    open spec fn deep_view(&self) -> ToolCommandView {
        ToolCommandView {
            program: self.program@,
            args: self.args.deep_view(),
            working_dir: self.working_dir@,
        }
    }
}

/// The mathematical content of an `Action`.
pub enum ActionView {
    Scaffold(Seq<FsOpView>),
    RunTool(ToolCommandView),
}

/// What a run asks its driver to do.
pub enum Action {
    /// Carry out the steps in their order, stopping at the first that fails.
    Scaffold(Vec<FsOp>),
    /// Invoke the tool, wait for it, and capture what it prints.
    RunTool(ToolCommand),
}

impl DeepView for Action {
    type V = ActionView;

    open spec fn deep_view(&self) -> ActionView {
        match self {
            Action::Scaffold(ops) => ActionView::Scaffold(ops.deep_view()),
            Action::RunTool(command) => ActionView::RunTool(command.deep_view()),
        }
    }
}

/// The kinds of error that end a run.
#[derive(Clone, Copy, PartialEq, Eq, Structural, Debug)]
pub enum ErrorKind {
    /// The project name is not valid. Nothing was touched.
    Validation,
    /// A tool of a required stage exited with a failure.
    ExternalTool,
    /// An action could not be carried out at all.
    Unavailable,
}

/// The mathematical content of an `InitError`.
pub struct InitErrorView {
    pub stage: Stage,
    pub kind: ErrorKind,
    pub detail: Seq<char>,
    pub status: i32,
}

/// The error that ended a run: the stage it came from, its kind, the text
/// that came with it (the rejected name, the error output of the tool as it
/// was captured, or the reason the driver gave), and the exit status that the
/// run ends with, which is never zero.
pub struct InitError {
    pub stage: Stage,
    pub kind: ErrorKind,
    pub detail: String,
    pub status: i32,
}

impl View for InitError {
    type V = InitErrorView;

    open spec fn view(&self) -> InitErrorView {
        InitErrorView {
            stage: self.stage,
            kind: self.kind,
            detail: self.detail@,
            status: self.status,
        }
    }
}

impl DeepView for InitError {
    type V = InitErrorView;

    open spec fn deep_view(&self) -> InitErrorView {
        self.view()
    }
}

/// The mathematical content of a `Warning`.
pub struct WarningView {
    pub stage: Stage,
    pub detail: Seq<char>,
}

/// A failure of a best-effort stage: the stage, and the text that came with
/// the failure (the error output of the tool as it was captured, or the
/// reason the driver gave).
pub struct Warning {
    pub stage: Stage,
    pub detail: String,
}

impl View for Warning {
    type V = WarningView;

    open spec fn view(&self) -> WarningView {
        WarningView { stage: self.stage, detail: self.detail@ }
    }
}

impl DeepView for Warning {
    type V = WarningView;

    open spec fn deep_view(&self) -> WarningView {
        self.view()
    }
}

/// The state of a run.
pub struct InitRunView {
    /// The name the run was started with.
    pub name: Seq<char>,
    /// The stage the run is at. A run that was ended by an error stays at the
    /// stage of the error.
    pub stage: Stage,
    /// The addresses read so far; each is empty until it is read.
    pub addresses: AddressPairView,
    /// The warnings so far, the oldest first.
    pub warnings: Seq<WarningView>,
    /// The error that ended the run, if one did.
    pub failure: Option<InitErrorView>,
}

impl InitRunView {
    /// What holds of every state that a run can reach.
    pub open spec fn well_formed(self) -> bool {
        &&& self.stage == Stage::ValidateName ==> self.failure is Some
        &&& self.stage != Stage::ValidateName ==> valid_project_name(self.name)
        &&& self.stage == Stage::Done ==> self.failure is None
        &&& self.failure matches Some(error) ==> error.stage == self.stage && error.status != 0
    }

    /// Whether the run is over, by success or by an error.
    pub open spec fn finished(self) -> bool {
        self.stage == Stage::Done || self.failure is Some
    }

    /// The exit status of the run so far: zero unless an error ended it.
    pub open spec fn exit_status(self) -> i32 {
        match self.failure {
            Some(error) => error.status,
            None => 0,
        }
    }

    /// Whether a keypair has been generated: the run has passed the stage
    /// that generates it.
    pub open spec fn has_credential(self) -> bool {
        stage_index(self.stage) > stage_index(Stage::GenerateKeypair)
    }
}

/// The state in which a run for `name` starts. A valid name starts at the
/// creation of the root directory. Any other name ends the run at once, with
/// a validation error and before any action.
pub open spec fn begin_state(name: Seq<char>) -> InitRunView {
    InitRunView {
        name,
        stage: if valid_project_name(name) {
            Stage::CreateRootDir
        } else {
            Stage::ValidateName
        },
        addresses: AddressPairView { program_address: Seq::empty(), user_address: Seq::empty() },
        warnings: Seq::empty(),
        failure: if valid_project_name(name) {
            None
        } else {
            Some(
                InitErrorView {
                    stage: Stage::ValidateName,
                    kind: ErrorKind::Validation,
                    detail: name,
                    status: 1,
                },
            )
        },
    }
}

/// Whether an outcome is a success: the action was completed, or the tool
/// exited with code zero.
pub open spec fn succeeded(outcome: OutcomeView) -> bool {
    match outcome {
        OutcomeView::Completed => true,
        OutcomeView::Exited(result) => result.exit_code == Some(0i32),
        OutcomeView::Failed(_) => false,
    }
}

/// What a tool printed to its standard output; nothing for the other
/// outcomes.
pub open spec fn output_text(outcome: OutcomeView) -> Seq<char> {
    match outcome {
        OutcomeView::Exited(result) => result.stdout,
        _ => Seq::empty(),
    }
}

/// The text that explains a failure: the error output of the tool as it was
/// captured, or the reason the driver gave.
pub open spec fn failure_detail(outcome: OutcomeView) -> Seq<char> {
    match outcome {
        OutcomeView::Exited(result) => result.stderr,
        OutcomeView::Failed(reason) => reason,
        OutcomeView::Completed => Seq::empty(),
    }
}

/// The exit status of a run that a failed outcome ends: the exit code of the
/// tool where it has one, else 1.
pub open spec fn failure_status(outcome: OutcomeView) -> i32 {
    match outcome {
        OutcomeView::Exited(result) => match result.exit_code {
            Some(code) => if code != 0 {
                code
            } else {
                1
            },
            None => 1,
        },
        _ => 1,
    }
}

/// The address in the output of an address lookup: the first line, without
/// the white space around it.
pub open spec fn address_in(output: Seq<char>) -> Seq<char> {
    trim(first_line(output))
}

/// The state after a success at the stage of `state`.
pub open spec fn after_success(state: InitRunView, outcome: OutcomeView) -> InitRunView {
    let addresses = match state.stage {
        Stage::ReadProgramAddress => AddressPairView {
            program_address: address_in(output_text(outcome)),
            ..state.addresses
        },
        Stage::ReadUserAddress => AddressPairView {
            user_address: address_in(output_text(outcome)),
            ..state.addresses
        },
        _ => state.addresses,
    };
    InitRunView { stage: next_stage(state.stage), addresses, ..state }
}

/// The state after a failure that ends the run.
pub open spec fn after_abort(state: InitRunView, outcome: OutcomeView) -> InitRunView {
    InitRunView {
        failure: Some(
            InitErrorView {
                stage: state.stage,
                kind: if outcome is Failed {
                    ErrorKind::Unavailable
                } else {
                    ErrorKind::ExternalTool
                },
                detail: failure_detail(outcome),
                status: failure_status(outcome),
            },
        ),
        ..state
    }
}

/// The state after a failure that is kept as a warning.
pub open spec fn after_warning(state: InitRunView, outcome: OutcomeView) -> InitRunView {
    InitRunView {
        stage: next_stage(state.stage),
        warnings: state.warnings.push(
            WarningView { stage: state.stage, detail: failure_detail(outcome) },
        ),
        ..state
    }
}

/// Whether an outcome ends the run: it is a failure, and the stage is
/// required.
pub open spec fn aborts(stage: Stage, outcome: OutcomeView) -> bool {
    !succeeded(outcome) && policy_of(stage) == Policy::AbortOnFailure
}

/// The transition of a run: the state that follows `state` when the action of
/// its stage had the given outcome. A run that is over stays as it is.
pub open spec fn step(state: InitRunView, outcome: OutcomeView) -> InitRunView {
    if state.finished() {
        state
    } else if succeeded(outcome) {
        after_success(state, outcome)
    } else if aborts(state.stage, outcome) {
        after_abort(state, outcome)
    } else {
        after_warning(state, outcome)
    }
}

/// The state after a sequence of outcomes, one for each action in turn.
pub open spec fn run_from(state: InitRunView, outcomes: Seq<OutcomeView>) -> InitRunView
    decreases outcomes.len(),
{
    if outcomes.len() == 0 {
        state
    } else {
        step(run_from(state, outcomes.drop_last()), outcomes.last())
    }
}

/// The build toolchain.
pub const CARGO: &'static str = "cargo";

/// The tool that generates keypairs.
pub const SOLANA_KEYGEN: &'static str = "solana-keygen";

/// The tool that looks addresses up.
pub const SOLANA: &'static str = "solana";

/// The version-control tool.
pub const GIT: &'static str = "git";

/// The directory of the keypair, relative to the project.
pub const DEPLOY_DIR: &'static str = "target/deploy/";

/// What follows the project name in the file name of the keypair.
pub const KEYPAIR_SUFFIX: &'static str = "-keypair.json";

/// What marks a path as relative to the working directory.
pub const HERE: &'static str = "./";

/// The message of the first commit, up to the project name.
pub const COMMIT_MESSAGE_HEAD: &'static str = "Initial commit: Setup Pinocchio project '";

/// What closes the message of the first commit.
pub const COMMIT_MESSAGE_TAIL: &'static str = "'";

/// Where the keypair of the program is kept, relative to the project.
pub open spec fn credential_path(name: Seq<char>) -> Seq<char> {
    DEPLOY_DIR@ + name + KEYPAIR_SUFFIX@
}

/// The keypair path as the key tools are given it.
pub open spec fn credential_arg(name: Seq<char>) -> Seq<char> {
    HERE@ + credential_path(name)
}

/// The message of the first commit.
pub open spec fn commit_message(name: Seq<char>) -> Seq<char> {
    COMMIT_MESSAGE_HEAD@ + name + COMMIT_MESSAGE_TAIL@
}

/// The tool invocation of a stage, run in the project directory. Stages
/// without a tool have none.
pub open spec fn command_of(stage: Stage, name: Seq<char>) -> Option<ToolCommandView> {
    match stage {
        Stage::ToolchainInit => Some(
            ToolCommandView {
                program: CARGO@,
                args: seq!["init"@, "--lib"@, "--name"@, name],
                working_dir: name,
            },
        ),
        Stage::GenerateKeypair => Some(
            ToolCommandView {
                program: SOLANA_KEYGEN@,
                args: seq!["new"@, "-o"@, credential_arg(name), "--no-bip39-passphrase"@],
                working_dir: name,
            },
        ),
        Stage::ReadProgramAddress => Some(
            ToolCommandView {
                program: SOLANA@,
                args: seq!["address"@, "-k"@, credential_arg(name)],
                working_dir: name,
            },
        ),
        Stage::ReadUserAddress => Some(
            ToolCommandView { program: SOLANA@, args: seq!["address"@], working_dir: name },
        ),
        Stage::VcsInit => Some(
            ToolCommandView { program: GIT@, args: seq!["init"@], working_dir: name },
        ),
        Stage::VcsStage => Some(
            ToolCommandView { program: GIT@, args: seq!["add"@, "."@], working_dir: name },
        ),
        Stage::VcsCommit => Some(
            ToolCommandView {
                program: GIT@,
                args: seq!["commit"@, "-m"@, commit_message(name)],
                working_dir: name,
            },
        ),
        _ => None,
    }
}

/// The manifest of the project as a file set of its own.
pub open spec fn manifest_file_set(name: Seq<char>) -> Seq<GeneratedFileView> {
    seq![
        GeneratedFileView { path: MANIFEST_PATH@, content: manifest_text(name, MANIFEST_BODY@) },
    ]
}

/// The files that the action of a stage writes: the source files of the
/// project with the addresses read so far, then the manifest, and none at
/// any other stage.
pub open spec fn files_of(state: InitRunView) -> Seq<GeneratedFileView> {
    match state.stage {
        Stage::RenderAndWriteFiles => file_set(state.name, state.addresses),
        Stage::RewriteManifest => manifest_file_set(state.name),
        _ => Seq::empty(),
    }
}

/// The steps of a stage that works on the file system: the root directory,
/// the directory that the keypair goes to, or the plan of the files that the
/// stage writes. Stages that invoke a tool have none.
pub open spec fn steps_of(state: InitRunView) -> Option<Seq<FsOpView>> {
    match state.stage {
        Stage::CreateRootDir | Stage::RenderAndWriteFiles | Stage::RewriteManifest => Some(
            plan(state.name, files_of(state)),
        ),
        Stage::CreateDeployDir => Some(
            directory_steps(state.name, seq![credential_path(state.name)]),
        ),
        _ => None,
    }
}

/// The action that a run asks for in `state`: none when it is over, else the
/// steps or the tool of its stage.
pub open spec fn action_of(state: InitRunView) -> Option<ActionView> {
    if state.finished() {
        None
    } else {
        match steps_of(state) {
            Some(ops) => Some(ActionView::Scaffold(ops)),
            None => match command_of(state.stage, state.name) {
                Some(command) => Some(ActionView::RunTool(command)),
                None => None,
            },
        }
    }
}

/// Whether the run asks for the keypair to be generated.
pub open spec fn requests_credential(state: InitRunView) -> bool {
    !state.finished() && state.stage == Stage::GenerateKeypair
}

/// What a run has to tell the user after a step: the program address once
/// it is read, or the warning that a failed best-effort stage leaves, with
/// the hint below it where the warning calls for one.
pub open spec fn notice_of(state: InitRunView, outcome: OutcomeView) -> Option<Seq<char>> {
    if state.finished() {
        None
    } else if succeeded(outcome) {
        if state.stage == Stage::ReadProgramAddress {
            Some(program_address_notice(address_in(output_text(outcome))))
        } else {
            None
        }
    } else if aborts(state.stage, outcome) {
        None
    } else {
        Some(warning_notice(WarningView { stage: state.stage, detail: failure_detail(outcome) }))
    }
}

/// The line of a warning, with the hint on a line of its own below it where
/// the warning calls for one.
pub open spec fn warning_notice(warning: WarningView) -> Seq<char> {
    if needs_hint(warning) {
        warning_message(warning) + seq!['\n'] + GIT_CONFIG_HINT@
    } else {
        warning_message(warning)
    }
}

impl Stage {
    /// The stage that follows this one.
    pub fn next(self) -> (stage: Stage)
        ensures
            stage == next_stage(self),
    {
        match self {
            Stage::ValidateName => Stage::CreateRootDir,
            Stage::CreateRootDir => Stage::ToolchainInit,
            Stage::ToolchainInit => Stage::CreateDeployDir,
            Stage::CreateDeployDir => Stage::GenerateKeypair,
            Stage::GenerateKeypair => Stage::ReadProgramAddress,
            Stage::ReadProgramAddress => Stage::ReadUserAddress,
            Stage::ReadUserAddress => Stage::RenderAndWriteFiles,
            Stage::RenderAndWriteFiles => Stage::RewriteManifest,
            Stage::RewriteManifest => Stage::VcsInit,
            Stage::VcsInit => Stage::VcsStage,
            Stage::VcsStage => Stage::VcsCommit,
            Stage::VcsCommit => Stage::Done,
            Stage::Done => Stage::Done,
        }
    }

    /// What a failure at this stage does to the run.
    pub fn policy(self) -> (policy: Policy)
        ensures
            policy == policy_of(self),
    {
        match self {
            Stage::ReadUserAddress | Stage::VcsInit | Stage::VcsStage | Stage::VcsCommit => {
                Policy::WarnOnFailure
            },
            _ => Policy::AbortOnFailure,
        }
    }
}

impl Outcome {
    /// Whether the outcome is a success.
    pub fn is_success(&self) -> (ok: bool)
        ensures
            ok == succeeded(self@),
    {
        match self {
            Outcome::Completed => true,
            Outcome::Exited(result) => match result.exit_code {
                Some(code) => code == 0,
                None => false,
            },
            Outcome::Failed(_) => false,
        }
    }

    /// The exit status of a run that this outcome ends.
    pub fn status(&self) -> (status: i32)
        ensures
            status == failure_status(self@),
            status != 0,
    {
        match self {
            Outcome::Exited(result) => match result.exit_code {
                Some(code) => if code != 0 {
                    code
                } else {
                    1
                },
                None => 1,
            },
            _ => 1,
        }
    }
}

/// Where the keypair of the project `name` is kept, relative to the project.
pub fn credential_file(name: &str) -> (path: String)
    ensures
        path@ == credential_path(name@),
{
    let mut path = String::from_str(DEPLOY_DIR);
    path.append(name);
    path.append(KEYPAIR_SUFFIX);
    path
}

fn credential_argument(name: &str) -> (arg: String)
    ensures
        arg@ == credential_arg(name@),
{
    let path = credential_file(name);
    let mut arg = String::from_str(HERE);
    arg.append(path.as_str());
    arg
}

fn first_commit_message(name: &str) -> (message: String)
    ensures
        message@ == commit_message(name@),
{
    let mut message = String::from_str(COMMIT_MESSAGE_HEAD);
    message.append(name);
    message.append(COMMIT_MESSAGE_TAIL);
    message
}

fn tool(program: &str, args: Vec<String>, name: &str) -> (command: ToolCommand)
    ensures
        command.deep_view() == (ToolCommandView {
            program: program@,
            args: args.deep_view(),
            working_dir: name@,
        }),
{
    ToolCommand { program: String::from_str(program), args, working_dir: String::from_str(name) }
}

/// The tool invocation of a stage for the project `name`, if the stage has
/// one.
pub fn command_for(stage: Stage, name: &str) -> (command: Option<ToolCommand>)
    ensures
        command.deep_view() == command_of(stage, name@),
{
    let mut args: Vec<String> = Vec::new();
    match stage {
        Stage::ToolchainInit => {
            args.push(String::from_str("init"));
            args.push(String::from_str("--lib"));
            args.push(String::from_str("--name"));
            args.push(String::from_str(name));
            assert(args.deep_view() =~= seq!["init"@, "--lib"@, "--name"@, name@]);
            Some(tool(CARGO, args, name))
        },
        Stage::GenerateKeypair => {
            args.push(String::from_str("new"));
            args.push(String::from_str("-o"));
            args.push(credential_argument(name));
            args.push(String::from_str("--no-bip39-passphrase"));
            assert(args.deep_view() =~= seq![
                "new"@,
                "-o"@,
                credential_arg(name@),
                "--no-bip39-passphrase"@,
            ]);
            Some(tool(SOLANA_KEYGEN, args, name))
        },
        Stage::ReadProgramAddress => {
            args.push(String::from_str("address"));
            args.push(String::from_str("-k"));
            args.push(credential_argument(name));
            assert(args.deep_view() =~= seq!["address"@, "-k"@, credential_arg(name@)]);
            Some(tool(SOLANA, args, name))
        },
        Stage::ReadUserAddress => {
            args.push(String::from_str("address"));
            assert(args.deep_view() =~= seq!["address"@]);
            Some(tool(SOLANA, args, name))
        },
        Stage::VcsInit => {
            args.push(String::from_str("init"));
            assert(args.deep_view() =~= seq!["init"@]);
            Some(tool(GIT, args, name))
        },
        Stage::VcsStage => {
            args.push(String::from_str("add"));
            args.push(String::from_str("."));
            assert(args.deep_view() =~= seq!["add"@, "."@]);
            Some(tool(GIT, args, name))
        },
        Stage::VcsCommit => {
            args.push(String::from_str("commit"));
            args.push(String::from_str("-m"));
            args.push(first_commit_message(name));
            assert(args.deep_view() =~= seq!["commit"@, "-m"@, commit_message(name@)]);
            Some(tool(GIT, args, name))
        },
        _ => None,
    }
}

/// The address in the output of an address lookup.
pub fn address_from_output(output: &str) -> (address: String)
    ensures
        address@ == address_in(output@),
{
    first_line_trimmed(output)
}

/// A run of the initialisation. It is made by `begin`, moved on by `advance`,
/// and is at every moment in a state that a run can reach.
pub struct InitRun {
    name: String,
    project: Option<ProjectSpec>,
    stage: Stage,
    addresses: AddressPair,
    warnings: Vec<Warning>,
    failure: Option<InitError>,
}

impl View for InitRun {
    type V = InitRunView;

    closed spec fn view(&self) -> InitRunView {
        InitRunView {
            name: self.name@,
            stage: self.stage,
            addresses: self.addresses@,
            warnings: self.warnings.deep_view(),
            failure: self.failure.deep_view(),
        }
    }
}

impl InitRun {
    #[verifier::type_invariant]
    spec fn coherent(&self) -> bool {
        &&& self@.well_formed()
        &&& self.project is Some <==> valid_project_name(self.name@)
        &&& self.project matches Some(project) ==> project@.name == self.name@
    }

    /// Starts a run for the project `name`. The name is validated here: a
    /// run for a name that is not valid is over from the start.
    pub fn begin(name: &str) -> (run: InitRun)
        ensures
            run@ == begin_state(name@),
            run@.well_formed(),
    {
        let project = ProjectSpec::new(name);
        let failure = match project {
            Some(_) => None,
            None => Some(
                InitError {
                    stage: Stage::ValidateName,
                    kind: ErrorKind::Validation,
                    detail: String::from_str(name),
                    status: 1,
                },
            ),
        };
        let stage = match project {
            Some(_) => Stage::CreateRootDir,
            None => Stage::ValidateName,
        };
        let warnings: Vec<Warning> = Vec::new();
        assert(warnings.deep_view() =~= Seq::<WarningView>::empty());
        InitRun {
            name: String::from_str(name),
            project,
            stage,
            addresses: AddressPair {
                program_address: String::new(),
                user_address: String::new(),
            },
            warnings,
            failure,
        }
    }

    /// The name the run was started with.
    pub fn name(&self) -> (name: &str)
        ensures
            name@ == self@.name,
    {
        self.name.as_str()
    }

    /// The stage the run is at.
    pub fn stage(&self) -> (stage: Stage)
        ensures
            stage == self@.stage,
    {
        self.stage
    }

    /// The addresses read so far.
    pub fn addresses(&self) -> (addresses: &AddressPair)
        ensures
            addresses@ == self@.addresses,
    {
        &self.addresses
    }

    /// The warnings so far, the oldest first.
    pub fn warnings(&self) -> (warnings: &Vec<Warning>)
        ensures
            warnings.deep_view() == self@.warnings,
    {
        &self.warnings
    }

    /// The error that ended the run, if one did.
    pub fn failure(&self) -> (failure: &Option<InitError>)
        ensures
            failure.deep_view() == self@.failure,
    {
        &self.failure
    }

    /// Whether the run is over.
    pub fn is_finished(&self) -> (finished: bool)
        ensures
            finished == self@.finished(),
    {
        match self.stage {
            Stage::Done => true,
            _ => self.failure.is_some(),
        }
    }

    /// The exit status of the run: zero unless an error ended it.
    pub fn exit_status(&self) -> (status: i32)
        ensures
            status == self@.exit_status(),
            status != 0 <==> self@.failure is Some,
    {
        proof {
            use_type_invariant(self);
        }
        match &self.failure {
            Some(error) => error.status,
            None => 0,
        }
    }

    /// The action that the run asks for: none when it is over.
    pub fn next_action(&self) -> (action: Option<Action>)
        ensures
            action.deep_view() == action_of(self@),
            action is None <==> self@.finished(),
    {
        proof {
            use_type_invariant(self);
        }
        if self.is_finished() {
            return None;
        }
        let name = self.name.as_str();
        match self.stage {
            Stage::CreateRootDir => {
                let files: Vec<GeneratedFile> = Vec::new();
                assert(files.deep_view() =~= Seq::<GeneratedFileView>::empty());
                Some(Action::Scaffold(scaffold_plan(name, &files)))
            },
            Stage::CreateDeployDir => {
                let mut paths: Vec<String> = Vec::new();
                paths.push(credential_file(name));
                assert(paths.deep_view() =~= seq![credential_path(name@)]);
                Some(Action::Scaffold(directory_plan(name, &paths)))
            },
            Stage::RenderAndWriteFiles => match &self.project {
                Some(project) => {
                    let files = generated_files(project, &self.addresses);
                    Some(Action::Scaffold(scaffold_plan(name, &files)))
                },
                None => None,
            },
            Stage::RewriteManifest => {
                let mut files: Vec<GeneratedFile> = Vec::new();
                files.push(
                    GeneratedFile { path: String::from_str(MANIFEST_PATH), content: cargo_toml(name) },
                );
                assert(files.deep_view() =~= manifest_file_set(name@));
                Some(Action::Scaffold(scaffold_plan(name, &files)))
            },
            _ => match command_for(self.stage, name) {
                Some(command) => Some(Action::RunTool(command)),
                None => None,
            },
        }
    }

    /// Moves the run on by the outcome of the action it asked for, and says
    /// what there is to tell the user. A success leads to the next stage; the
    /// two address stages keep the address they read. A failure at a
    /// required stage ends the run with an error; a failure at a best-effort
    /// stage leaves a warning, and the run goes on. A run that is over stays
    /// as it is.
    pub fn advance(self, outcome: Outcome) -> (next: (InitRun, Option<String>))
        ensures
            next.0@ == step(self@, outcome@),
            next.0@.well_formed(),
            next.1.deep_view() == notice_of(self@, outcome@),
    {
        proof {
            use_type_invariant(&self);
        }
        if self.is_finished() {
            return (self, None);
        }
        let ok = outcome.is_success();
        let status = outcome.status();
        let InitRun { name, project, stage, addresses, warnings, failure } = self;
        let ghost old_warnings = warnings.deep_view();
        if ok {
            let output = match outcome {
                Outcome::Exited(result) => result.stdout,
                _ => String::new(),
            };
            match stage {
                Stage::ReadProgramAddress => {
                    let address = address_from_output(output.as_str());
                    let notice = program_address_line(address.as_str());
                    let run = InitRun {
                        name,
                        project,
                        stage: stage.next(),
                        addresses: AddressPair {
                            program_address: address,
                            user_address: addresses.user_address,
                        },
                        warnings,
                        failure,
                    };
                    (run, Some(notice))
                },
                Stage::ReadUserAddress => {
                    let address = address_from_output(output.as_str());
                    let run = InitRun {
                        name,
                        project,
                        stage: stage.next(),
                        addresses: AddressPair {
                            program_address: addresses.program_address,
                            user_address: address,
                        },
                        warnings,
                        failure,
                    };
                    (run, None)
                },
                _ => {
                    let run = InitRun {
                        name,
                        project,
                        stage: stage.next(),
                        addresses,
                        warnings,
                        failure,
                    };
                    (run, None)
                },
            }
        } else {
            let (unavailable, detail) = match outcome {
                Outcome::Exited(result) => (false, result.stderr),
                Outcome::Failed(reason) => (true, reason),
                Outcome::Completed => (false, String::new()),
            };
            let abort = match stage.policy() {
                Policy::AbortOnFailure => true,
                Policy::WarnOnFailure => false,
            };
            if abort {
                let kind = if unavailable {
                    ErrorKind::Unavailable
                } else {
                    ErrorKind::ExternalTool
                };
                let run = InitRun {
                    name,
                    project,
                    stage,
                    addresses,
                    warnings,
                    failure: Some(InitError { stage, kind, detail, status }),
                };
                (run, None)
            } else {
                let warning = Warning { stage, detail };
                let mut notice = warning.message();
                match warning.hint() {
                    Some(hint) => {
                        proof {
                            reveal_strlit("\n");
                        }
                        notice.append("\n");
                        notice.append(hint);
                        assert("\n"@ =~= seq!['\n']);
                    },
                    None => {},
                }
                let mut warnings = warnings;
                warnings.push(warning);
                assert(warnings.deep_view() =~= old_warnings.push(warning@));
                let run = InitRun {
                    name,
                    project,
                    stage: stage.next(),
                    addresses,
                    warnings,
                    failure,
                };
                (run, Some(notice))
            }
        }
    }
}

} // verus!
