//! What holds of every run: the laws of the stages and of the failure
//! policy, proved of the transition function.

use vstd::prelude::*;

use crate::valid_project_name;
use crate::initializer::ActionView;
use crate::initializer::ErrorKind;
use crate::initializer::InitErrorView;
use crate::initializer::InitRunView;
use crate::initializer::OutcomeView;
use crate::initializer::Policy;
use crate::initializer::SOLANA_KEYGEN;
use crate::initializer::Stage;
use crate::initializer::WarningView;
use crate::initializer::action_of;
use crate::initializer::address_in;
use crate::initializer::begin_state;
use crate::initializer::credential_path;
use crate::initializer::failure_detail;
use crate::initializer::files_of;
use crate::initializer::manifest_file_set;
use crate::initializer::next_stage;
use crate::initializer::output_text;
use crate::initializer::policy_of;
use crate::initializer::requests_credential;
use crate::initializer::run_from;
use crate::initializer::stage_index;
use crate::initializer::step;
use crate::initializer::steps_of;
use crate::initializer::succeeded;
use crate::project::AddressPairView;
use crate::scaffold::ENTRYPOINT_RS_PATH;
use crate::scaffold::ERRORS_RS_PATH;
use crate::scaffold::FsOpView;
use crate::scaffold::GITIGNORE_PATH;
use crate::scaffold::INITIALIZE_RS_PATH;
use crate::scaffold::INSTRUCTIONS_MOD_RS_PATH;
use crate::scaffold::LIB_RS_PATH;
use crate::scaffold::MANIFEST_PATH;
use crate::scaffold::README_PATH;
use crate::scaffold::STATES_MOD_RS_PATH;
use crate::scaffold::STATE_RS_PATH;
use crate::scaffold::TESTS_RS_PATH;
use crate::scaffold::UTILS_RS_PATH;
use crate::scaffold::directory_steps;
use crate::scaffold::file_set;
use crate::scaffold::paths_of;
use crate::scaffold::write_files;

verus! {

/// A run starts in a state that a run can be in.
pub proof fn lemma_begin_well_formed(name: Seq<char>)
    ensures
        begin_state(name).well_formed(),
        valid_project_name(name) ==> !begin_state(name).finished(),
{
}

/// A step leads from a state that a run can be in to another such state, and
/// never back to an earlier stage.
pub proof fn lemma_step_well_formed(state: InitRunView, outcome: OutcomeView)
    requires
        state.well_formed(),
    ensures
        step(state, outcome).well_formed(),
        step(state, outcome).name == state.name,
        stage_index(step(state, outcome).stage) >= stage_index(state.stage),
{
}

/// Every state of a run is one that a run can be in, and the stages of a run
/// never go back.
pub proof fn lemma_run_well_formed(state: InitRunView, outcomes: Seq<OutcomeView>)
    requires
        state.well_formed(),
    ensures
        run_from(state, outcomes).well_formed(),
        run_from(state, outcomes).name == state.name,
        stage_index(run_from(state, outcomes).stage) >= stage_index(state.stage),
    decreases outcomes.len(),
{
    if outcomes.len() > 0 {
        lemma_run_well_formed(state, outcomes.drop_last());
        lemma_step_well_formed(run_from(state, outcomes.drop_last()), outcomes.last());
    }
}

/// No stage is tried again: a step of a run that is not over either ends the
/// run where it stands or moves it on by exactly one stage.
pub proof fn lemma_no_stage_is_retried(state: InitRunView, outcome: OutcomeView)
    requires
        state.well_formed(),
        !state.finished(),
    ensures
        step(state, outcome).failure is Some ==> step(state, outcome).stage == state.stage,
        step(state, outcome).failure is None ==> stage_index(step(state, outcome).stage)
            == stage_index(state.stage) + 1,
{
}

/// A run that is over asks for nothing and no outcome changes it.
pub proof fn lemma_finished_is_final(state: InitRunView, outcomes: Seq<OutcomeView>)
    requires
        state.finished(),
    ensures
        action_of(state) is None,
        run_from(state, outcomes) == state,
    decreases outcomes.len(),
{
    if outcomes.len() > 0 {
        lemma_finished_is_final(state, outcomes.drop_last());
    }
}

/// A run that is not over asks for an action.
pub proof fn lemma_live_run_acts(state: InitRunView)
    requires
        state.well_formed(),
        !state.finished(),
    ensures
        action_of(state) is Some,
{
}

/// A name that is not valid ends the run before anything is done: the run
/// asks for no action, carries a validation error with the name, and exits
/// with a status that is not zero, whatever is reported to it.
pub proof fn lemma_invalid_name_does_nothing(name: Seq<char>, outcomes: Seq<OutcomeView>)
    requires
        !valid_project_name(name),
    ensures
        action_of(begin_state(name)) is None,
        run_from(begin_state(name), outcomes) == begin_state(name),
        begin_state(name).failure == Some(
            InitErrorView {
                stage: Stage::ValidateName,
                kind: ErrorKind::Validation,
                detail: name,
                status: 1,
            },
        ),
        begin_state(name).exit_status() != 0,
{
    lemma_finished_is_final(begin_state(name), outcomes);
}

/// A failure at a required stage ends the run: it carries an error from that
/// stage with the text of the failure, its exit status is not zero, it stays
/// at the stage and asks for nothing more.
pub proof fn lemma_required_failure_aborts(state: InitRunView, outcome: OutcomeView)
    requires
        state.well_formed(),
        !state.finished(),
        policy_of(state.stage) == Policy::AbortOnFailure,
        !succeeded(outcome),
    ensures
        step(state, outcome).failure matches Some(error) && error.stage == state.stage
            && error.detail == failure_detail(outcome) && error.status != 0,
        step(state, outcome).exit_status() != 0,
        step(state, outcome).stage == state.stage,
        step(state, outcome).warnings == state.warnings,
        action_of(step(state, outcome)) is None,
{
}

/// The keypair tool is invoked at the stage that generates the keypair and
/// at no other: a run asks for it exactly when it is at that stage and not
/// over.
pub proof fn lemma_keypair_tool_runs_at_its_stage(state: InitRunView)
    requires
        state.well_formed(),
    ensures
        requests_credential(state) <==> (action_of(state) matches Some(ActionView::RunTool(command))
            && command.program == SOLANA_KEYGEN@),
{
    reveal_strlit("cargo");
    reveal_strlit("solana-keygen");
    reveal_strlit("solana");
    reveal_strlit("git");
    assert(SOLANA_KEYGEN@.len() == 13);
}

/// If a run is ended by an error at a stage before the keypair is generated,
/// then no keypair exists: the run has not passed that stage, and at no point
/// did it ask for the keypair to be generated.
pub proof fn lemma_early_abort_leaves_no_credential(
    name: Seq<char>,
    outcomes: Seq<OutcomeView>,
    upto: int,
)
    requires
        run_from(begin_state(name), outcomes).failure is Some,
        stage_index(run_from(begin_state(name), outcomes).stage) < stage_index(
            Stage::GenerateKeypair,
        ),
        0 <= upto <= outcomes.len(),
    ensures
        run_from(begin_state(name), outcomes).exit_status() != 0,
        !run_from(begin_state(name), outcomes).has_credential(),
        !requests_credential(run_from(begin_state(name), outcomes.take(upto))),
{
    let start = begin_state(name);
    let end = run_from(start, outcomes);
    lemma_begin_well_formed(name);
    lemma_run_well_formed(start, outcomes);
    let middle = run_from(start, outcomes.take(upto));
    lemma_run_well_formed(start, outcomes.take(upto));
    lemma_run_splits(start, outcomes, upto);
    lemma_run_well_formed(middle, outcomes.skip(upto));
}

/// A run over a sequence of outcomes is the run over its first part followed
/// by the run over the rest.
pub proof fn lemma_run_splits(state: InitRunView, outcomes: Seq<OutcomeView>, at: int)
    requires
        0 <= at <= outcomes.len(),
    ensures
        run_from(state, outcomes) == run_from(
            run_from(state, outcomes.take(at)),
            outcomes.skip(at),
        ),
    decreases outcomes.len(),
{
    if at == outcomes.len() {
        assert(outcomes.take(at) =~= outcomes);
        assert(outcomes.skip(at) =~= Seq::<OutcomeView>::empty());
    } else {
        let shorter = outcomes.drop_last();
        lemma_run_splits(state, shorter, at);
        assert(shorter.take(at) =~= outcomes.take(at));
        assert(outcomes.skip(at).drop_last() =~= shorter.skip(at));
        assert(outcomes.skip(at).last() == outcomes.last());
    }
}

/// A failure at a best-effort stage does not end the run: the run goes on to
/// the next stage with one more warning, which carries the stage and the
/// text of the failure, and its exit status stays zero.
pub proof fn lemma_best_effort_failure_warns(state: InitRunView, outcome: OutcomeView)
    requires
        state.well_formed(),
        !state.finished(),
        policy_of(state.stage) == Policy::WarnOnFailure,
        !succeeded(outcome),
    ensures
        step(state, outcome).failure is None,
        step(state, outcome).exit_status() == 0,
        step(state, outcome).stage == next_stage(state.stage),
        step(state, outcome).addresses == state.addresses,
        step(state, outcome).warnings == state.warnings.push(
            WarningView { stage: state.stage, detail: failure_detail(outcome) },
        ),
{
}

/// Once the manifest is written, nothing that happens to version control
/// fails the run: whatever the three outcomes are, they lead from the first
/// version-control stage to `Done` with exit status zero and the addresses
/// as they were, and each failure among them has left its warning.
pub proof fn lemma_vcs_cannot_fail_the_run(
    state: InitRunView,
    init: OutcomeView,
    stage: OutcomeView,
    commit: OutcomeView,
)
    requires
        state.well_formed(),
        !state.finished(),
        state.stage == Stage::VcsInit,
    ensures
        run_from(state, seq![init, stage, commit]).stage == Stage::Done,
        run_from(state, seq![init, stage, commit]).failure is None,
        run_from(state, seq![init, stage, commit]).exit_status() == 0,
        run_from(state, seq![init, stage, commit]).addresses == state.addresses,
        run_from(state, seq![init, stage, commit]).warnings.len() == state.warnings.len() + (
        if succeeded(init) {
            0int
        } else {
            1int
        }) + (if succeeded(stage) {
            0int
        } else {
            1int
        }) + (if succeeded(commit) {
            0int
        } else {
            1int
        }),
{
    let all = seq![init, stage, commit];
    let two = all.drop_last();
    let one = two.drop_last();
    assert(one.drop_last() =~= Seq::<OutcomeView>::empty());
    assert(run_from(state, one.drop_last()) == state);
    assert(one.last() == init);
    assert(two.last() == stage);
    assert(all.last() == commit);
    assert(run_from(state, one) == step(state, init));
    assert(run_from(state, two) == step(step(state, init), stage));
}

/// Every failure of a run that ended in `Done` was one of a best-effort
/// stage: a run that is not ended by an error exits with status zero, and
/// the stage of each of its warnings is a best-effort stage.
pub proof fn lemma_warnings_come_from_best_effort(
    state: InitRunView,
    outcomes: Seq<OutcomeView>,
    k: int,
)
    requires
        state.well_formed(),
        forall|i: int|
            0 <= i < state.warnings.len() ==> policy_of(#[trigger] state.warnings[i].stage)
                == Policy::WarnOnFailure,
        0 <= k < run_from(state, outcomes).warnings.len(),
    ensures
        policy_of(run_from(state, outcomes).warnings[k].stage) == Policy::WarnOnFailure,
    decreases outcomes.len(),
{
    if outcomes.len() > 0 {
        let before = run_from(state, outcomes.drop_last());
        let after = step(before, outcomes.last());
        if k < before.warnings.len() {
            lemma_warnings_come_from_best_effort(state, outcomes.drop_last(), k);
            assert(after.warnings[k] == before.warnings[k]);
        }
    }
}

/// When every action succeeds, a run for a valid name passes all stages in
/// their order and ends in `Done` after eleven outcomes, with exit status
/// zero and without a warning.
pub proof fn lemma_all_success_reaches_done(name: Seq<char>, outcomes: Seq<OutcomeView>)
    requires
        valid_project_name(name),
        outcomes.len() == 11,
        forall|i: int| 0 <= i < outcomes.len() ==> succeeded(#[trigger] outcomes[i]),
    ensures
        forall|k: int|
            0 <= k <= 11 ==> stage_index(
                #[trigger] run_from(begin_state(name), outcomes.take(k)).stage,
            ) == k + 1,
        run_from(begin_state(name), outcomes).stage == Stage::Done,
        run_from(begin_state(name), outcomes).exit_status() == 0,
        run_from(begin_state(name), outcomes).warnings.len() == 0,
{
    let start = begin_state(name);
    assert forall|k: int| 0 <= k <= 11 implies stage_index(
        #[trigger] run_from(start, outcomes.take(k)).stage,
    ) == k + 1 by {
        lemma_success_prefix(name, outcomes, k);
    }
    lemma_success_prefix(name, outcomes, 11);
    assert(outcomes.take(11) =~= outcomes);
}

/// When every action succeeds, a run writes the file set of the project and
/// nothing else: the eleven source files at one stage, rendered with the
/// addresses that the two lookups printed, the manifest at the next, and no
/// file at any other stage. Their paths are the same for every project.
pub proof fn lemma_all_success_writes_the_file_set(name: Seq<char>, outcomes: Seq<OutcomeView>)
    requires
        valid_project_name(name),
        outcomes.len() == 11,
        forall|i: int| 0 <= i < outcomes.len() ==> succeeded(#[trigger] outcomes[i]),
    ensures
        forall|k: int|
            0 <= k <= 11 && k != 6 && k != 7 ==> files_of(
                #[trigger] run_from(begin_state(name), outcomes.take(k)),
            ).len() == 0,
        files_of(run_from(begin_state(name), outcomes.take(6))) == file_set(
            name,
            AddressPairView {
                program_address: address_in(output_text(outcomes[4])),
                user_address: address_in(output_text(outcomes[5])),
            },
        ),
        files_of(run_from(begin_state(name), outcomes.take(7))) == manifest_file_set(name),
        paths_of(files_of(run_from(begin_state(name), outcomes.take(6)))) + paths_of(
            files_of(run_from(begin_state(name), outcomes.take(7))),
        ) == seq![
            README_PATH@,
            GITIGNORE_PATH@,
            LIB_RS_PATH@,
            ENTRYPOINT_RS_PATH@,
            ERRORS_RS_PATH@,
            INSTRUCTIONS_MOD_RS_PATH@,
            INITIALIZE_RS_PATH@,
            STATES_MOD_RS_PATH@,
            UTILS_RS_PATH@,
            STATE_RS_PATH@,
            TESTS_RS_PATH@,
            MANIFEST_PATH@,
        ],
{
    let start = begin_state(name);
    assert forall|k: int| 0 <= k <= 11 && k != 6 && k != 7 implies files_of(
        #[trigger] run_from(start, outcomes.take(k)),
    ).len() == 0 by {
        lemma_success_prefix(name, outcomes, k);
    }
    lemma_success_prefix(name, outcomes, 6);
    lemma_success_prefix(name, outcomes, 7);
    let sources = files_of(run_from(start, outcomes.take(6)));
    let manifest = files_of(run_from(start, outcomes.take(7)));
    assert(paths_of(sources) + paths_of(manifest) =~= seq![
        README_PATH@,
        GITIGNORE_PATH@,
        LIB_RS_PATH@,
        ENTRYPOINT_RS_PATH@,
        ERRORS_RS_PATH@,
        INSTRUCTIONS_MOD_RS_PATH@,
        INITIALIZE_RS_PATH@,
        STATES_MOD_RS_PATH@,
        UTILS_RS_PATH@,
        STATE_RS_PATH@,
        TESTS_RS_PATH@,
        MANIFEST_PATH@,
    ]);
}

/// The steps of a stage make directories first and then write the files of
/// the stage, and nothing else.
pub proof fn lemma_steps_write_the_files_of_the_stage(state: InitRunView)
    ensures
        steps_of(state) matches Some(ops) ==> exists|paths: Seq<Seq<char>>|
            ops == #[trigger] directory_steps(state.name, paths) + write_files(
                state.name,
                files_of(state),
            ),
{
    match state.stage {
        Stage::CreateDeployDir => {
            let ops = steps_of(state)->0;
            let paths = seq![credential_path(state.name)];
            assert(write_files(state.name, files_of(state)) =~= Seq::<FsOpView>::empty());
            assert(ops =~= directory_steps(state.name, paths) + write_files(
                state.name,
                files_of(state),
            ));
        },
        Stage::CreateRootDir | Stage::RenderAndWriteFiles | Stage::RewriteManifest => {
            let ops = steps_of(state)->0;
            assert(ops == directory_steps(state.name, paths_of(files_of(state))) + write_files(
                state.name,
                files_of(state),
            ));
        },
        _ => {},
    }
}

proof fn lemma_success_prefix(name: Seq<char>, outcomes: Seq<OutcomeView>, k: int)
    requires
        valid_project_name(name),
        0 <= k <= outcomes.len(),
        k <= 11,
        forall|i: int| 0 <= i < outcomes.len() ==> succeeded(#[trigger] outcomes[i]),
    ensures
        stage_index(run_from(begin_state(name), outcomes.take(k)).stage) == k + 1,
        run_from(begin_state(name), outcomes.take(k)).name == name,
        run_from(begin_state(name), outcomes.take(k)).failure is None,
        run_from(begin_state(name), outcomes.take(k)).warnings.len() == 0,
        k > 4 ==> run_from(begin_state(name), outcomes.take(k)).addresses.program_address
            == address_in(output_text(outcomes[4])),
        k > 5 ==> run_from(begin_state(name), outcomes.take(k)).addresses.user_address
            == address_in(output_text(outcomes[5])),
    decreases k,
{
    let prefix = outcomes.take(k);
    if k > 0 {
        lemma_success_prefix(name, outcomes, k - 1);
        assert(prefix.drop_last() =~= outcomes.take(k - 1));
        assert(prefix.last() == outcomes[k - 1]);
    }
}

} // verus!
