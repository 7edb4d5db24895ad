//! The dispatcher: one sequential pass over the selected repositories.
//!
//! The dispatcher decides and the caller acts. [`Dispatcher::next`] names the
//! process that is due; the caller runs it to its end and hands what came of
//! it to [`Dispatcher::step`], which records it and returns what is to be
//! written before the next process is started. A repository that fails never
//! stops the pass.

use crate::checkout::{after, fallback_branch, CheckoutState, FALLBACK_BRANCH};
use crate::command::{checkout_state, planned, CommandSpec, CommandView, Stage, StageView};
use crate::process::{
    displayed, logged, logged_run, outcomes_view, Invocation, Log, LogView, OutcomeView,
    ProcessOutcome,
};
use crate::registry::{repos_view, Repo, RepoView};
use crate::report::{emissions_view, Channel, Emission, EmissionView, RunSummary, Style};
use vstd::prelude::*;
use vstd::string::*;

verus! {

/// Why a repository counts as failed.
#[derive(Clone, Copy, Debug, PartialEq, Eq, Structural)]
pub enum Failure {
    /// The process could not be started.
    SpawnError,
    /// The process ran and left with an exit status other than zero.
    NonZeroExit,
    /// Neither the requested branch nor the fallback branch could be checked
    /// out.
    CheckoutFallbackExhausted,
}

/// What came of one repository: the record of the last process that was run
/// for it and, for a checkout, the state in which the checkout ended.
#[derive(Debug, PartialEq, Eq)]
pub struct ExecutionResult {
    pub repository: Repo,
    pub log: Log,
    pub checkout: Option<CheckoutState>,
}

/// The mathematical content of an [`ExecutionResult`].
pub struct ResultView {
    pub repository: RepoView,
    pub log: LogView,
    pub checkout: Option<CheckoutState>,
}

impl View for ExecutionResult {
    type V = ResultView;

    open spec fn view(&self) -> ResultView {
        ResultView { repository: self.repository@, log: self.log@, checkout: self.checkout }
    }
}

/// The content of each result of a vector, in order.
pub open spec fn results_view(results: Seq<ExecutionResult>) -> Seq<ResultView> {
    Seq::new(results.len(), |i: int| results[i]@)
}

/// Why `result` counts as failed, if it does. A repository succeeded if and
/// only if its last process left with exit status zero.
pub open spec fn failure_of(result: ResultView) -> Option<Failure> {
    if result.log.success {
        None
    } else if result.checkout == Some(CheckoutState::Failed) {
        Some(Failure::CheckoutFallbackExhausted)
    } else if result.log.spawn_error is Some {
        Some(Failure::SpawnError)
    } else {
        Some(Failure::NonZeroExit)
    }
}

impl ExecutionResult {
    /// Whether the repository succeeded.
    pub fn exit_succeeded(&self) -> (succeeded: bool)
        ensures
            succeeded == self@.log.success,
            succeeded == (failure_of(self@) is None),
    {
        self.log.success
    }

    /// Why the repository counts as failed, if it does.
    pub fn failure(&self) -> (failure: Option<Failure>)
        ensures
            failure == failure_of(self@),
    {
        if self.log.success {
            None
        } else {
            match self.checkout {
                Some(CheckoutState::Failed) => Some(Failure::CheckoutFallbackExhausted),
                _ => if self.log.spawn_error.is_some() {
                    Some(Failure::SpawnError)
                } else {
                    Some(Failure::NonZeroExit)
                },
            }
        }
    }
}

/// The number of results that succeeded.
pub open spec fn successes(results: Seq<ResultView>) -> nat {
    results.filter(|result: ResultView| result.log.success).len()
}

/// The number of results that failed.
pub open spec fn failures(results: Seq<ResultView>) -> nat {
    results.filter(|result: ResultView| !result.log.success).len()
}

/// The state of a dispatch: the repositories to visit, the operation, how far
/// the work on the repository in turn has come, and the results and counts so
/// far. The repository in turn is the first one without a result.
pub struct DispatchView {
    pub repos: Seq<RepoView>,
    pub command: CommandView,
    pub stage: StageView,
    pub results: Seq<ResultView>,
    pub succeeded: nat,
    pub failed: nat,
}

/// The state before anything was run.
pub open spec fn initial(repos: Seq<RepoView>, command: CommandView) -> DispatchView {
    DispatchView {
        repos,
        command,
        stage: StageView::Start,
        results: Seq::empty(),
        succeeded: 0,
        failed: 0,
    }
}

/// Whether every repository has its result.
pub open spec fn done(state: DispatchView) -> bool {
    state.results.len() >= state.repos.len()
}

/// The repository in turn; meaningful only while the dispatch is not done.
pub open spec fn current(state: DispatchView) -> RepoView {
    state.repos[state.results.len() as int]
}

/// The stage at which the work on a repository goes on after a process has
/// ended with `log`, or `None` where the repository is finished. A checkout
/// goes on to the fallback when the requested branch has failed, and a search
/// for branches goes on to the search when the branches could be listed.
pub open spec fn next_stage(command: CommandView, stage: StageView, log: LogView) -> Option<
    StageView,
> {
    match command {
        CommandView::Checkout(_) => if after(checkout_state(stage), log.success)
            is AttemptingFallback {
            Some(StageView::Fallback)
        } else {
            None
        },
        CommandView::GrepBranches(_) => match stage {
            StageView::Search(_) => None,
            _ => if log.success {
                Some(StageView::Search(log.stdout))
            } else {
                None
            },
        },
        _ => None,
    }
}

/// The result of a repository whose last process ended with `log`.
pub open spec fn concluded(
    repo: RepoView,
    command: CommandView,
    stage: StageView,
    log: LogView,
) -> ResultView {
    ResultView {
        repository: repo,
        log,
        checkout: match command {
            CommandView::Checkout(_) => Some(after(checkout_state(stage), log.success)),
            _ => None,
        },
    }
}

/// The state after the process that was due has ended with `log`. Either the
/// repository in turn goes on to its next stage, or its result is recorded
/// and counted and the next repository is in turn. A dispatch that is done
/// stays as it is.
pub open spec fn advanced(state: DispatchView, log: LogView) -> DispatchView {
    if done(state) {
        state
    } else {
        match next_stage(state.command, state.stage, log) {
            Some(stage) => DispatchView { stage, ..state },
            None => DispatchView {
                stage: StageView::Start,
                results: state.results.push(
                    concluded(current(state), state.command, state.stage, log),
                ),
                succeeded: if log.success {
                    state.succeeded + 1
                } else {
                    state.succeeded
                },
                failed: if log.success {
                    state.failed
                } else {
                    state.failed + 1
                },
                ..state
            },
        }
    }
}

/// The notice that the requested branch could not be checked out in `repo`
/// and that the fallback branch is tried.
pub open spec fn fallback_notice(repo: RepoView, branch: Seq<char>) -> EmissionView {
    EmissionView {
        channel: Channel::Stderr,
        style: Style::Failure,
        text: "Failed to checkout '"@ + branch + "' in: '"@ + repo.path + "', trying '"@
            + fallback_branch() + "'"@,
    }
}

/// The text that reports a failed repository.
pub open spec fn failure_text(result: ResultView) -> Seq<char> {
    match failure_of(result) {
        Some(Failure::CheckoutFallbackExhausted) => "failed to checkout branch and fallback in: '"@
            + result.repository.path + "'"@,
        Some(Failure::SpawnError) => "Run failed in: '"@ + result.repository.path + "': "@
            + result.log.spawn_error->0,
        _ => "Command failed in: '"@ + result.repository.path + "'"@,
    }
}

/// The notice that reports a failed repository.
pub open spec fn failure_notice(result: ResultView) -> EmissionView {
    EmissionView { channel: Channel::Stderr, style: Style::Failure, text: failure_text(result) }
}

/// What is written once a repository has its result: the record of its last
/// process and, where it failed, the notice that says so.
pub open spec fn conclusion(result: ResultView) -> Seq<EmissionView> {
    if result.log.success {
        displayed(result.log)
    } else {
        displayed(result.log).push(failure_notice(result))
    }
}

/// What is written when the process that was due has ended with `log`. While
/// a repository goes on to its next stage only the notice of a fallback is
/// written; what the process wrote is relayed once the repository is finished.
pub open spec fn emitted(state: DispatchView, log: LogView) -> Seq<EmissionView> {
    if done(state) {
        Seq::empty()
    } else {
        match next_stage(state.command, state.stage, log) {
            Some(_) => match state.command {
                CommandView::Checkout(branch) => seq![fallback_notice(current(state), branch)],
                _ => Seq::empty(),
            },
            None => conclusion(concluded(current(state), state.command, state.stage, log)),
        }
    }
}

/// The state after `outcome` was reported for the process that was due: it is
/// recorded under the path of the repository in turn.
pub open spec fn stepped(state: DispatchView, outcome: OutcomeView) -> DispatchView {
    advanced(state, logged(outcome, current(state).path))
}

/// What is written when `outcome` was reported for the process that was due.
pub open spec fn step_emitted(state: DispatchView, outcome: OutcomeView) -> Seq<EmissionView> {
    emitted(state, logged(outcome, current(state).path))
}

/// Whether the work on a repository can come to `stage` under `command`: only
/// a checkout comes to the fallback, and only a search for branches comes to
/// the search.
pub open spec fn stage_fits(command: CommandView, stage: StageView) -> bool {
    match stage {
        StageView::Start => true,
        StageView::Fallback => command is Checkout,
        StageView::Search(_) => command is GrepBranches,
    }
}

/// What holds of every state that a dispatch reaches: each result belongs to
/// the repository at its position, no repository has more than one, the two
/// counts are the numbers of results that succeeded and that failed, and the
/// stage is one that the operation can come to.
pub open spec fn consistent(state: DispatchView) -> bool {
    &&& stage_fits(state.command, state.stage)
    &&& state.results.len() <= state.repos.len()
    &&& forall|i: int|
        0 <= i < state.results.len() ==> (#[trigger] state.results[i]).repository == state.repos[i]
    &&& state.succeeded == successes(state.results)
    &&& state.failed == failures(state.results)
}

/// Every result either succeeded or failed.
pub proof fn lemma_counts_add_up(results: Seq<ResultView>)
    ensures
        successes(results) + failures(results) == results.len(),
    decreases results.len(),
{
    reveal(Seq::filter);
    if results.len() > 0 {
        lemma_counts_add_up(results.drop_last());
    }
}

/// The state before anything was run is consistent.
pub proof fn lemma_initial_consistent(repos: Seq<RepoView>, command: CommandView)
    ensures
        consistent(initial(repos, command)),
{
    reveal(Seq::filter);
}

/// A consistent state stays consistent whatever the process that was due
/// ended with.
pub proof fn lemma_advanced_consistent(state: DispatchView, log: LogView)
    requires
        consistent(state),
    ensures
        consistent(advanced(state, log)),
{
    if !done(state) && next_stage(state.command, state.stage, log) is None {
        let result = concluded(current(state), state.command, state.stage, log);
        state.results.lemma_filter_push(result, |result: ResultView| result.log.success);
        state.results.lemma_filter_push(result, |result: ResultView| !result.log.success);
    }
}

/// In a consistent state the two counts add up to the number of repositories
/// that were dispatched, whatever came of them.
pub proof fn lemma_summary_counts_results(state: DispatchView)
    requires
        consistent(state),
    ensures
        state.succeeded + state.failed == state.results.len(),
        state.succeeded + state.failed <= state.repos.len(),
        done(state) ==> state.succeeded + state.failed == state.repos.len(),
{
    lemma_counts_add_up(state.results);
}

/// The state after the outcomes of a sequence were reported one after the
/// other, starting from `state`.
pub open spec fn run(state: DispatchView, outcomes: Seq<OutcomeView>) -> DispatchView
    decreases outcomes.len(),
{
    if outcomes.len() == 0 {
        state
    } else {
        stepped(run(state, outcomes.drop_last()), outcomes.last())
    }
}

/// Everything that is written while the outcomes of a sequence are reported
/// one after the other, starting from `state`.
pub open spec fn transcript(state: DispatchView, outcomes: Seq<OutcomeView>) -> Seq<EmissionView>
    decreases outcomes.len(),
{
    if outcomes.len() == 0 {
        Seq::empty()
    } else {
        transcript(state, outcomes.drop_last()) + step_emitted(
            run(state, outcomes.drop_last()),
            outcomes.last(),
        )
    }
}

fn stage_after(command: &CommandSpec, stage: &Stage, log: &Log) -> (next: Option<Stage>)
    ensures
        match next {
            Some(stage_then) => next_stage(command@, stage@, log@) == Some(stage_then@),
            None => next_stage(command@, stage@, log@) is None,
        },
{
    match command {
        CommandSpec::Checkout(_) => {
            if stage.checkout_state().advance(log.success) == CheckoutState::AttemptingFallback {
                Some(Stage::Fallback)
            } else {
                None
            }
        },
        CommandSpec::GrepBranches(_) => match stage {
            Stage::Search(_) => None,
            _ => if log.success {
                Some(Stage::Search(log.stdout.clone()))
            } else {
                None
            },
        },
        _ => None,
    }
}

fn fallback_notice_for(repo: &Repo, branch: &str) -> (notice: Emission)
    ensures
        notice@ == fallback_notice(repo@, branch@),
{
    let mut text = String::from_str("Failed to checkout '");
    text.append(branch);
    text.append("' in: '");
    text.append(repo.path.as_str());
    text.append("', trying '");
    text.append(FALLBACK_BRANCH);
    text.append("'");
    Emission { channel: Channel::Stderr, style: Style::Failure, text }
}

fn failure_notice_for(result: &ExecutionResult) -> (notice: Emission)
    requires
        !result@.log.success,
    ensures
        notice@ == failure_notice(result@),
{
    let text = match result.failure() {
        Some(Failure::CheckoutFallbackExhausted) => {
            let mut text = String::from_str("failed to checkout branch and fallback in: '");
            text.append(result.repository.path.as_str());
            text.append("'");
            text
        },
        Some(Failure::SpawnError) => {
            let mut text = String::from_str("Run failed in: '");
            text.append(result.repository.path.as_str());
            text.append("': ");
            match &result.log.spawn_error {
                Some(message) => text.append(message.as_str()),
                None => {},
            }
            text
        },
        _ => {
            let mut text = String::from_str("Command failed in: '");
            text.append(result.repository.path.as_str());
            text.append("'");
            text
        },
    };
    Emission { channel: Channel::Stderr, style: Style::Failure, text }
}

fn conclude(repo: &Repo, command: &CommandSpec, stage: &Stage, log: Log) -> (end: (
    ExecutionResult,
    Vec<Emission>,
))
    ensures
        end.0@ == concluded(repo@, command@, stage@, log@),
        emissions_view(end.1@) == conclusion(end.0@),
{
    let checkout = match command {
        CommandSpec::Checkout(_) => Some(stage.checkout_state().advance(log.success)),
        _ => None,
    };
    let mut emissions = log.display();
    let result = ExecutionResult { repository: repo.clone(), log, checkout };
    if !result.log.success {
        emissions.push(failure_notice_for(&result));
    }
    (result, emissions)
}

/// A dispatch in progress. Its content is a [`DispatchView`], and every value
/// of this type is consistent in the sense of [`consistent`].
#[derive(Debug)]
pub struct Dispatcher {
    repos: Vec<Repo>,
    command: CommandSpec,
    stage: Stage,
    results: Vec<ExecutionResult>,
    summary: RunSummary,
}

impl View for Dispatcher {
    type V = DispatchView;

    closed spec fn view(&self) -> DispatchView {
        DispatchView {
            repos: repos_view(self.repos@),
            command: self.command@,
            stage: self.stage@,
            results: results_view(self.results@),
            succeeded: self.summary.succeeded as nat,
            failed: self.summary.failed as nat,
        }
    }
}

impl Dispatcher {
    #[verifier::type_invariant]
    spec fn well_formed(&self) -> bool {
        consistent(self@)
    }

    /// The dispatch of `command` over `repos`, before anything was run.
    pub fn new(repos: Vec<Repo>, command: CommandSpec) -> (dispatcher: Self)
        ensures
            dispatcher@ == initial(repos_view(repos@), command@),
            consistent(dispatcher@),
    {
        proof {
            lemma_initial_consistent(repos_view(repos@), command@);
        }
        let dispatcher = Dispatcher {
            repos,
            command,
            stage: Stage::Start,
            results: Vec::new(),
            summary: RunSummary { succeeded: 0, failed: 0 },
        };
        assert(dispatcher@.results =~= Seq::empty());
        dispatcher
    }

    /// Whether every repository has its result.
    pub fn is_done(&self) -> (finished: bool)
        ensures
            finished == done(self@),
    {
        self.results.len() >= self.repos.len()
    }

    /// The process that is due, or `None` once the dispatch is done. It
    /// belongs to the first repository without a result.
    pub fn next(&self) -> (due: Option<Invocation>)
        ensures
            due is None <==> done(self@),
            due matches Some(invocation) ==> invocation@ == planned(
                self@.command,
                self@.stage,
                current(self@),
            ),
    {
        if self.results.len() >= self.repos.len() {
            None
        } else {
            Some(self.command.plan(&self.stage, &self.repos[self.results.len()]))
        }
    }

    /// Records that the process that was due has ended with `log`, and
    /// returns the state that follows with what is to be written now.
    pub fn advance(self, log: Log) -> (next: (Dispatcher, Vec<Emission>))
        ensures
            next.0@ == advanced(self@, log@),
            emissions_view(next.1@) == emitted(self@, log@),
            consistent(next.0@),
    {
        proof {
            use_type_invariant(&self);
            lemma_advanced_consistent(self@, log@);
            lemma_counts_add_up(self@.results);
        }
        if self.results.len() >= self.repos.len() {
            return (self, Vec::new());
        }
        let Dispatcher { repos, command, stage, mut results, mut summary } = self;
        match stage_after(&command, &stage, &log) {
            Some(stage_then) => {
                let mut emissions: Vec<Emission> = Vec::new();
                match &command {
                    CommandSpec::Checkout(branch) => {
                        emissions.push(fallback_notice_for(&repos[results.len()], branch.as_str()));
                    },
                    _ => {},
                }
                (Dispatcher { repos, command, stage: stage_then, results, summary }, emissions)
            },
            None => {
                let succeeded = log.success;
                let (result, emissions) = conclude(&repos[results.len()], &command, &stage, log);
                let ghost recorded = results_view(results@);
                results.push(result);
                assert(results_view(results@) =~= recorded.push(result@));
                if succeeded {
                    summary.succeeded = summary.succeeded + 1;
                } else {
                    summary.failed = summary.failed + 1;
                }
                (Dispatcher { repos, command, stage: Stage::Start, results, summary }, emissions)
            },
        }
    }

    /// Records what came of the process that was due, under the path of the
    /// repository in turn, and returns the state that follows with what is to
    /// be written now. A dispatch that is done stays as it is.
    pub fn step(self, outcome: ProcessOutcome) -> (next: (Dispatcher, Vec<Emission>))
        ensures
            next.0@ == stepped(self@, outcome@),
            emissions_view(next.1@) == step_emitted(self@, outcome@),
            consistent(next.0@),
    {
        proof {
            use_type_invariant(&self);
        }
        if self.results.len() >= self.repos.len() {
            return (self, Vec::new());
        }
        let log = logged_run(outcome, self.repos[self.results.len()].path.as_str());
        self.advance(log)
    }

    /// Replays a dispatch of `command` over `repos` from the outcomes that
    /// its processes had, in the order in which they ended. Returns the state
    /// that was reached and everything that was written on the way.
    pub fn replay(repos: Vec<Repo>, command: CommandSpec, outcomes: Vec<ProcessOutcome>) -> (end: (
        Dispatcher,
        Vec<Emission>,
    ))
        ensures
            end.0@ == run(initial(repos_view(repos@), command@), outcomes_view(outcomes@)),
            emissions_view(end.1@) == transcript(
                initial(repos_view(repos@), command@),
                outcomes_view(outcomes@),
            ),
            consistent(end.0@),
    {
        let ghost start = initial(repos_view(repos@), command@);
        let ghost all = outcomes_view(outcomes@);
        let mut dispatcher = Dispatcher::new(repos, command);
        let mut written: Vec<Emission> = Vec::new();
        for outcome in it: outcomes
            invariant
                it.seq() == outcomes@,
                all == outcomes_view(outcomes@),
                dispatcher@ == run(start, all.take(it.index() as int)),
                emissions_view(written@) == transcript(start, all.take(it.index() as int)),
        {
            let ghost k = it.index() as int;
            assert(all.take(k + 1).drop_last() =~= all.take(k));
            let (next, mut emissions) = dispatcher.step(outcome);
            written.append(&mut emissions);
            dispatcher = next;
        }
        assert(all.take(all.len() as int) =~= all);
        proof {
            use_type_invariant(&dispatcher);
        }
        (dispatcher, written)
    }

    /// The repositories of this dispatch, in the order in which they are
    /// visited.
    pub fn repos(&self) -> (repos: &Vec<Repo>)
        ensures
            repos_view(repos@) == self@.repos,
    {
        &self.repos
    }

    /// The results so far, one for each repository that is finished, in the
    /// order of the repositories.
    pub fn results(&self) -> (results: &Vec<ExecutionResult>)
        ensures
            results_view(results@) == self@.results,
            results@.len() <= self@.repos.len(),
            forall|i: int|
                0 <= i < results@.len() ==> (#[trigger] results@[i])@.repository
                    == self@.repos[i],
    {
        proof {
            use_type_invariant(self);
            assert forall|i: int| 0 <= i < self.results@.len() implies (
            #[trigger] self.results@[i])@.repository == self@.repos[i] by {
                assert(self@.results[i] == self.results@[i]@);
            }
        }
        &self.results
    }

    /// Ends the dispatch and hands out its results.
    pub fn into_results(self) -> (results: Vec<ExecutionResult>)
        ensures
            results_view(results@) == self@.results,
    {
        self.results
    }

    /// The counts so far. They add up to the number of results.
    pub fn summary(&self) -> (summary: RunSummary)
        ensures
            summary.succeeded == self@.succeeded,
            summary.failed == self@.failed,
            summary.succeeded == successes(self@.results),
            summary.failed == failures(self@.results),
            summary.succeeded + summary.failed == self@.results.len(),
    {
        proof {
            use_type_invariant(self);
            lemma_summary_counts_results(self@);
        }
        self.summary
    }
}

} // verus!
