//! What holds of every dispatch, whatever its processes do.
//!
//! The laws are stated over [`run`] and [`transcript`]: the state that a
//! dispatch reaches from a sequence of outcomes, and everything that is
//! written on the way.

use crate::checkout::{fallback_branch, CheckoutState};
use crate::command::{planned, CommandView, StageView};
use crate::dispatch::{
    conclusion, consistent, current, done, failure_of, fallback_notice, initial,
    lemma_advanced_consistent, lemma_initial_consistent, lemma_summary_counts_results, next_stage,
    run, step_emitted, stepped, transcript, DispatchView, Failure, ResultView,
};
use crate::process::{logged, OutcomeView};
use crate::registry::RepoView;
use crate::report::EmissionView;
use vstd::prelude::*;

verus! {

/// Every record of `state` is kept under the path of its repository.
pub open spec fn labelled(state: DispatchView) -> bool {
    forall|i: int|
        0 <= i < state.results.len() && i < state.repos.len() ==> (
        #[trigger] state.results[i]).log.label == state.repos[i].path
}

/// Whatever the outcomes are, a dispatch that starts from the beginning is
/// consistent after each of them: there is one result for each repository
/// that was dispatched, the results stand in the order of the repositories,
/// each is kept under the path of its repository, and the two counts add up
/// to the number of results. Once it is done they add up to the number of
/// repositories.
pub proof fn lemma_run_consistent(
    repos: Seq<RepoView>,
    command: CommandView,
    outcomes: Seq<OutcomeView>,
)
    ensures
        ({
            let end = run(initial(repos, command), outcomes);
            &&& consistent(end)
            &&& labelled(end)
            &&& end.repos == repos
            &&& end.command == command
            &&& end.succeeded + end.failed == end.results.len()
            &&& done(end) ==> end.succeeded + end.failed == repos.len()
        }),
    decreases outcomes.len(),
{
    if outcomes.len() == 0 {
        lemma_initial_consistent(repos, command);
    } else {
        lemma_run_consistent(repos, command, outcomes.drop_last());
        let before = run(initial(repos, command), outcomes.drop_last());
        lemma_advanced_consistent(before, logged(outcomes.last(), current(before).path));
    }
    lemma_summary_counts_results(run(initial(repos, command), outcomes));
}

/// Whether `command` needs one process for each repository, whatever comes of
/// it.
pub open spec fn single_process(command: CommandView) -> bool {
    !(command is Checkout) && !(command is GrepBranches)
}

/// An operation that needs a single process has one result for each outcome,
/// up to the number of repositories: the result at a position belongs to the
/// repository at that position and holds the record of the outcome at that
/// position.
pub proof fn lemma_single_process_results(
    repos: Seq<RepoView>,
    command: CommandView,
    outcomes: Seq<OutcomeView>,
)
    requires
        single_process(command),
    ensures
        ({
            let end = run(initial(repos, command), outcomes);
            &&& end.stage is Start
            &&& end.results.len() == if outcomes.len() <= repos.len() {
                outcomes.len()
            } else {
                repos.len()
            }
            &&& forall|i: int|
                0 <= i < end.results.len() ==> #[trigger] end.results[i] == (ResultView {
                    repository: repos[i],
                    log: logged(outcomes[i], repos[i].path),
                    checkout: None,
                })
        }),
    decreases outcomes.len(),
{
    if outcomes.len() > 0 {
        lemma_single_process_results(repos, command, outcomes.drop_last());
        lemma_run_consistent(repos, command, outcomes.drop_last());
    }
}

/// An upper bound on the number of processes that a dispatch still has to
/// run: two for each repository without a result, less one where the
/// repository in turn is past its first process.
pub open spec fn outstanding(state: DispatchView) -> nat {
    if done(state) {
        0
    } else if state.stage is Start {
        (2 * (state.repos.len() - state.results.len())) as nat
    } else {
        (2 * (state.repos.len() - state.results.len()) - 1) as nat
    }
}

/// No outcome halts a dispatch or sets it back: whatever is reported, fewer
/// processes are outstanding than before.
pub proof fn lemma_step_makes_progress(state: DispatchView, outcome: OutcomeView)
    requires
        consistent(state),
        !done(state),
    ensures
        outstanding(stepped(state, outcome)) < outstanding(state),
{
}

/// Every dispatch comes to its end: after two outcomes for each repository,
/// at the latest, it is done.
pub proof fn lemma_dispatch_completes(
    repos: Seq<RepoView>,
    command: CommandView,
    outcomes: Seq<OutcomeView>,
)
    ensures
        outstanding(run(initial(repos, command), outcomes)) + outcomes.len() <= 2 * repos.len()
            || done(run(initial(repos, command), outcomes)),
        outcomes.len() >= 2 * repos.len() ==> done(run(initial(repos, command), outcomes)),
    decreases outcomes.len(),
{
    if outcomes.len() > 0 {
        lemma_dispatch_completes(repos, command, outcomes.drop_last());
        lemma_run_consistent(repos, command, outcomes.drop_last());
        let before = run(initial(repos, command), outcomes.drop_last());
        if !done(before) {
            lemma_step_makes_progress(before, outcomes.last());
        }
    }
}

/// A dispatch never takes a result back: the results after more outcomes
/// begin with the results before them.
pub proof fn lemma_results_only_grow(
    state: DispatchView,
    outcomes: Seq<OutcomeView>,
    more: Seq<OutcomeView>,
)
    ensures
        run(state, outcomes).results.is_prefix_of(run(state, outcomes + more).results),
    decreases more.len(),
{
    if more.len() > 0 {
        lemma_results_only_grow(state, outcomes, more.drop_last());
        assert((outcomes + more).drop_last() =~= outcomes + more.drop_last());
    }
}

/// What is written for one finished repository, from the first character to
/// the last: the notice of the fallback where the fallback was tried, the
/// record of the last process, and the notice of the failure where it failed.
pub open spec fn block(command: CommandView, result: ResultView) -> Seq<EmissionView> {
    match command {
        CommandView::Checkout(branch) => if result.checkout == Some(CheckoutState::FallbackSuccess)
            || result.checkout == Some(CheckoutState::Failed) {
            seq![fallback_notice(result.repository, branch)] + conclusion(result)
        } else {
            conclusion(result)
        },
        _ => conclusion(result),
    }
}

/// The blocks of the given results, one after the other.
pub open spec fn blocks(command: CommandView, results: Seq<ResultView>) -> Seq<EmissionView>
    decreases results.len(),
{
    if results.len() == 0 {
        Seq::empty()
    } else {
        blocks(command, results.drop_last()) + block(command, results.last())
    }
}

/// What was already written for the repository in turn: the notice of the
/// fallback, where the fallback is due.
pub open spec fn begun(state: DispatchView) -> Seq<EmissionView> {
    match (state.command, state.stage) {
        (CommandView::Checkout(branch), StageView::Fallback) => if done(state) {
            Seq::empty()
        } else {
            seq![fallback_notice(current(state), branch)]
        },
        _ => Seq::empty(),
    }
}

/// One outcome adds to what is written either the rest of the block of the
/// repository in turn, or the beginning of that block, or nothing.
pub proof fn lemma_step_extends_blocks(state: DispatchView, outcome: OutcomeView)
    ensures
        blocks(state.command, stepped(state, outcome).results) + begun(stepped(state, outcome))
            == blocks(state.command, state.results) + begun(state) + step_emitted(state, outcome),
{
    let log = logged(outcome, current(state).path);
    if !done(state) && next_stage(state.command, state.stage, log) is None {
        assert(stepped(state, outcome).results.drop_last() =~= state.results);
    }
}

/// The output of a dispatch is never interleaved. Whatever the outcomes are,
/// what was written is the block of the first repository, then the block of
/// the second, and so on in the order of the repositories, followed only by
/// what was already written for the repository in turn.
pub proof fn lemma_transcript_in_order(
    repos: Seq<RepoView>,
    command: CommandView,
    outcomes: Seq<OutcomeView>,
)
    ensures
        transcript(initial(repos, command), outcomes) == blocks(
            command,
            run(initial(repos, command), outcomes).results,
        ) + begun(run(initial(repos, command), outcomes)),
    decreases outcomes.len(),
{
    if outcomes.len() > 0 {
        lemma_transcript_in_order(repos, command, outcomes.drop_last());
        lemma_run_consistent(repos, command, outcomes.drop_last());
        lemma_step_extends_blocks(
            run(initial(repos, command), outcomes.drop_last()),
            outcomes.last(),
        );
    }
}

/// Checkout with fallback, where the requested branch cannot be checked out.
/// The next process is the checkout of the fallback branch. If it succeeds,
/// the repository ends in `FallbackSuccess` and counts as succeeded, and what
/// is written for it after the notice is what is written for a checkout of
/// the fallback branch that was asked for as such. If it fails too, the
/// repository ends in `Failed`, counts as failed, and nothing more is tried.
pub proof fn lemma_checkout_falls_back(
    state: DispatchView,
    branch: Seq<char>,
    requested: OutcomeView,
    fallback: OutcomeView,
)
    requires
        !done(state),
        state.command == CommandView::Checkout(branch),
        state.stage is Start,
        !logged(requested, current(state).path).success,
    ensures
        ({
            let between = stepped(state, requested);
            let end = stepped(between, fallback);
            let result = end.results.last();
            let direct = DispatchView {
                command: CommandView::RawArgs(seq!["checkout"@, fallback_branch()]),
                ..state
            };
            let succeeded = logged(fallback, current(state).path).success;
            &&& between.results == state.results
            &&& between.stage is Fallback
            &&& step_emitted(state, requested) == seq![fallback_notice(current(state), branch)]
            &&& planned(between.command, between.stage, current(between)) == planned(
                direct.command,
                direct.stage,
                current(direct),
            )
            &&& end.results == state.results.push(result)
            &&& end.stage is Start
            &&& result.repository == current(state)
            &&& result.log == logged(fallback, current(state).path)
            &&& result.checkout == Some(
                if succeeded {
                    CheckoutState::FallbackSuccess
                } else {
                    CheckoutState::Failed
                },
            )
            &&& end.succeeded == state.succeeded + if succeeded {
                1nat
            } else {
                0nat
            }
            &&& end.failed == state.failed + if succeeded {
                0nat
            } else {
                1nat
            }
            &&& succeeded ==> step_emitted(between, fallback) == step_emitted(direct, fallback)
            &&& !succeeded ==> failure_of(result) == Some(Failure::CheckoutFallbackExhausted)
        }),
{
}

} // verus!
