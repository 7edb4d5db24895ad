//! The operations that can be dispatched, and the process that each of them
//! asks for.

use crate::checkout::{fallback_branch, CheckoutState, FALLBACK_BRANCH};
use crate::process::{
    copy_strings, git_invocation, run_git_command, strings_view, Invocation, InvocationView,
};
use crate::registry::{Repo, RepoView};
use vstd::prelude::*;
use vstd::string::*;

verus! {

/// What a dispatch runs in each repository.
#[derive(Debug, PartialEq, Eq)]
pub enum CommandSpec {
    /// An arbitrary git subcommand with its flags, passed through as given.
    RawArgs(Vec<String>),
    /// `git fetch`.
    FetchAll,
    /// `git pull`.
    PullAll,
    /// `git diff`.
    Diff,
    /// `git show`.
    Show,
    /// Checkout of the given branch, with the fallback branch as the second
    /// choice.
    Checkout(String),
    /// The branches of the repository, searched for the given pattern.
    GrepBranches(String),
}

/// The mathematical content of a [`CommandSpec`].
pub enum CommandView {
    RawArgs(Seq<Seq<char>>),
    FetchAll,
    PullAll,
    Diff,
    Show,
    Checkout(Seq<char>),
    GrepBranches(Seq<char>),
}

impl View for CommandSpec {
    type V = CommandView;

    open spec fn view(&self) -> CommandView {
        match *self {
            CommandSpec::RawArgs(args) => CommandView::RawArgs(strings_view(args@)),
            CommandSpec::FetchAll => CommandView::FetchAll,
            CommandSpec::PullAll => CommandView::PullAll,
            CommandSpec::Diff => CommandView::Diff,
            CommandSpec::Show => CommandView::Show,
            CommandSpec::Checkout(branch) => CommandView::Checkout(branch@),
            CommandSpec::GrepBranches(pattern) => CommandView::GrepBranches(pattern@),
        }
    }
}

/// How far the work on one repository has come. Most operations need a single
/// process and never leave `Start`.
#[derive(Debug, PartialEq, Eq)]
pub enum Stage {
    /// The first process of the repository is due.
    Start,
    /// The requested branch could not be checked out; the checkout of the
    /// fallback branch is due.
    Fallback,
    /// The branches were listed; the search in the listing is due.
    Search(String),
}

/// The mathematical content of a [`Stage`].
pub enum StageView {
    Start,
    Fallback,
    Search(Seq<char>),
}

impl View for Stage {
    type V = StageView;

    open spec fn view(&self) -> StageView {
        match *self {
            Stage::Start => StageView::Start,
            Stage::Fallback => StageView::Fallback,
            Stage::Search(listing) => StageView::Search(listing@),
        }
    }
}

/// The state of the checkout strategy that a stage stands for.
pub open spec fn checkout_state(stage: StageView) -> CheckoutState {
    match stage {
        StageView::Fallback => CheckoutState::AttemptingFallback,
        _ => CheckoutState::AttemptingRequested,
    }
}

/// The arguments that git is given for the first process of `command`.
pub open spec fn git_args(command: CommandView) -> Seq<Seq<char>> {
    match command {
        CommandView::RawArgs(args) => args,
        CommandView::FetchAll => seq!["fetch"@],
        CommandView::PullAll => seq!["pull"@],
        CommandView::Diff => seq!["diff"@],
        CommandView::Show => seq!["show"@],
        CommandView::Checkout(branch) => seq!["checkout"@, branch],
        CommandView::GrepBranches(_) => seq!["branch"@, "-a"@],
    }
}

/// The process that is due for `repo` when `command` has come to `stage`. The
/// stage matters to the two operations that may need a second process: the
/// fallback checks out the fallback branch, and the search hands the listing
/// to the text search program, with the pattern as its only argument.
pub open spec fn planned(command: CommandView, stage: StageView, repo: RepoView) -> InvocationView {
    match (command, stage) {
        (CommandView::Checkout(_), StageView::Fallback) => git_invocation(
            repo,
            seq!["checkout"@, fallback_branch()],
        ),
        (CommandView::GrepBranches(pattern), StageView::Search(listing)) => InvocationView {
            program: "grep"@,
            args: seq![pattern],
            working_dir: repo.path,
            input: Some(listing),
        },
        _ => git_invocation(repo, git_args(command)),
    }
}

impl Clone for CommandSpec {
    fn clone(&self) -> (copy: Self)
        ensures
            copy@ == self@,
    {
        match self {
            CommandSpec::RawArgs(args) => CommandSpec::RawArgs(copy_strings(args.as_slice())),
            CommandSpec::FetchAll => CommandSpec::FetchAll,
            CommandSpec::PullAll => CommandSpec::PullAll,
            CommandSpec::Diff => CommandSpec::Diff,
            CommandSpec::Show => CommandSpec::Show,
            CommandSpec::Checkout(branch) => CommandSpec::Checkout(branch.clone()),
            CommandSpec::GrepBranches(pattern) => CommandSpec::GrepBranches(pattern.clone()),
        }
    }
}

impl Clone for Stage {
    fn clone(&self) -> (copy: Self)
        ensures
            copy@ == self@,
    {
        match self {
            Stage::Start => Stage::Start,
            Stage::Fallback => Stage::Fallback,
            Stage::Search(listing) => Stage::Search(listing.clone()),
        }
    }
}

impl Stage {
    /// The state of the checkout strategy that this stage stands for.
    pub fn checkout_state(&self) -> (state: CheckoutState)
        ensures
            state == checkout_state(self@),
    {
        match self {
            Stage::Fallback => CheckoutState::AttemptingFallback,
            _ => CheckoutState::AttemptingRequested,
        }
    }
}

fn one(first: &str) -> (args: Vec<String>)
    ensures
        strings_view(args@) == seq![first@],
{
    let mut args: Vec<String> = Vec::new();
    args.push(String::from_str(first));
    args
}

fn two(first: &str, second: &str) -> (args: Vec<String>)
    ensures
        strings_view(args@) == seq![first@, second@],
{
    let mut args: Vec<String> = Vec::new();
    args.push(String::from_str(first));
    args.push(String::from_str(second));
    args
}

impl CommandSpec {
    /// The arguments that git is given for the first process of this
    /// operation.
    pub fn git_args(&self) -> (args: Vec<String>)
        ensures
            strings_view(args@) == git_args(self@),
    {
        match self {
            CommandSpec::RawArgs(given) => copy_strings(given.as_slice()),
            CommandSpec::FetchAll => one("fetch"),
            CommandSpec::PullAll => one("pull"),
            CommandSpec::Diff => one("diff"),
            CommandSpec::Show => one("show"),
            CommandSpec::Checkout(branch) => two("checkout", branch.as_str()),
            CommandSpec::GrepBranches(_) => two("branch", "-a"),
        }
    }

    /// The process that is due for `repo` at `stage`.
    pub fn plan(&self, stage: &Stage, repo: &Repo) -> (invocation: Invocation)
        ensures
            invocation@ == planned(self@, stage@, repo@),
    {
        match (self, stage) {
            (CommandSpec::Checkout(_), Stage::Fallback) => {
                let args = two("checkout", FALLBACK_BRANCH);
                run_git_command(repo, args.as_slice())
            },
            (CommandSpec::GrepBranches(pattern), Stage::Search(listing)) => Invocation {
                program: String::from_str("grep"),
                args: one(pattern.as_str()),
                working_dir: repo.path.clone(),
                input: Some(listing.clone()),
            },
            _ => {
                let args = self.git_args();
                run_git_command(repo, args.as_slice())
            },
        }
    }
}

} // verus!
