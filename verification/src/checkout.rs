//! Checking out a branch with a fallback: where the requested branch cannot
//! be checked out, a fixed fallback branch is tried once, and nothing after
//! that.

use vstd::prelude::*;
use vstd::string::*;

verus! {

/// Where the checkout of one repository stands.
#[derive(Clone, Copy, Debug, PartialEq, Eq, Structural)]
pub enum CheckoutState {
    /// The requested branch is being checked out.
    AttemptingRequested,
    /// The requested branch was checked out.
    Success,
    /// The requested branch could not be checked out; the fallback branch is
    /// being checked out.
    AttemptingFallback,
    /// The repository was left on the fallback branch.
    FallbackSuccess,
    /// Neither branch could be checked out.
    Failed,
}

/// The state that follows `state` once the checkout that it attempts has
/// ended, successfully or not. A state that attempts nothing stays.
pub open spec fn after(state: CheckoutState, exit_succeeded: bool) -> CheckoutState {
    match state {
        CheckoutState::AttemptingRequested => if exit_succeeded {
            CheckoutState::Success
        } else {
            CheckoutState::AttemptingFallback
        },
        CheckoutState::AttemptingFallback => if exit_succeeded {
            CheckoutState::FallbackSuccess
        } else {
            CheckoutState::Failed
        },
        _ => state,
    }
}

/// Whether `state` attempts nothing any more.
pub open spec fn settled(state: CheckoutState) -> bool {
    state is Success || state is FallbackSuccess || state is Failed
}

/// The branch that is tried where the requested one cannot be checked out.
pub const FALLBACK_BRANCH: &'static str = "master";

/// The name of the fallback branch.
pub open spec fn fallback_branch() -> Seq<char> {
    FALLBACK_BRANCH@
}

/// The branch that `state` attempts to check out, where `requested` is the
/// branch that was asked for.
pub open spec fn attempted_branch(state: CheckoutState, requested: Seq<char>) -> Option<Seq<char>> {
    match state {
        CheckoutState::AttemptingRequested => Some(requested),
        CheckoutState::AttemptingFallback => Some(fallback_branch()),
        _ => None,
    }
}

impl CheckoutState {
    /// The state in which every checkout starts.
    pub fn initial() -> (state: Self)
        ensures
            state == CheckoutState::AttemptingRequested,
    {
        CheckoutState::AttemptingRequested
    }

    /// The state after the attempted checkout has ended.
    pub fn advance(self, exit_succeeded: bool) -> (next: Self)
        ensures
            next == after(self, exit_succeeded),
    {
        match self {
            CheckoutState::AttemptingRequested => if exit_succeeded {
                CheckoutState::Success
            } else {
                CheckoutState::AttemptingFallback
            },
            CheckoutState::AttemptingFallback => if exit_succeeded {
                CheckoutState::FallbackSuccess
            } else {
                CheckoutState::Failed
            },
            _ => self,
        }
    }

    /// Whether nothing is attempted any more.
    pub fn is_settled(self) -> (done: bool)
        ensures
            done == settled(self),
    {
        match self {
            CheckoutState::Success | CheckoutState::FallbackSuccess | CheckoutState::Failed => true,
            _ => false,
        }
    }

    /// The branch to check out in this state, if any.
    pub fn branch(self, requested: &str) -> (branch: Option<String>)
        ensures
            match branch {
                Some(name) => attempted_branch(self, requested@) == Some(name@),
                None => attempted_branch(self, requested@) is None,
            },
    {
        match self {
            CheckoutState::AttemptingRequested => Some(String::from_str(requested)),
            CheckoutState::AttemptingFallback => Some(String::from_str(FALLBACK_BRANCH)),
            _ => None,
        }
    }
}

/// Two attempts settle every checkout. It ends in `Success` if and only if
/// the requested branch could be checked out, in `FallbackSuccess` if and only
/// if only the fallback could, and in `Failed` if and only if neither could.
pub proof fn lemma_two_attempts_settle(first: bool, second: bool)
    ensures
        settled(after(after(CheckoutState::AttemptingRequested, first), second)),
        after(after(CheckoutState::AttemptingRequested, first), second) is Success <==> first,
        after(after(CheckoutState::AttemptingRequested, first), second) is FallbackSuccess <==> !first
            && second,
        after(after(CheckoutState::AttemptingRequested, first), second) is Failed <==> !first
            && !second,
{
}

/// A settled state is never left, the fallback is attempted only right after
/// the requested branch has failed, and the requested branch is never tried a
/// second time.
pub proof fn lemma_no_further_fallback(state: CheckoutState, exit_succeeded: bool)
    ensures
        settled(state) ==> after(state, exit_succeeded) == state,
        after(state, exit_succeeded) is AttemptingFallback <==> state is AttemptingRequested
            && !exit_succeeded,
        !(after(state, exit_succeeded) is AttemptingRequested),
{
}

} // verus!
