use gyros::checkout::CheckoutState;

#[test]
fn checkout_starts_with_the_requested_branch() {
    assert_eq!(CheckoutState::initial(), CheckoutState::AttemptingRequested);
    assert_eq!(
        CheckoutState::initial().branch("feature/x"),
        Some("feature/x".to_string())
    );
}

#[test]
fn checkout_succeeds_when_the_requested_branch_exists() {
    let state = CheckoutState::initial().advance(true);
    assert_eq!(state, CheckoutState::Success);
    assert!(state.is_settled());
    assert_eq!(state.branch("feature/x"), None);
}

#[test]
fn checkout_tries_master_when_the_requested_branch_fails() {
    let state = CheckoutState::initial().advance(false);
    assert_eq!(state, CheckoutState::AttemptingFallback);
    assert!(!state.is_settled());
    assert_eq!(state.branch("feature/x"), Some("master".to_string()));
}

#[test]
fn checkout_ends_on_the_fallback_branch() {
    let state = CheckoutState::initial().advance(false).advance(true);
    assert_eq!(state, CheckoutState::FallbackSuccess);
    assert!(state.is_settled());
}

#[test]
fn checkout_fails_when_the_fallback_fails_too() {
    let state = CheckoutState::initial().advance(false).advance(false);
    assert_eq!(state, CheckoutState::Failed);
    assert!(state.is_settled());
    assert_eq!(state.branch("feature/x"), None);
}

#[test]
fn settled_checkout_states_stay() {
    for state in [CheckoutState::Success, CheckoutState::FallbackSuccess, CheckoutState::Failed] {
        assert_eq!(state.advance(true), state);
        assert_eq!(state.advance(false), state);
    }
}
