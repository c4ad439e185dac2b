use abci_server::cancellation::{CancelSignal, CancellationToken, TokenDropGuard, CANCEL_PANIC_MSG};

trait Confined<Marker> {
    fn confined() -> bool {
        true
    }
}

impl<T: ?Sized> Confined<()> for T {}

impl<T: ?Sized + Send> Confined<u8> for T {}

impl<T: ?Sized + Sync> Confined<u16> for T {}

fn crosses_threads<T: Send + Sync + Clone>() -> bool {
    true
}

fn guarded_work(token: &CancellationToken, succeed: bool) -> bool {
    let guard = token.drop_guard();
    if !succeed {
        return false;
    }
    guard.disarm();
    true
}

#[test]
fn fresh_token_is_not_cancelled() {
    let mut token = CancellationToken::new();
    assert!(!token.is_cancelled());
    assert!(!token.is_cancelled());
}

#[test]
fn default_token_is_not_cancelled() {
    let mut token = CancellationToken::default();
    assert!(!token.is_cancelled());
}

#[test]
fn cancel_is_seen_by_the_token_that_cancelled() {
    let mut token = CancellationToken::new();
    token.cancel();
    assert!(token.is_cancelled());
}

#[test]
fn cancel_is_seen_by_a_clone() {
    let mut token = CancellationToken::new();
    let mut other = token.clone();
    other.cancel();
    assert!(token.is_cancelled());
    assert!(other.is_cancelled());
}

#[test]
fn cancel_is_seen_by_a_clone_made_afterwards() {
    let mut token = CancellationToken::new();
    token.cancel();
    let mut late = token.clone();
    assert!(late.is_cancelled());
}

#[test]
fn cancellation_never_reverts() {
    let mut token = CancellationToken::new();
    let mut other = token.clone();
    token.cancel();
    for _ in 0..1000 {
        assert!(token.is_cancelled());
        assert!(other.is_cancelled());
    }
}

#[test]
fn cancel_is_idempotent_across_many_tokens() {
    let mut first = CancellationToken::new();
    let mut tokens: Vec<CancellationToken> = Vec::new();
    for _ in 0..16 {
        tokens.push(first.clone());
    }
    for token in tokens.iter_mut() {
        assert!(!token.is_cancelled());
    }
    for token in tokens.iter_mut() {
        token.cancel();
        token.cancel();
    }
    for token in tokens.iter_mut() {
        assert!(token.is_cancelled());
    }
    assert!(first.is_cancelled());
}

#[test]
fn tokens_made_apart_have_flags_of_their_own() {
    let mut one = CancellationToken::new();
    let mut two = CancellationToken::new();
    one.cancel();
    assert!(one.is_cancelled());
    assert!(!two.is_cancelled());
}

#[test]
fn observe_folds_a_loaded_value_into_the_token() {
    let mut token = CancellationToken::new();
    assert!(!token.observe(false));
    assert!(token.observe(true));
    assert!(token.observe(false));
    assert!(token.is_cancelled());
}

#[test]
fn observe_does_not_set_the_flag() {
    let mut token = CancellationToken::new();
    let mut other = token.clone();
    assert!(token.observe(true));
    assert!(!other.is_cancelled());
}

#[test]
fn checkpoint_passes_until_cancelled() {
    let mut token = CancellationToken::new();
    assert_eq!(token.panic_if_cancelled(), Ok(()));
    let mut other = token.clone();
    other.cancel();
    assert_eq!(token.panic_if_cancelled(), Err(CancelSignal {}));
    assert_eq!(token.panic_if_cancelled(), Err(CancelSignal {}));
}

#[test]
fn signal_carries_the_marker() {
    assert_eq!(CANCEL_PANIC_MSG, "requested cancellation");
    let mut token = CancellationToken::new();
    token.cancel();
    match token.panic_if_cancelled() {
        Err(signal) => assert_eq!(signal.message(), "requested cancellation"),
        Ok(()) => panic!("the checkpoint let a cancelled token pass"),
    }
}

#[test]
fn cancel_and_panic_stops_everyone() {
    let mut token = CancellationToken::new();
    let mut other = token.clone();
    let signal = token.cancel_and_panic();
    assert_eq!(signal.message(), CANCEL_PANIC_MSG);
    assert!(token.is_cancelled());
    assert!(other.is_cancelled());
}

#[test]
fn armed_guard_cancels_when_dropped() {
    let mut token = CancellationToken::new();
    {
        let _guard = token.drop_guard();
        assert!(!token.is_cancelled());
    }
    assert!(token.is_cancelled());
}

#[test]
fn disarmed_guard_does_not_cancel() {
    let mut token = CancellationToken::new();
    {
        let guard = token.drop_guard();
        guard.disarm();
    }
    assert!(!token.is_cancelled());
}

#[test]
fn guard_made_from_a_token_shares_its_flag() {
    let mut token = CancellationToken::new();
    let guard = TokenDropGuard::new(token.clone());
    assert!(!token.is_cancelled());
    drop(guard);
    assert!(token.is_cancelled());
}

#[test]
fn guard_cancels_on_early_return() {
    let mut token = CancellationToken::new();
    assert!(!guarded_work(&token, false));
    assert!(token.is_cancelled());
}

#[test]
fn guard_stays_quiet_when_the_work_succeeds() {
    let mut token = CancellationToken::new();
    assert!(guarded_work(&token, true));
    assert!(!token.is_cancelled());
}

#[test]
fn one_of_two_guards_is_enough() {
    let mut token = CancellationToken::new();
    let kept = token.drop_guard();
    let lost = token.drop_guard();
    kept.disarm();
    assert!(!token.is_cancelled());
    drop(lost);
    assert!(token.is_cancelled());
}

#[test]
fn guard_stays_on_its_thread() {
    // Resolves only while the guard is neither `Send` nor `Sync`.
    assert!(<TokenDropGuard as Confined<_>>::confined());
}

#[test]
fn token_may_cross_threads() {
    assert!(crosses_threads::<CancellationToken>());
}

#[test]
fn checkpoint_with_follows_the_loaded_value() {
    let mut token = CancellationToken::new();
    assert_eq!(token.checkpoint_with(false), Ok(()));
    assert_eq!(token.checkpoint_with(false), Ok(()));
    assert_eq!(token.checkpoint_with(true), Err(CancelSignal {}));
    assert_eq!(token.checkpoint_with(false), Err(CancelSignal {}));
}

#[test]
fn checkpoint_passes_on_a_fresh_flag() {
    let mut token = CancellationToken::new();
    for _ in 0..100 {
        assert_eq!(token.panic_if_cancelled(), Ok(()));
    }
    assert!(!token.is_cancelled());
}

#[test]
fn disarmed_guard_can_be_kept_and_dropped_later() {
    let mut token = CancellationToken::new();
    let guard = token.drop_guard().disarmed();
    assert!(!token.is_cancelled());
    drop(guard);
    assert!(!token.is_cancelled());
}
