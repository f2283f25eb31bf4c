use exbar::retry::{retry_window_outcome, RetryRound, RetryState, MAX_RETRIES};

fn sorted(mut v: Vec<isize>) -> Vec<isize> {
    v.sort();
    v
}

#[test]
fn pending_set_semantics() {
    let mut s = RetryState::new();
    s.add_pending(5);
    s.add_pending(7);
    s.add_pending(5);
    assert_eq!(sorted(s.pending_hwnds()), vec![5, 7]);
    s.remove_pending(5);
    assert!(!s.is_pending(5));
    assert!(s.is_pending(7));
    s.remove_pending(42);
    assert_eq!(s.pending_hwnds(), vec![7]);
}

#[test]
fn gives_up_after_max_rounds() {
    let mut s = RetryState::new();
    s.schedule(9);
    for _ in 0..MAX_RETRIES {
        match s.begin_round() {
            RetryRound::Attempt { hwnds } => assert_eq!(hwnds, vec![9]),
            other => panic!("unexpected {other:?}"),
        }
    }
    assert_eq!(s.begin_round(), RetryRound::GiveUp { hwnds: vec![9] });
    assert!(s.pending_hwnds().is_empty());
    s.schedule(3);
    assert_eq!(s.begin_round(), RetryRound::Attempt { hwnds: vec![3] });
}

#[test]
fn window_outcomes() {
    assert_eq!(retry_window_outcome(true, false), (true, true));
    assert_eq!(retry_window_outcome(false, true), (true, true));
    assert_eq!(retry_window_outcome(false, false), (false, false));
}
