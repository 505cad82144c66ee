use manga_epub::retry::{after_failed_attempt, MAX_RETRIES};

#[test]
fn retries_pause_longer_each_time_and_stop_after_three() {
    assert_eq!(MAX_RETRIES, 3);
    let first = after_failed_attempt(1);
    assert_eq!((first.delay_secs, first.retry), (1, true));
    let second = after_failed_attempt(2);
    assert_eq!((second.delay_secs, second.retry), (2, true));
    let last = after_failed_attempt(3);
    assert_eq!((last.delay_secs, last.retry), (3, false));
}
