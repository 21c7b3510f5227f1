use ttai_lib::readiness::{PollStep, ReadinessPoll, MAX_ATTEMPTS, POLL_INTERVAL_MS};

/// Drives a wait with the given results, in order; says how it ended, how
/// many probes were made and how long was slept.
fn drive(results: &[bool]) -> (Option<bool>, u32, u64) {
    let mut poll = ReadinessPoll::new();
    let mut probes: u32 = 0;
    let mut slept: u64 = 0;
    for healthy in results {
        probes += 1;
        match poll.record(*healthy) {
            PollStep::Ready { attempts } => {
                assert_eq!(attempts, probes);
                return (Some(true), probes, slept);
            }
            PollStep::Retry { delay_ms, poll: next } => {
                slept += delay_ms;
                poll = next;
            }
            PollStep::GiveUp { delay_ms } => {
                slept += delay_ms;
                return (Some(false), probes, slept);
            }
        }
    }
    (None, probes, slept)
}

#[test]
fn budget_is_fifty_probes_a_tenth_of_a_second_apart() {
    assert_eq!(MAX_ATTEMPTS, 50);
    assert_eq!(POLL_INTERVAL_MS, 100);
}

#[test]
fn ready_at_first_probe() {
    assert_eq!(drive(&[true]), (Some(true), 1, 0));
}

#[test]
fn ready_after_ten_failures() {
    let mut results = vec![false; 10];
    results.push(true);
    assert_eq!(drive(&results), (Some(true), 11, 1000));
}

#[test]
fn ready_at_the_last_allowed_probe() {
    let mut results = vec![false; 49];
    results.push(true);
    assert_eq!(drive(&results), (Some(true), 50, 4900));
}

#[test]
fn not_ready_after_fifty_failures() {
    let results = vec![false; 50];
    assert_eq!(drive(&results), (Some(false), 50, 5000));
}

#[test]
fn later_health_does_not_rescue_an_exhausted_wait() {
    let mut results = vec![false; 50];
    results.push(true);
    assert_eq!(drive(&results), (Some(false), 50, 5000));
}

#[test]
fn undecided_while_probes_fail_within_budget() {
    let results = vec![false; 49];
    assert_eq!(drive(&results), (None, 49, 4900));
}

#[test]
fn record_counts_failures() {
    let poll = ReadinessPoll::new();
    assert_eq!(poll.failed_attempts(), 0);
    match poll.record(false) {
        PollStep::Retry { delay_ms, poll } => {
            assert_eq!(delay_ms, 100);
            assert_eq!(poll.failed_attempts(), 1);
        }
        other => panic!("unexpected: {:?}", other),
    }
}
