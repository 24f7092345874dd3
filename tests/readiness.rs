use arch_testing::{next_probe_step, ProbeStep, ReadinessProber};

fn err(s: &str) -> Result<(), String> {
    Err(String::from(s))
}

#[test]
fn probe_step_decisions() {
    assert!(matches!(next_probe_step(Ok(()), 99, 10, None, 3), ProbeStep::Ready { attempts: 3 }));
    assert!(matches!(
        next_probe_step(err("refused"), 2, 10, Some(5), 1),
        ProbeStep::Retry { delay_ms: 5 }
    ));
    assert!(matches!(
        next_probe_step(err("refused"), 2, 10, Some(9), 1),
        ProbeStep::Retry { delay_ms: 8 }
    ));
    assert!(matches!(
        next_probe_step(err("refused"), 2, 10, None, 1),
        ProbeStep::Retry { delay_ms: 8 }
    ));
    match next_probe_step(err("refused"), 10, 10, Some(1), 4) {
        ProbeStep::TimedOut(t) => {
            assert_eq!(t.attempts, 4);
            assert_eq!(t.deadline_ms, 10);
            assert_eq!(t.last_error, "refused");
        }
        other => panic!("unexpected {:?}", other),
    }
}

#[test]
fn probe_ready_after_failures() {
    let mut p = ReadinessProber::new(60_000);
    for i in 0..3u64 {
        match p.record(err("not yet"), i * 100) {
            ProbeStep::Retry { delay_ms } => assert!(delay_ms <= 60_000 - i * 100),
            other => panic!("unexpected {:?}", other),
        }
    }
    assert!(matches!(p.record(Ok(()), 400), ProbeStep::Ready { attempts: 4 }));
    assert_eq!(p.attempts, 4);
}

#[test]
fn probe_never_ready_times_out() {
    let mut p = ReadinessProber::new(1_000);
    match p.record(err("connection refused"), 999) {
        ProbeStep::Retry { delay_ms } => assert!(delay_ms <= 1),
        other => panic!("unexpected {:?}", other),
    }
    match p.record(err("still refused"), 1_000) {
        ProbeStep::TimedOut(t) => {
            assert_eq!(t.attempts, 2);
            assert_eq!(t.deadline_ms, 1_000);
            assert_eq!(t.last_error, "still refused");
        }
        other => panic!("unexpected {:?}", other),
    }
}
