//! The abundance trace: strict ordering in `logx` and the freeze-out span.

use kinetic_mixing::boltzmann::{AbundanceTrace, TraceSample, LOGX_END_MICRO, LOGX_START_MICRO};

#[test]
fn trace_accepts_strictly_increasing_samples() {
    let mut t = AbundanceTrace::new();
    assert_eq!(t.len(), 0);
    assert!(t.try_push(TraceSample { logx: 0, w: -20_123_456 }));
    assert!(t.try_push(TraceSample { logx: 450_000, w: -20_200_000 }));
    assert!(t.try_push(TraceSample { logx: 6_907_755, w: -41_000_000 }));
    assert_eq!(t.len(), 3);
    assert_eq!(t.sample(1), TraceSample { logx: 450_000, w: -20_200_000 });
    assert_eq!(t.first_sample(), TraceSample { logx: 0, w: -20_123_456 });
    assert_eq!(t.last_sample(), TraceSample { logx: 6_907_755, w: -41_000_000 });
}

#[test]
fn trace_refuses_a_sample_that_does_not_advance() {
    let mut t = AbundanceTrace::new();
    assert!(t.try_push(TraceSample { logx: 100, w: -1 }));
    // Equal logx is refused and leaves the trace unchanged.
    assert!(!t.try_push(TraceSample { logx: 100, w: -2 }));
    // A step backwards is refused too.
    assert!(!t.try_push(TraceSample { logx: 99, w: -2 }));
    assert_eq!(t.len(), 1);
    assert_eq!(t.sample(0), TraceSample { logx: 100, w: -1 });
}

#[test]
fn freeze_out_span_needs_both_endpoints() {
    let mut t = AbundanceTrace::new();
    assert!(!t.spans_freeze_out());
    assert!(t.try_push(TraceSample { logx: LOGX_START_MICRO, w: -20_000_000 }));
    assert!(!t.spans_freeze_out());
    assert!(t.try_push(TraceSample { logx: 3_000_000, w: -30_000_000 }));
    assert!(t.try_push(TraceSample { logx: LOGX_END_MICRO, w: -41_500_000 }));
    assert!(t.spans_freeze_out());
}

#[test]
fn trace_starting_late_does_not_span_freeze_out() {
    let mut t = AbundanceTrace::new();
    assert!(t.try_push(TraceSample { logx: 1, w: -20_000_000 }));
    assert!(t.try_push(TraceSample { logx: LOGX_END_MICRO, w: -41_500_000 }));
    assert!(!t.spans_freeze_out());
}
