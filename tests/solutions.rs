use bosminer_hal::{
    check_midstates, check_solution_indices, classify, validate_report, BackendSolution,
    ReportError, Solution, SolutionCounts, Span, Target, Uint256, Verdict,
};

fn num(w0: u64, w1: u64, w2: u64, w3: u64) -> Uint256 {
    Uint256 { w0, w1, w2, w3 }
}

fn small(x: u64) -> Uint256 {
    num(x, 0, 0, 0)
}

fn target(bound: Uint256) -> Target {
    Target { bound }
}

fn sol(midstate_idx: usize, solution_idx: usize) -> Solution {
    Solution { nonce: 7, midstate_idx, solution_idx, target: target(small(1000)) }
}

#[test]
fn accessors_return_fields() {
    let s = Solution { nonce: 0x1234ABCD, midstate_idx: 2, solution_idx: 0, target: target(small(9)) };
    assert_eq!(s.nonce(), 0x1234ABCD);
    assert_eq!(BackendSolution::midstate_idx(&s), 2);
    assert_eq!(BackendSolution::solution_idx(&s), 0);
    assert_eq!(*BackendSolution::target(&s), target(small(9)));
}

#[test]
fn uint256_order_follows_highest_limb() {
    assert!(num(u64::MAX, u64::MAX, u64::MAX, 0).lt(&num(0, 0, 0, 1)));
    assert!(!num(0, 0, 0, 1).lt(&num(u64::MAX, u64::MAX, u64::MAX, 0)));
    assert!(num(5, 0, 1, 0).lt(&num(0, 1, 1, 0)));
    assert!(small(3).lt(&small(4)));
    assert!(!small(4).lt(&small(4)));
}

#[test]
fn target_is_met_only_strictly_below() {
    let t = target(num(0, 0, 0, 0x0000_0000_ffff_0000));
    assert!(t.is_met_by(&num(u64::MAX, 0, 0, 0x0000_0000_fffe_ffff)));
    assert!(!t.is_met_by(&num(0, 0, 0, 0x0000_0000_ffff_0000)));
    assert!(!t.is_met_by(&num(1, 0, 0, 0x0000_0000_ffff_0000)));
}

#[test]
fn span_constructors() {
    let s = Span::from_millis(1500);
    assert_eq!(s.as_secs(), 1);
    assert_eq!(s.subsec_nanos(), 500_000_000);
    assert_eq!(Span::from_secs(5), Span { secs: 5, nanos: 0 });
    assert!(Span::zero().is_zero());
    assert!(!Span::from_millis(1).is_zero());
    let big = Span::from_millis(u64::MAX);
    assert_eq!(big.as_secs(), u64::MAX / 1000);
    assert_eq!(big.subsec_nanos(), 615_000_000);
}

#[test]
fn report_with_distinct_indices_is_accepted() {
    let report = vec![sol(0, 0), sol(0, 1), sol(1, 0), sol(3, 0)];
    assert!(check_midstates(&report, 4));
    assert!(check_solution_indices(&report));
    assert_eq!(validate_report(&report, 4), Ok(()));
}

#[test]
fn empty_report_is_accepted() {
    let report: Vec<Solution> = vec![];
    assert_eq!(validate_report(&report, 1), Ok(()));
}

#[test]
fn shared_midstate_and_solution_index_is_refused() {
    let report = vec![sol(1, 0), sol(0, 0), sol(1, 0)];
    assert!(!check_solution_indices(&report));
    assert_eq!(validate_report(&report, 4), Err(ReportError::DuplicateSolutionIdx));
}

#[test]
fn midstate_out_of_range_is_refused() {
    let report = vec![sol(0, 0), sol(4, 0)];
    assert!(!check_midstates(&report, 4));
    assert_eq!(validate_report(&report, 4), Err(ReportError::MidstateOutOfRange));
    let dup_and_out = vec![sol(5, 0), sol(5, 0)];
    assert_eq!(validate_report(&dup_and_out, 4), Err(ReportError::MidstateOutOfRange));
}

#[test]
fn nonce_failing_its_own_target_counts_as_hardware_error() {
    let s = Solution {
        nonce: 0x1234ABCD,
        midstate_idx: 2,
        solution_idx: 0,
        target: target(num(0, 0, 0, 0x0000_0000_ffff_0000)),
    };
    let hash = num(0, 0, 0, 0x0000_0001_0000_0000);
    let job_target = target(num(0, 0, 0, u64::MAX));
    assert_eq!(classify(&s, 4, &hash, &job_target), Verdict::HardwareError);
    let mut counts = SolutionCounts::new();
    assert_eq!(counts.account(&s, 4, &hash, &job_target), Verdict::HardwareError);
    assert_eq!(counts.hardware_errors, 1);
    assert_eq!(counts.invalid_midstates, 0);
    assert_eq!(counts.shares, 0);
    assert_eq!(counts.low_difficulty, 0);
}

#[test]
fn hash_equal_to_own_target_is_hardware_error() {
    let s = sol(0, 0);
    assert_eq!(classify(&s, 1, &small(1000), &target(small(5000))), Verdict::HardwareError);
}

#[test]
fn verdicts_for_each_case() {
    let s = sol(2, 0);
    let job = target(small(100));
    assert_eq!(classify(&s, 2, &small(1), &job), Verdict::InvalidMidstate);
    assert_eq!(classify(&s, 3, &small(99), &job), Verdict::Share);
    assert_eq!(classify(&s, 3, &small(100), &job), Verdict::LowDifficulty);
    assert_eq!(classify(&s, 3, &small(999), &job), Verdict::LowDifficulty);
    assert_eq!(classify(&s, 3, &small(1000), &job), Verdict::HardwareError);
}

#[test]
fn counts_record_each_verdict_and_saturate() {
    let mut counts = SolutionCounts::new();
    counts.record(Verdict::Share);
    counts.record(Verdict::Share);
    counts.record(Verdict::LowDifficulty);
    counts.record(Verdict::InvalidMidstate);
    assert_eq!(
        counts,
        SolutionCounts { invalid_midstates: 1, hardware_errors: 0, low_difficulty: 1, shares: 2 }
    );
    counts.hardware_errors = u64::MAX;
    counts.record(Verdict::HardwareError);
    assert_eq!(counts.hardware_errors, u64::MAX);
}
