use benchbot::airdrop::{airdrop_amount, funding_needed, AirdropWatch, AIRDROP_POLLS};
use benchbot::barrier::{barrier_balance_ok, next_barrier_action, BarrierAction, BarrierProgress};
use benchbot::chunks::batch_bounds;
use benchbot::convergence::{launch_plan, ConvergeAction, ConvergeError, ConvergeWatch, LaunchPlan};
use benchbot::report::{idle_marker, max_tx_count};
use benchbot::sampling::{rate_numerator, TxCountSampler, TxSample};
use benchbot::settings::BenchSettings;
use benchbot::timing::{elapsed_nanos, whole_seconds};

#[test]
fn batches_cover_every_transaction_once() {
    assert_eq!(batch_bounds(10, 4), vec![(0, 2), (2, 4), (4, 6), (6, 8), (8, 10)]);
    assert_eq!(batch_bounds(10, 3), vec![(0, 3), (3, 6), (6, 9), (9, 10)]);
    assert_eq!(batch_bounds(8, 4), vec![(0, 2), (2, 4), (4, 6), (6, 8)]);
    assert_eq!(batch_bounds(7, 1), vec![(0, 7)]);
    let b = batch_bounds(1000, 7);
    assert!(b.len() >= 7 && b.len() < 14);
    assert_eq!(b[0].0, 0);
    assert_eq!(b[b.len() - 1].1, 1000);
}

#[test]
fn sampler_counts_samples_and_totals() {
    let mut s = TxCountSampler::new(100, 150);
    assert_eq!(s.record(150), TxSample { sample: 0, total: 50 });
    assert_eq!(s.record(180), TxSample { sample: 30, total: 80 });
    assert_eq!(s.last_tx_count, 180);
    let mut t = TxCountSampler::new(500, 20);
    assert_eq!(t.record(40), TxSample { sample: 20, total: 0 });
}

#[test]
fn samples_add_up_to_growth() {
    let mut s = TxCountSampler::new(0, 7);
    let mut sum = 0;
    for c in [7u64, 9, 20, 20, 31] {
        sum += s.record(c).sample;
    }
    assert_eq!(sum, 31 - 7);
}

#[test]
fn rate_and_duration_arithmetic() {
    assert_eq!(rate_numerator(3), 3_000_000_000);
    assert_eq!(elapsed_nanos(2, 5), 2_000_000_005);
    assert_eq!(whole_seconds(2_999_999_999), 2);
}

#[test]
fn barrier_confirmed_checks_balance() {
    assert_eq!(next_barrier_action(true, 1, 0), BarrierAction::CheckBalance);
    assert_eq!(next_barrier_action(true, 500, 0), BarrierAction::CheckBalance);
    assert!(barrier_balance_ok(1));
    assert!(!barrier_balance_ok(0));
    assert!(!barrier_balance_ok(2));
}

#[test]
fn barrier_times_out_after_three_minutes() {
    assert_eq!(next_barrier_action(false, 180, 0), BarrierAction::Retry);
    assert_eq!(next_barrier_action(false, 180, 999_999), BarrierAction::Retry);
    assert_eq!(next_barrier_action(false, 180, 1_000_000), BarrierAction::GiveUp);
}

#[test]
fn barrier_reports_stalls_every_eighth_attempt() {
    let mut p = BarrierProgress::new();
    let mut reported = Vec::new();
    for k in 0..17 {
        assert_eq!(next_barrier_action(false, 0, 0), BarrierAction::Retry);
        if p.retry(false) {
            reported.push(k);
        }
    }
    assert_eq!(reported, vec![8, 16]);
    assert_eq!(p.sample_count, 17);
    let mut q = BarrierProgress { sample_count: 8 };
    assert!(!q.retry(true));
    assert_eq!(q.sample_count, 9);
}

#[test]
fn airdrop_amounts() {
    assert_eq!(airdrop_amount(5, 20), Some(15));
    assert_eq!(airdrop_amount(20, 20), None);
    assert_eq!(airdrop_amount(30, 20), None);
    assert_eq!(funding_needed(20, 0, 500_000), Some(10_000_000));
    assert_eq!(funding_needed(20, 15, 4), Some(20));
    assert_eq!(funding_needed(20, 20, 4), None);
}

#[test]
fn airdrop_watch_stops_when_balance_moves() {
    let mut w = AirdropWatch::new(5);
    assert!(w.keep_polling());
    w.record_poll(None);
    assert_eq!(w.current_balance, 5);
    assert!(w.keep_polling());
    w.record_poll(Some(20));
    assert!(!w.keep_polling());
    assert!(w.landed(15));
    assert!(!w.landed(14));
}

#[test]
fn airdrop_watch_gives_up_after_all_polls() {
    let mut w = AirdropWatch::new(0);
    let mut n = 0;
    while w.keep_polling() {
        w.record_poll(Some(0));
        n += 1;
    }
    assert_eq!(n, AIRDROP_POLLS);
    assert!(!w.landed(3));
}

#[test]
fn convergence_waits_for_leader_and_nodes() {
    let mut w = ConvergeWatch::new();
    assert_eq!(w.observe(false, 5, 1), ConvergeAction::KeepWaiting { report_count: false });
    assert_eq!(w.observe(true, 1, 3), ConvergeAction::KeepWaiting { report_count: true });
    assert_eq!(w.observe(true, 3, 3), ConvergeAction::Converged);
    let mut v = ConvergeWatch::new();
    let mut n = 0;
    while v.may_inspect() {
        v.observe(false, 0, 1);
        n += 1;
    }
    assert_eq!(n, 30);
}

#[test]
fn launch_decisions() {
    assert_eq!(launch_plan(0, 1, false, true, false), Err(ConvergeError::InsufficientNodes));
    assert_eq!(launch_plan(3, 2, true, true, false), Err(ConvergeError::ExtraNodes));
    assert_eq!(launch_plan(3, 2, false, true, false), Ok(LaunchPlan::Run));
    assert_eq!(launch_plan(2, 2, true, false, false), Err(ConvergeError::NoLeader));
    assert_eq!(launch_plan(2, 2, true, true, true), Ok(LaunchPlan::ConvergeOnly));
}

#[test]
fn report_figures() {
    assert_eq!(max_tx_count(&[]), 0);
    assert_eq!(max_tx_count(&[3, 9, 4]), 9);
    assert_eq!(idle_marker(0), "!!!!!");
    assert_eq!(idle_marker(1), "");
}

#[test]
fn settings_defaults() {
    let s = BenchSettings::from_options(None, None, None, None, false, false, false);
    assert_eq!(s.threads, 4);
    assert_eq!(s.num_nodes, 1);
    assert_eq!(s.duration_secs, u64::MAX);
    assert_eq!(s.tx_count, 500_000);
    assert_eq!(s.keypair_count(), 250_000);
    assert!(s.keep_running(1_000_000));
    assert!(s.wait_for_senders(1));
    assert!(!s.wait_for_senders(0));
    let t = BenchSettings::from_options(Some(8), Some(5), Some(60), Some(7), true, true, true);
    assert_eq!((t.threads, t.num_nodes, t.duration_secs, t.tx_count), (8, 5, 60, 7));
    assert_eq!(t.keypair_count(), 3);
    assert!(t.keep_running(59));
    assert!(!t.keep_running(60));
    assert!(!t.wait_for_senders(3));
    let u = BenchSettings::from_options(None, None, None, Some(-7), false, false, false);
    assert_eq!(u.keypair_count(), -3);
}
