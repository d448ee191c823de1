use hamiltonian_sampler::chain::{Chain, ChainOutcome, Step};
use hamiltonian_sampler::error::SamplerError;
use hamiltonian_sampler::start_run;
use hamiltonian_sampler::target::DistType;

fn run(start: (i64, i64), n: usize, outcomes: &[((i64, i64), bool)]) -> ChainOutcome<(i64, i64)> {
    let mut chain = Chain::new(start, n).unwrap();
    for &(proposal, accept) in outcomes {
        match chain.next_step() {
            Step::Propose(_) => chain.record(proposal, accept),
            Step::Done => panic!("chain finished early"),
        }
    }
    assert!(matches!(chain.next_step(), Step::Done));
    chain.finish()
}

#[test]
fn zero_samples_is_refused() {
    assert!(matches!(Chain::new((0i64, 0i64), 0), Err(SamplerError::NoSamples)));
}

#[test]
fn fresh_chain_proposes_from_start() {
    let chain = Chain::new((3i64, -4i64), 2).unwrap();
    assert!(matches!(chain.next_step(), Step::Propose((3, -4))));
}

#[test]
fn accepted_proposal_becomes_current() {
    let mut chain = Chain::new((0i64, 0i64), 3).unwrap();
    chain.record((5, 6), true);
    assert!(matches!(chain.next_step(), Step::Propose((5, 6))));
    chain.record((7, 8), false);
    assert!(matches!(chain.next_step(), Step::Propose((5, 6))));
}

#[test]
fn sample_count_equals_requested() {
    let outcomes: Vec<((i64, i64), bool)> =
        (0..1000).map(|i| ((i, -i), i % 3 == 0)).collect();
    let out = run((0, 0), 1000, &outcomes);
    assert_eq!(out.samples.len(), 1000);
}

#[test]
fn kept_positions_follow_decisions() {
    let out = run(
        (0, 0),
        5,
        &[((1, 1), false), ((2, 2), true), ((3, 3), false), ((4, 4), true), ((5, 5), true)],
    );
    assert_eq!(out.samples, vec![(0, 0), (2, 2), (2, 2), (4, 4), (5, 5)]);
    assert_eq!(out.accepted, 3);
}

#[test]
fn acceptance_count_within_samples() {
    let out = run((0, 0), 4, &[((1, 0), true), ((2, 0), false), ((3, 0), true), ((4, 0), false)]);
    assert_eq!(out.accepted, 2);
    assert!(out.accepted <= out.samples.len());
    assert_eq!(out.accepted as f64 / out.samples.len() as f64, 0.5);
}

#[test]
fn all_rejected_stays_at_start() {
    let out = run((9, 9), 3, &[((1, 1), false), ((2, 2), false), ((3, 3), false)]);
    assert_eq!(out.samples, vec![(9, 9), (9, 9), (9, 9)]);
    assert_eq!(out.accepted, 0);
}

#[test]
fn all_accepted_rate_is_one() {
    let out = run((0, 0), 2, &[((1, 2), true), ((3, 4), true)]);
    assert_eq!(out.samples, vec![(1, 2), (3, 4)]);
    assert_eq!(out.accepted as f64 / out.samples.len() as f64, 1.0);
}

#[test]
fn single_sample_accepted_at_mode() {
    let out = run((25, 25), 1, &[((25, 26), true)]);
    assert_eq!(out.samples, vec![(25, 26)]);
    assert_eq!(out.accepted, 1);
}

#[test]
fn same_outcomes_give_same_run() {
    let outcomes = [((1, 1), true), ((2, 2), false), ((3, 3), true)];
    let a = run((0, 0), 3, &outcomes);
    let b = run((0, 0), 3, &outcomes);
    assert_eq!(a.samples, b.samples);
    assert_eq!(a.accepted, b.accepted);
}

#[test]
fn start_run_selects_density() {
    let (dist, chain) = start_run((0i64, 0i64), 10, "banana").unwrap();
    assert_eq!(dist, DistType::Banana);
    assert!(matches!(chain.next_step(), Step::Propose((0, 0))));
}

#[test]
fn start_run_refuses_unknown_name_first() {
    assert!(matches!(start_run((0i64, 0i64), 0, "cauchy"), Err(SamplerError::UnknownDistribution)));
    assert!(matches!(start_run((0i64, 0i64), 5, "cauchy"), Err(SamplerError::UnknownDistribution)));
}

#[test]
fn start_run_refuses_no_samples() {
    assert!(matches!(start_run((0i64, 0i64), 0, "bimodal"), Err(SamplerError::NoSamples)));
}
