//! Tests of participation queries, statistics aggregation, the finish
//! transition and reconstruction from stored rows.

use abexp::domain::device::Device;
use abexp::domain::device::DeviceId;
use abexp::domain::experiment::Experiment;
use abexp::domain::experiment::ExperimentName;
use abexp::domain::experiment::ExperimentVariants;
use abexp::domain::experiment::FinishExperimentError;
use abexp::domain::experiment::GetAllExperimentsError;
use abexp::domain::experiment::Variant;
use abexp::domain::experiment::VariantData;
use abexp::domain::experiment::VariantDistribution;
use abexp::domain::service::experiment_from_parts;
use abexp::domain::service::finish_experiment;
use abexp::domain::service::get_all_device_participating_experiments;
use abexp::domain::service::get_statistics;

fn variant(units: u64, data: &str) -> Variant {
    Variant::new(
        VariantDistribution::new(units).unwrap(),
        VariantData::new(data).unwrap(),
    )
}

fn experiment(
    id: u128,
    name: &str,
    created_at: i64,
    finished_at: Option<i64>,
    variants: Vec<Variant>,
) -> Experiment {
    Experiment::new(
        id,
        ExperimentName::new(name).unwrap(),
        ExperimentVariants::new(variants).unwrap(),
        created_at,
        finished_at,
    )
}

fn device(value: u128, created_at: i64) -> Device {
    let text = uuid::Uuid::from_u128(value).to_string();
    Device::new(DeviceId::new(&text).unwrap(), created_at)
}

#[test]
fn participation_filters_by_creation_time_and_lifecycle() {
    let experiments = vec![
        experiment(1, "before", 100, None, vec![variant(100_000, "a")]),
        experiment(2, "after", 200, None, vec![variant(100_000, "b")]),
        experiment(3, "finished", 100, Some(150), vec![variant(100_000, "c")]),
    ];
    let d = device(7, 150);
    let result = get_all_device_participating_experiments(&experiments, &d);
    assert_eq!(result.len(), 1);
    assert_eq!(result[0].id(), 1);
    assert_eq!(result[0].name().as_str(), "before");
    assert_eq!(result[0].data().as_str(), "a");
}

#[test]
fn participation_uses_the_device_uuid_text_as_identity() {
    let experiments = vec![experiment(
        1,
        "exp",
        0,
        None,
        vec![variant(50_000, "a"), variant(50_000, "b")],
    )];
    let d = device(7, 0);
    let result = get_all_device_participating_experiments(&experiments, &d);
    let by_hand = experiments[0]
        .variants()
        .assign_variant(&d.id().to_string());
    assert_eq!(result[0].data().as_str(), by_hand.as_str());
}

#[test]
fn statistics_counts_eligible_devices() {
    let experiments = vec![experiment(1, "exp", 100, None, vec![variant(100_000, "only")])];
    let devices = vec![device(1, 150), device(2, 50), device(3, 100)];
    let stats = get_statistics(&experiments, &devices);
    assert_eq!(stats.len(), 1);
    assert_eq!(stats[0].id(), 1);
    assert_eq!(stats[0].name().as_str(), "exp");
    // Devices first seen at 150 and at 100 count; the one from 50 does
    // not.
    assert_eq!(stats[0].total_devices(), 2);
    let variants = stats[0].variants().variants();
    assert_eq!(variants.len(), 1);
    assert_eq!(variants[0].data().as_str(), "only");
    assert_eq!(variants[0].total_devices(), 2);
    assert_eq!(variants[0].percentage_devices(), 100_000);
}

#[test]
fn statistics_with_no_eligible_devices_reports_zero_share() {
    let experiments = vec![experiment(1, "exp", 100, None, vec![variant(100_000, "only")])];
    let stats = get_statistics(&experiments, &vec![]);
    assert_eq!(stats[0].total_devices(), 0);
    assert_eq!(stats[0].variants().variants()[0].total_devices(), 0);
    assert_eq!(stats[0].variants().variants()[0].percentage_devices(), 0);
}

#[test]
fn statistics_share_rounds_down() {
    let experiments = vec![experiment(1, "exp", 0, None, vec![variant(100_000, "only")])];
    let devices = vec![device(1, 1), device(2, 2), device(3, 3)];
    let stats = get_statistics(&experiments, &devices);
    assert_eq!(stats[0].total_devices(), 3);
    // All three devices land in the only variant: 3 of 3 is 100%.
    assert_eq!(stats[0].variants().variants()[0].percentage_devices(), 100_000);

    // An experiment the devices split: shares are floors of thirds.
    let split = vec![experiment(
        2,
        "split",
        0,
        None,
        vec![variant(50_000, "a"), variant(50_000, "b")],
    )];
    let stats = get_statistics(&split, &devices);
    let variants = stats[0].variants().variants();
    let counted: usize = variants.iter().map(|v| v.total_devices()).sum();
    assert_eq!(counted, 3);
    for v in variants {
        assert_eq!(
            v.percentage_devices(),
            (v.total_devices() as u64) * 100_000 / 3
        );
    }
}

#[test]
fn statistics_matches_live_assignment() {
    let e = experiment(
        1,
        "exp",
        100,
        None,
        vec![variant(50_000, "a"), variant(50_000, "b")],
    );
    let d = device(7, 150);
    let live = get_all_device_participating_experiments(&vec![e.clone()], &d);
    assert_eq!(live.len(), 1);
    let assigned = live[0].data().as_str().to_string();

    let stats = get_statistics(&vec![e], &vec![d]);
    assert_eq!(stats[0].total_devices(), 1);
    for sv in stats[0].variants().variants() {
        if sv.data().as_str() == assigned {
            assert_eq!(sv.total_devices(), 1);
            assert_eq!(sv.percentage_devices(), 100_000);
        } else {
            assert_eq!(sv.total_devices(), 0);
            assert_eq!(sv.percentage_devices(), 0);
        }
    }
}

#[test]
fn statistics_includes_finished_experiments() {
    let experiments = vec![experiment(
        1,
        "done",
        100,
        Some(200),
        vec![variant(100_000, "only")],
    )];
    let stats = get_statistics(&experiments, &vec![device(1, 150)]);
    assert_eq!(stats.len(), 1);
    assert_eq!(stats[0].total_devices(), 1);
}

#[test]
fn finish_active_experiment_succeeds() {
    let experiments = vec![experiment(5, "exp", 100, None, vec![variant(100_000, "a")])];
    let finished = finish_experiment(&experiments, 5, 500).unwrap();
    assert_eq!(finished.id(), 5);
    assert_eq!(finished.name().as_str(), "exp");
    assert_eq!(finished.created_at(), 100);
    assert_eq!(finished.finished_at(), Some(500));
}

#[test]
fn finish_already_finished_is_a_conflict() {
    let experiments = vec![experiment(
        5,
        "exp",
        100,
        Some(300),
        vec![variant(100_000, "a")],
    )];
    let result = finish_experiment(&experiments, 5, 500);
    assert!(matches!(
        result,
        Err(FinishExperimentError::Finished { id: 5 })
    ));
}

#[test]
fn finish_unknown_experiment_is_not_found() {
    let experiments = vec![experiment(5, "exp", 100, None, vec![variant(100_000, "a")])];
    let result = finish_experiment(&experiments, 6, 500);
    assert!(matches!(
        result,
        Err(FinishExperimentError::NotFound { id: 6 })
    ));
}

#[test]
fn experiment_from_parts_rebuilds_the_record() {
    let rows = vec![(75_000, "A".to_string()), (25_000, "B".to_string())];
    let e = experiment_from_parts(9, " checkout ", 100, None, rows).unwrap();
    assert_eq!(e.id(), 9);
    assert_eq!(e.name().as_str(), "checkout");
    assert_eq!(e.created_at(), 100);
    assert_eq!(e.finished_at(), None);
    let variants = e.variants().variants();
    assert_eq!(variants.len(), 2);
    assert_eq!(variants[0].distribution().into_inner(), 75_000);
    assert_eq!(variants[0].data().as_str(), "A");
    assert_eq!(variants[1].distribution().into_inner(), 25_000);
    assert_eq!(variants[1].data().as_str(), "B");
}

#[test]
fn experiment_from_parts_reports_the_first_bad_row() {
    let rows = vec![(75_000, "A".to_string()), (25_000, "".to_string())];
    let result = experiment_from_parts(9, "exp", 100, None, rows);
    assert!(matches!(
        result,
        Err(GetAllExperimentsError::VariantData(_))
    ));

    let rows = vec![(0, "A".to_string())];
    let result = experiment_from_parts(9, "exp", 100, None, rows);
    assert!(matches!(
        result,
        Err(GetAllExperimentsError::VariantDistribution(_))
    ));

    let rows = vec![(50_000, "A".to_string())];
    let result = experiment_from_parts(9, "exp", 100, None, rows);
    assert!(matches!(
        result,
        Err(GetAllExperimentsError::DistributionSum(_))
    ));

    let rows = vec![(100_000, "A".to_string())];
    let result = experiment_from_parts(9, "", 100, None, rows);
    assert!(matches!(result, Err(GetAllExperimentsError::Name(_))));
}
