//! Tests of the validated value objects and of variant-sequence
//! construction.

use abexp::domain::device::DeviceId;
use abexp::domain::experiment::DistributionSumError;
use abexp::domain::experiment::ExperimentName;
use abexp::domain::experiment::ExperimentVariants;
use abexp::domain::experiment::Variant;
use abexp::domain::experiment::VariantData;
use abexp::domain::experiment::VariantDataEmptyError;
use abexp::domain::experiment::VariantDistribution;
use abexp::domain::experiment::VariantDistributionInvalidError;

fn variant(units: u64, data: &str) -> Variant {
    Variant::new(
        VariantDistribution::new(units).unwrap(),
        VariantData::new(data).unwrap(),
    )
}

#[test]
fn device_test_new_success() {
    let raw_idfa = "550e8400-e29b-41d4-a716-446655440000";
    let result = DeviceId::new(raw_idfa);
    let expected = 0x550e8400e29b41d4a716446655440000u128;
    assert_eq!(result.unwrap().into_inner(), expected);
}

#[test]
fn test_idfa_is_restricted() {
    let raw_idfa = "00000000-0000-0000-0000-000000000000";
    let result = DeviceId::new(raw_idfa);
    let error = result.unwrap_err();
    assert_eq!(error.as_str(), raw_idfa);
}

#[test]
fn test_new_invalid_idfa() {
    let raw_idfa = "abracadabra";
    let result = DeviceId::new(raw_idfa);
    let error = result.unwrap_err();
    assert_eq!(error.as_str(), raw_idfa);
    assert_eq!(error.to_string(), "abracadabra is not a valid IDFA");
}

#[test]
fn variant_distribution_test_new_success() {
    // 75%, in thousandths of a percent.
    let value = 75_000;
    let result = VariantDistribution::new(value);
    let expected = Ok(VariantDistribution::new(75_000).unwrap());
    assert_eq!(result, expected);
}

#[test]
fn test_distribution_is_invalid() {
    let value = 0;
    let result = VariantDistribution::new(value);
    let expected = Err(VariantDistributionInvalidError);
    assert_eq!(result, expected);
}

#[test]
fn test_distribution_above_full_is_invalid() {
    assert_eq!(
        VariantDistribution::new(100_001),
        Err(VariantDistributionInvalidError)
    );
    assert_eq!(
        VariantDistribution::new(100_000).unwrap().into_inner(),
        100_000
    );
}

#[test]
fn experiment_test_new_success() {
    let variant_1 = variant(75_000, "10");
    let variant_2 = variant(10_000, "20");
    let variant_3 = variant(5_000, "50");
    let variant_4 = variant(10_000, "5");

    let experiment_variants_result = ExperimentVariants::new(vec![
        variant_1.clone(),
        variant_2.clone(),
        variant_3.clone(),
        variant_4.clone(),
    ]);

    let expected = vec![variant_1, variant_2, variant_3, variant_4];
    assert_eq!(experiment_variants_result.unwrap().variants(), &expected);

    let experiment_name_result = ExperimentName::new("price");
    assert_eq!(experiment_name_result.unwrap().as_str(), "price");
}

#[test]
fn test_new_experiment_variants_in_tolerance_success() {
    // Three variants at 33.3% each: the sum is 99.9%, within the 0.2%
    // tolerance.
    let variant_1 = variant(33_300, "version-1-url");
    let variant_2 = variant(33_300, "version-2-url");
    let variant_3 = variant(33_300, "version-3-url");

    let experiment_variants_result = ExperimentVariants::new(vec![
        variant_1.clone(),
        variant_2.clone(),
        variant_3.clone(),
    ]);

    let expected = vec![variant_1, variant_2, variant_3];
    assert_eq!(experiment_variants_result.unwrap().variants(), &expected);
}

#[test]
fn test_new_invalid_experiment_variants() {
    // 60% + 41.5% = 101.5%: the deviation of 1.5% exceeds the tolerance.
    let variant_1 = variant(60_000, "version-1-url");
    let variant_2 = variant(41_500, "version-2-url");

    let experiment_variants_result = ExperimentVariants::new(vec![variant_1, variant_2]);

    assert_eq!(experiment_variants_result.unwrap_err(), DistributionSumError);
}

#[test]
fn spec_scenario_distributions() {
    // (75%, "A"), (10%, "B"), (5%, "C"), (10%, "D") sums to exactly 100%.
    let ok = ExperimentVariants::new(vec![
        variant(75_000, "A"),
        variant(10_000, "B"),
        variant(5_000, "C"),
        variant(10_000, "D"),
    ]);
    assert!(ok.is_ok());

    // (60%, "X"), (41.5%, "Y") deviates by 1.5%.
    let off = ExperimentVariants::new(vec![variant(60_000, "X"), variant(41_500, "Y")]);
    assert_eq!(off.unwrap_err(), DistributionSumError);
}

#[test]
fn empty_variants_always_fail() {
    assert_eq!(
        ExperimentVariants::new(vec![]).unwrap_err(),
        DistributionSumError
    );
}

#[test]
fn experiment_name_is_trimmed() {
    assert_eq!(ExperimentName::new("  price  ").unwrap().as_str(), "price");
    assert!(ExperimentName::new("").is_err());
    assert!(ExperimentName::new("   ").is_err());
}

#[test]
fn variant_data_must_not_be_empty() {
    assert_eq!(VariantData::new("").unwrap_err(), VariantDataEmptyError);
    assert_eq!(VariantData::new(" ").unwrap().as_str(), " ");
}
