//! Tests of the deterministic scoring and of variant assignment.

use abexp::domain::experiment::ExperimentVariants;
use abexp::domain::experiment::Variant;
use abexp::domain::experiment::VariantData;
use abexp::domain::experiment::VariantDistribution;
use abexp::hashing::hash_score;

fn variant(units: u64, data: &str) -> Variant {
    Variant::new(
        VariantDistribution::new(units).unwrap(),
        VariantData::new(data).unwrap(),
    )
}

#[test]
fn hash_score_matches_sha256_test_vectors() {
    // First 8 digest bytes, big-endian, of the well-known SHA-256 values
    // of the empty string and of "abc".
    assert_eq!(hash_score(""), 0xe3b0c44298fc1c14);
    assert_eq!(hash_score("abc"), 0xba7816bf8f01cfea);
}

#[test]
fn assignment_is_deterministic() {
    let variants = ExperimentVariants::new(vec![
        variant(50_000, "control"),
        variant(50_000, "treatment"),
    ])
    .unwrap();
    let first = variants.assign_variant("device-1").as_str().to_string();
    let second = variants.assign_variant("device-1").as_str().to_string();
    assert_eq!(first, second);

    let copy = variants.clone();
    assert_eq!(copy.assign_variant("device-1").as_str(), first);
}

#[test]
fn assignment_covers_configured_variants() {
    let variants = ExperimentVariants::new(vec![
        variant(33_300, "a"),
        variant(33_300, "b"),
        variant(33_300, "c"),
    ])
    .unwrap();
    let configured = ["a", "b", "c"];
    let identities = [
        "",
        "x",
        "y",
        "device-1",
        "550e8400-e29b-41d4-a716-446655440000",
        "some longer identity string",
    ];
    for identity in identities {
        let data = variants.assign_variant(identity);
        assert!(configured.contains(&data.as_str()));
    }
}

#[test]
fn boundary_score_falls_into_next_variant() {
    let variants =
        ExperimentVariants::new(vec![variant(20_000, "first"), variant(80_000, "second")])
            .unwrap();
    // This score, normalized, lands exactly on the 20% boundary:
    // (u64::MAX / 5) * 100_000 == 20_000 * u64::MAX, since u64::MAX is
    // divisible by 5. The strict comparison sends it past the boundary.
    let boundary = u64::MAX / 5;
    assert_eq!(variants.variant_for_score(boundary).as_str(), "second");
    assert_eq!(variants.variant_for_score(boundary - 1).as_str(), "first");
}

#[test]
fn extreme_scores_fall_into_first_and_last_variant() {
    let variants =
        ExperimentVariants::new(vec![variant(20_000, "first"), variant(80_000, "second")])
            .unwrap();
    assert_eq!(variants.variant_for_score(0).as_str(), "first");
    // The largest score normalizes to exactly 100%, below no cumulative
    // weight; the last variant is the fallback.
    assert_eq!(variants.variant_for_score(u64::MAX).as_str(), "second");
}

#[test]
fn single_variant_takes_every_identity() {
    let variants = ExperimentVariants::new(vec![variant(100_000, "only")]).unwrap();
    for identity in ["", "a", "b", "c"] {
        assert_eq!(variants.assign_variant(identity).as_str(), "only");
    }
}

#[test]
fn assignment_depends_on_variant_order() {
    // The same weights under another order move the bucket boundaries:
    // the payload a fixed score gets follows the order.
    let ab = ExperimentVariants::new(vec![variant(50_000, "a"), variant(50_000, "b")]).unwrap();
    let ba = ExperimentVariants::new(vec![variant(50_000, "b"), variant(50_000, "a")]).unwrap();
    let score = u64::MAX / 4;
    assert_eq!(ab.variant_for_score(score).as_str(), "a");
    assert_eq!(ba.variant_for_score(score).as_str(), "b");
}
