//! Tests of the HTTP-facing shapes: request validation and the responses
//! and error messages handed to the transport layer.

use abexp::domain::device::DeviceId;
use abexp::domain::experiment::CreateExperimentError;
use abexp::domain::experiment::Experiment;
use abexp::domain::experiment::ExperimentName;
use abexp::domain::experiment::ExperimentVariants;
use abexp::domain::experiment::FinishExperimentError;
use abexp::domain::experiment::Variant as DomainVariant;
use abexp::domain::experiment::VariantData;
use abexp::domain::experiment::VariantDistribution;
use abexp::inbound::create_experiment::ApiError;
use abexp::inbound::create_experiment::CreateExperimentHttpRequestBody;
use abexp::inbound::create_experiment::CreateExperimentResponseData;
use abexp::inbound::create_experiment::ParseCreateExperimentHttpRequestError;
use abexp::inbound::create_experiment::Variant as BodyVariant;
use abexp::inbound::get_experiments::ExperimentResponseData;
use abexp::inbound::patch_experiment::ApiError as PatchApiError;
use abexp::inbound::patch_experiment::PatchExperimentResponseData;

fn domain_variant(units: u64, data: &str) -> DomainVariant {
    DomainVariant::new(
        VariantDistribution::new(units).unwrap(),
        VariantData::new(data).unwrap(),
    )
}

fn body(name: &str, variants: Vec<(u64, &str)>) -> CreateExperimentHttpRequestBody {
    CreateExperimentHttpRequestBody {
        name: name.to_string(),
        variants: variants
            .into_iter()
            .map(|(distribution, data)| BodyVariant {
                distribution,
                data: data.to_string(),
            })
            .collect(),
    }
}

#[test]
fn try_into_domain_accepts_a_valid_body() {
    let request = body(" checkout ", vec![(75_000, "A"), (25_000, "B")])
        .try_into_domain()
        .unwrap();
    assert_eq!(request.name().as_str(), "checkout");
    let variants = request.variants().variants();
    assert_eq!(variants.len(), 2);
    assert_eq!(variants[0].distribution().into_inner(), 75_000);
    assert_eq!(variants[0].data().as_str(), "A");
    assert_eq!(variants[1].distribution().into_inner(), 25_000);
    assert_eq!(variants[1].data().as_str(), "B");
}

#[test]
fn try_into_domain_rejects_bad_bodies() {
    let result = body("  ", vec![(100_000, "A")]).try_into_domain();
    assert!(matches!(
        result,
        Err(ParseCreateExperimentHttpRequestError::Name(_))
    ));

    let result = body("exp", vec![(100_000, "")]).try_into_domain();
    assert!(matches!(
        result,
        Err(ParseCreateExperimentHttpRequestError::VariantData(_))
    ));

    let result = body("exp", vec![(0, "A")]).try_into_domain();
    assert!(matches!(
        result,
        Err(ParseCreateExperimentHttpRequestError::VariantDistribution(_))
    ));

    let result = body("exp", vec![(60_000, "X"), (41_500, "Y")]).try_into_domain();
    assert!(matches!(
        result,
        Err(ParseCreateExperimentHttpRequestError::DistributionSum(_))
    ));

    let result = body("exp", vec![]).try_into_domain();
    assert!(matches!(
        result,
        Err(ParseCreateExperimentHttpRequestError::DistributionSum(_))
    ));
}

#[test]
fn create_error_messages() {
    let duplicate = CreateExperimentError::Duplicate {
        name: ExperimentName::new("price").unwrap(),
    };
    match ApiError::from_create_experiment_error(duplicate) {
        ApiError::UnprocessableEntity(m) => {
            assert_eq!(m, "experiment with name price already exists")
        }
        other => panic!("unexpected mapping: {:?}", other),
    }

    let unknown = CreateExperimentError::Unknown("boom".to_string());
    match ApiError::from_create_experiment_error(unknown) {
        ApiError::InternalServerError(m) => assert_eq!(m, "Internal server error"),
        other => panic!("unexpected mapping: {:?}", other),
    }
}

#[test]
fn parse_error_messages() {
    let cases: Vec<(ParseCreateExperimentHttpRequestError, &str)> = vec![
        (
            body(" ", vec![(100_000, "A")]).try_into_domain().unwrap_err(),
            "experiment name cannot be empty",
        ),
        (
            body("exp", vec![(100_000, "")]).try_into_domain().unwrap_err(),
            "variant data cannot be empty",
        ),
        (
            body("exp", vec![(0, "A")]).try_into_domain().unwrap_err(),
            "variant distribution should be more than zero and less than or equal to 100",
        ),
        (
            body("exp", vec![(50_000, "A")]).try_into_domain().unwrap_err(),
            "sum of distributions is not equal to 100",
        ),
    ];
    for (error, expected) in cases {
        match ApiError::from_parse_error(error) {
            ApiError::UnprocessableEntity(m) => assert_eq!(m, expected),
            other => panic!("unexpected mapping: {:?}", other),
        }
    }
}

#[test]
fn finish_error_messages() {
    let id = 0x550e8400e29b41d4a716446655440000u128;
    match PatchApiError::from_finish_experiment_error(FinishExperimentError::NotFound { id }) {
        PatchApiError::NotFound(m) => assert_eq!(
            m,
            "experiment with id 550e8400-e29b-41d4-a716-446655440000 not found"
        ),
        other => panic!("unexpected mapping: {:?}", other),
    }
    match PatchApiError::from_finish_experiment_error(FinishExperimentError::Finished { id }) {
        PatchApiError::Conflict(m) => assert_eq!(
            m,
            "experiment with id 550e8400-e29b-41d4-a716-446655440000 is already finished"
        ),
        other => panic!("unexpected mapping: {:?}", other),
    }
}

#[test]
fn response_data_carries_the_uuid_text() {
    let id = 0x550e8400e29b41d4a716446655440000u128;
    let experiment = Experiment::new(
        id,
        ExperimentName::new("exp").unwrap(),
        ExperimentVariants::new(vec![domain_variant(100_000, "only")]).unwrap(),
        100,
        None,
    );

    let created = CreateExperimentResponseData::from(&experiment);
    assert_eq!(created.id, "550e8400-e29b-41d4-a716-446655440000");

    let listed = ExperimentResponseData::from(&experiment);
    assert_eq!(listed.id, "550e8400-e29b-41d4-a716-446655440000");
    assert_eq!(listed.name, "exp");
    assert_eq!(listed.variants.len(), 1);
    assert_eq!(listed.variants[0].distribution, 100_000);
    assert_eq!(listed.variants[0].data, "only");

    let patched = PatchExperimentResponseData::from(id);
    assert_eq!(patched.id, "550e8400-e29b-41d4-a716-446655440000");
}

#[test]
fn device_id_text_round_trips() {
    let raw = "550e8400-e29b-41d4-a716-446655440000";
    let id = DeviceId::new(raw).unwrap();
    assert_eq!(id.to_string(), raw);
}
