//! Response shapes of the experiment listing and of the per-device listing,
//! and the pure conversions that fill them from the domain.

use vstd::prelude::*;

use crate::domain::device::DeviceIdError;
use crate::domain::experiment::DeviceExperiment;
use crate::domain::experiment::Experiment;
use crate::domain::experiment::GetAllDeviceExperimentsError;
use crate::domain::experiment::GetAllExperimentsError;
use crate::domain::experiment::Variant as ExperimentVariant;
use crate::ids;

verus! {

/// How a failed listing is reported to the transport layer.
#[derive(Debug)]
pub enum ApiError {
    InternalServerError(String),
    UnprocessableEntity(String),
}

impl ApiError {
    /// A failed experiment listing is an internal failure.
    pub fn from_get_all_experiments_error(e: GetAllExperimentsError) -> (r: Self)
        ensures
            r matches ApiError::InternalServerError(m) && m@ == "Internal server error"@,
    {
        let _ = e;
        ApiError::InternalServerError(String::from_str("Internal server error"))
    }

    /// A failed per-device listing is an internal failure.
    pub fn from_get_all_device_experiments_error(e: GetAllDeviceExperimentsError) -> (r: Self)
        ensures
            r matches ApiError::InternalServerError(m) && m@ == "Internal server error"@,
    {
        let _ = e;
        ApiError::InternalServerError(String::from_str("Internal server error"))
    }

    /// A malformed device id is the caller's fault and carries the id
    /// error's message.
    pub fn from_device_id_error(e: DeviceIdError) -> (r: Self)
        ensures
            r matches ApiError::UnprocessableEntity(m) && m@ == e@ + " is not a valid IDFA"@,
    {
        ApiError::UnprocessableEntity(e.to_string())
    }
}

/// The body of every successful response.
#[derive(Debug)]
pub struct ApiResponseBody<T> {
    pub data: T,
}

impl<T> ApiResponseBody<T> {
    pub fn new(data: T) -> (r: Self)
        ensures
            r.data == data,
    {
        ApiResponseBody { data }
    }
}

impl ApiResponseBody<ApiErrorData> {
    pub fn new_error(message: String) -> (r: Self)
        ensures
            r.data.message@ == message@,
    {
        ApiResponseBody { data: ApiErrorData { message } }
    }
}

/// The body of every failed response.
#[derive(Debug)]
pub struct ApiErrorData {
    pub message: String,
}

/// One variant of a listed experiment: its weight in units of a thousandth
/// of a percent, and its payload.
#[derive(Debug)]
pub struct Variant {
    pub distribution: u64,
    pub data: String,
}

impl Variant {
    pub fn from(variant: &ExperimentVariant) -> (r: Self)
        ensures
            r.distribution == variant.spec_distribution(),
            r.data@ == variant.spec_data(),
    {
        Variant {
            distribution: variant.distribution().into_inner(),
            data: String::from_str(variant.data().as_str()),
        }
    }
}

/// One experiment of the public listing.
#[derive(Debug)]
pub struct ExperimentResponseData {
    pub id: String,
    pub name: String,
    pub variants: Vec<Variant>,
}

/// What a listed experiment states about its source: the id as UUID text,
/// the name, and every variant with its weight and payload, in order.
pub open spec fn experiment_response_matches(r: ExperimentResponseData, e: Experiment) -> bool {
    &&& r.id@ == ids::uuid_text(e.spec_id())
    &&& r.name@ == e.spec_name()
    &&& r.variants@.len() == e.spec_variants().len()
    &&& forall|j: int|
        #![trigger r.variants@[j]]
        0 <= j < e.spec_variants().len() ==> r.variants@[j].distribution
            == e.spec_variants()[j].spec_distribution() && r.variants@[j].data@
            == e.spec_variants()[j].spec_data()
}

impl ExperimentResponseData {
    pub fn from(experiment: &Experiment) -> (r: Self)
        ensures
            experiment_response_matches(r, *experiment),
    {
        let source = experiment.variants().variants();
        let mut variants: Vec<Variant> = Vec::new();
        let mut i: usize = 0;
        while i < source.len()
            invariant
                i <= source@.len(),
                source@ == experiment.spec_variants(),
                variants@.len() == i,
                forall|j: int|
                    #![trigger variants@[j]]
                    0 <= j < i ==> variants@[j].distribution == source@[j].spec_distribution()
                        && variants@[j].data@ == source@[j].spec_data(),
            decreases source@.len() - i,
        {
            variants.push(Variant::from(&source[i]));
            i = i + 1;
        }
        ExperimentResponseData {
            id: ids::uuid_to_string(experiment.id()),
            name: String::from_str(experiment.name().as_str()),
            variants,
        }
    }
}

/// The public listing of all experiments.
#[derive(Debug)]
pub struct AllExperimentsResponseData {
    pub experiments: Vec<ExperimentResponseData>,
}

/// The listing of the experiments one device participates in.
#[derive(Debug)]
pub struct AllDeviceExperimentsResponseData {
    pub experiments: Vec<DeviceExperimentResponseData>,
}

/// One experiment a device participates in, with the payload assigned to
/// the device.
#[derive(Debug)]
pub struct DeviceExperimentResponseData {
    pub id: String,
    pub name: String,
    pub data: String,
}

impl DeviceExperimentResponseData {
    pub fn from(experiment: &DeviceExperiment) -> (r: Self)
        ensures
            r.id@ == ids::uuid_text(experiment.spec_id()),
            r.name@ == experiment.spec_name(),
            r.data@ == experiment.spec_data(),
    {
        DeviceExperimentResponseData {
            id: ids::uuid_to_string(experiment.id()),
            name: String::from_str(experiment.name().as_str()),
            data: String::from_str(experiment.data().as_str()),
        }
    }
}

/// The two shapes the listing endpoint answers with: the public listing,
/// or the per-device listing when a device id was sent.
#[derive(Debug)]
pub enum GetAllExperimentsResponseData {
    Public(AllExperimentsResponseData),
    Device(AllDeviceExperimentsResponseData),
}

impl GetAllExperimentsResponseData {
    pub fn from_experiments(experiments: &Vec<Experiment>) -> (r: Self)
        ensures
            r matches GetAllExperimentsResponseData::Public(p) && p.experiments@.len()
                == experiments@.len() && forall|i: int|
                #![trigger p.experiments@[i]]
                0 <= i < experiments@.len() ==> experiment_response_matches(
                    p.experiments@[i],
                    experiments@[i],
                ),
    {
        let mut out: Vec<ExperimentResponseData> = Vec::new();
        let mut i: usize = 0;
        while i < experiments.len()
            invariant
                i <= experiments@.len(),
                out@.len() == i,
                forall|j: int|
                    #![trigger out@[j]]
                    0 <= j < i ==> experiment_response_matches(out@[j], experiments@[j]),
            decreases experiments@.len() - i,
        {
            out.push(ExperimentResponseData::from(&experiments[i]));
            i = i + 1;
        }
        GetAllExperimentsResponseData::Public(AllExperimentsResponseData { experiments: out })
    }

    pub fn from_device_experiments(experiments: &Vec<DeviceExperiment>) -> (r: Self)
        ensures
            r matches GetAllExperimentsResponseData::Device(d) && d.experiments@.len()
                == experiments@.len() && forall|i: int|
                #![trigger d.experiments@[i]]
                0 <= i < experiments@.len() ==> d.experiments@[i].id@ == ids::uuid_text(
                    experiments@[i].spec_id(),
                ) && d.experiments@[i].name@ == experiments@[i].spec_name()
                    && d.experiments@[i].data@ == experiments@[i].spec_data(),
    {
        let mut out: Vec<DeviceExperimentResponseData> = Vec::new();
        let mut i: usize = 0;
        while i < experiments.len()
            invariant
                i <= experiments@.len(),
                out@.len() == i,
                forall|j: int|
                    #![trigger out@[j]]
                    0 <= j < i ==> out@[j].id@ == ids::uuid_text(experiments@[j].spec_id())
                        && out@[j].name@ == experiments@[j].spec_name() && out@[j].data@
                        == experiments@[j].spec_data(),
            decreases experiments@.len() - i,
        {
            out.push(DeviceExperimentResponseData::from(&experiments[i]));
            i = i + 1;
        }
        GetAllExperimentsResponseData::Device(AllDeviceExperimentsResponseData { experiments: out })
    }
}

} // verus!
