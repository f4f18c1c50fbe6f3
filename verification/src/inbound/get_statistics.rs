//! Response shapes of the statistics listing, and the pure conversions
//! that fill them from the domain.

use vstd::prelude::*;

use crate::domain::device::DeviceIdError;
use crate::domain::device::GetAllDevicesError;
use crate::domain::experiment::DeviceExperiment;
use crate::domain::experiment::GetAllDeviceExperimentsError;
use crate::domain::experiment::GetAllExperimentsError;
use crate::domain::experiment::StaticticsExperiment;
use crate::domain::experiment::StatisticsVariant;
use crate::ids;

verus! {

/// How a failed statistics query is reported to the transport layer.
#[derive(Debug)]
pub enum ApiError {
    InternalServerError(String),
    UnprocessableEntity(String),
}

impl ApiError {
    /// A failed experiment listing is an internal failure.
    pub fn from_get_all_experiments_error(e: GetAllExperimentsError) -> (r: Self)
        ensures
            r matches ApiError::InternalServerError(m) && m@ == "Internal server error"@,
    {
        let _ = e;
        ApiError::InternalServerError(String::from_str("Internal server error"))
    }

    /// A failed per-device listing is an internal failure.
    pub fn from_get_all_device_experiments_error(e: GetAllDeviceExperimentsError) -> (r: Self)
        ensures
            r matches ApiError::InternalServerError(m) && m@ == "Internal server error"@,
    {
        let _ = e;
        ApiError::InternalServerError(String::from_str("Internal server error"))
    }

    /// A malformed device id is the caller's fault and carries the id
    /// error's message.
    pub fn from_device_id_error(e: DeviceIdError) -> (r: Self)
        ensures
            r matches ApiError::UnprocessableEntity(m) && m@ == e@ + " is not a valid IDFA"@,
    {
        ApiError::UnprocessableEntity(e.to_string())
    }

    /// A failed device listing is an internal failure.
    pub fn from_get_all_devices_error(e: GetAllDevicesError) -> (r: Self)
        ensures
            r matches ApiError::InternalServerError(m) && m@ == "Internal server error"@,
    {
        let _ = e;
        ApiError::InternalServerError(String::from_str("Internal server error"))
    }
}

/// The body of every successful response.
#[derive(Debug)]
pub struct ApiResponseBody<T> {
    pub data: T,
}

impl<T> ApiResponseBody<T> {
    pub fn new(data: T) -> (r: Self)
        ensures
            r.data == data,
    {
        ApiResponseBody { data }
    }
}

impl ApiResponseBody<ApiErrorData> {
    pub fn new_error(message: String) -> (r: Self)
        ensures
            r.data.message@ == message@,
    {
        ApiResponseBody { data: ApiErrorData { message } }
    }
}

/// The body of every failed response.
#[derive(Debug)]
pub struct ApiErrorData {
    pub message: String,
}

/// One variant of a statistics entry: its payload, the number of devices
/// assigned to it, and their share in units of a thousandth of a percent.
#[derive(Debug)]
pub struct Variant {
    pub data: String,
    pub total_devices: usize,
    pub percentage_devices: u64,
}

impl Variant {
    pub fn from(variant: &StatisticsVariant) -> (r: Self)
        ensures
            r.data@ == variant.spec_data(),
            r.total_devices == variant.spec_total_devices(),
            r.percentage_devices == variant.spec_percentage_devices(),
    {
        Variant {
            data: String::from_str(variant.data().as_str()),
            total_devices: variant.total_devices(),
            percentage_devices: variant.percentage_devices(),
        }
    }
}

/// One experiment of the statistics listing.
#[derive(Debug)]
pub struct StatisticsExperimentResponseData {
    pub id: String,
    pub name: String,
    pub total_devices: usize,
    pub variants: Vec<Variant>,
}

/// What a statistics entry states about its source: the id as UUID text,
/// the name, the participant count, and every variant with its payload,
/// count and share, in order.
pub open spec fn statistics_response_matches(
    r: StatisticsExperimentResponseData,
    e: StaticticsExperiment,
) -> bool {
    &&& r.id@ == ids::uuid_text(e.spec_id())
    &&& r.name@ == e.spec_name()
    &&& r.total_devices == e.spec_total_devices()
    &&& r.variants@.len() == e.spec_variants().len()
    &&& forall|j: int|
        #![trigger r.variants@[j]]
        0 <= j < e.spec_variants().len() ==> r.variants@[j].data@
            == e.spec_variants()[j].spec_data() && r.variants@[j].total_devices
            == e.spec_variants()[j].spec_total_devices() && r.variants@[j].percentage_devices
            == e.spec_variants()[j].spec_percentage_devices()
}

impl StatisticsExperimentResponseData {
    pub fn from(experiment: &StaticticsExperiment) -> (r: Self)
        ensures
            statistics_response_matches(r, *experiment),
    {
        let source = experiment.variants().variants();
        let mut variants: Vec<Variant> = Vec::new();
        let mut i: usize = 0;
        while i < source.len()
            invariant
                i <= source@.len(),
                source@ == experiment.spec_variants(),
                variants@.len() == i,
                forall|j: int|
                    #![trigger variants@[j]]
                    0 <= j < i ==> variants@[j].data@ == source@[j].spec_data()
                        && variants@[j].total_devices == source@[j].spec_total_devices()
                        && variants@[j].percentage_devices == source@[j].spec_percentage_devices(),
            decreases source@.len() - i,
        {
            variants.push(Variant::from(&source[i]));
            i = i + 1;
        }
        StatisticsExperimentResponseData {
            id: ids::uuid_to_string(experiment.id()),
            name: String::from_str(experiment.name().as_str()),
            total_devices: experiment.total_devices(),
            variants,
        }
    }
}

/// The statistics listing over all experiments.
#[derive(Debug)]
pub struct GetAllStatisticsExperimentsResponseData {
    pub experiments: Vec<StatisticsExperimentResponseData>,
}

impl GetAllStatisticsExperimentsResponseData {
    pub fn from(experiments: &Vec<StaticticsExperiment>) -> (r: Self)
        ensures
            r.experiments@.len() == experiments@.len(),
            forall|i: int|
                #![trigger r.experiments@[i]]
                0 <= i < experiments@.len() ==> statistics_response_matches(
                    r.experiments@[i],
                    experiments@[i],
                ),
    {
        let mut out: Vec<StatisticsExperimentResponseData> = Vec::new();
        let mut i: usize = 0;
        while i < experiments.len()
            invariant
                i <= experiments@.len(),
                out@.len() == i,
                forall|j: int|
                    #![trigger out@[j]]
                    0 <= j < i ==> statistics_response_matches(out@[j], experiments@[j]),
            decreases experiments@.len() - i,
        {
            out.push(StatisticsExperimentResponseData::from(&experiments[i]));
            i = i + 1;
        }
        GetAllStatisticsExperimentsResponseData { experiments: out }
    }
}

/// One experiment a device participates in, with the payload assigned to
/// the device.
#[derive(Debug)]
pub struct DeviceExperimentResponseData {
    pub id: String,
    pub name: String,
    pub data: String,
}

impl DeviceExperimentResponseData {
    pub fn from(experiment: &DeviceExperiment) -> (r: Self)
        ensures
            r.id@ == ids::uuid_text(experiment.spec_id()),
            r.name@ == experiment.spec_name(),
            r.data@ == experiment.spec_data(),
    {
        DeviceExperimentResponseData {
            id: ids::uuid_to_string(experiment.id()),
            name: String::from_str(experiment.name().as_str()),
            data: String::from_str(experiment.data().as_str()),
        }
    }
}

} // verus!
