//! Request and response shapes of experiment creation, and the validation
//! of a request body into a domain creation request.

use vstd::prelude::*;

use crate::domain::experiment::CreateExperimentError;
use crate::domain::experiment::CreateExperimentRequest;
use crate::domain::experiment::DistributionSumError;
use crate::domain::experiment::Experiment;
use crate::domain::experiment::ExperimentName;
use crate::domain::experiment::ExperimentNameEmptyError;
use crate::domain::experiment::ExperimentVariants;
use crate::domain::experiment::GetAllExperimentsError;
use crate::domain::experiment::VariantDataEmptyError;
use crate::domain::experiment::VariantDistributionInvalidError;
use crate::domain::experiment::first_row_error;
use crate::domain::experiment::lemma_first_row_error_form;
use crate::domain::experiment::rows_view;
use crate::domain::experiment::dists_of;
use crate::domain::experiment::sum_units;
use crate::domain::experiment::variants_from_rows;
use crate::domain::experiment::within_tolerance;
use crate::ids;
use crate::text;

verus! {

/// How a failed creation is reported to the transport layer.
#[derive(Debug)]
pub enum ApiError {
    InternalServerError(String),
    UnprocessableEntity(String),
}

impl ApiError {
    /// Maps a creation failure: a duplicate name is the caller's fault, an
    /// unknown storage failure is internal.
    pub fn from_create_experiment_error(e: CreateExperimentError) -> (r: Self)
        ensures
            e matches CreateExperimentError::Duplicate { name } ==> (r matches ApiError::UnprocessableEntity(
                m,
            ) && m@ == "experiment with name "@ + name@ + " already exists"@),
            e is Unknown ==> (r matches ApiError::InternalServerError(m) && m@
                == "Internal server error"@),
    {
        match e {
            CreateExperimentError::Duplicate { name } => {
                let m = String::from_str("experiment with name ").concat(name.as_str()).concat(
                    " already exists",
                );
                ApiError::UnprocessableEntity(m)
            },
            CreateExperimentError::Unknown(_) => ApiError::InternalServerError(
                String::from_str("Internal server error"),
            ),
        }
    }

    /// Maps a request-body validation failure to the message of the value
    /// object that rejected it.
    pub fn from_parse_error(e: ParseCreateExperimentHttpRequestError) -> (r: Self)
        ensures
            e is Name ==> (r matches ApiError::UnprocessableEntity(m) && m@
                == "experiment name cannot be empty"@),
            e is VariantData ==> (r matches ApiError::UnprocessableEntity(m) && m@
                == "variant data cannot be empty"@),
            e is VariantDistribution ==> (r matches ApiError::UnprocessableEntity(m) && m@
                == "variant distribution should be more than zero and less than or equal to 100"@),
            e is DistributionSum ==> (r matches ApiError::UnprocessableEntity(m) && m@
                == "sum of distributions is not equal to 100"@),
    {
        let message = match e {
            ParseCreateExperimentHttpRequestError::Name(_) => String::from_str(
                "experiment name cannot be empty",
            ),
            ParseCreateExperimentHttpRequestError::VariantData(_) => String::from_str(
                "variant data cannot be empty",
            ),
            ParseCreateExperimentHttpRequestError::VariantDistribution(_) => String::from_str(
                "variant distribution should be more than zero and less than or equal to 100",
            ),
            ParseCreateExperimentHttpRequestError::DistributionSum(_) => String::from_str(
                "sum of distributions is not equal to 100",
            ),
        };
        ApiError::UnprocessableEntity(message)
    }
}

/// The body of every successful response.
#[derive(Debug)]
pub struct ApiResponseBody<T> {
    pub data: T,
}

impl<T> ApiResponseBody<T> {
    pub fn new(data: T) -> (r: Self)
        ensures
            r.data == data,
    {
        ApiResponseBody { data }
    }
}

impl ApiResponseBody<ApiErrorData> {
    pub fn new_error(message: String) -> (r: Self)
        ensures
            r.data.message@ == message@,
    {
        ApiResponseBody { data: ApiErrorData { message } }
    }
}

/// The body of every failed response.
#[derive(Debug)]
pub struct ApiErrorData {
    pub message: String,
}

/// A creation request reduced to its name.
#[derive(Debug)]
pub struct CreateExperimentRequestBody {
    pub name: String,
}

/// The response to a successful creation: the new experiment's id.
#[derive(Debug)]
pub struct CreateExperimentResponseData {
    pub id: String,
}

impl CreateExperimentResponseData {
    pub fn from(experiment: &Experiment) -> (r: Self)
        ensures
            r.id@ == ids::uuid_text(experiment.spec_id()),
    {
        CreateExperimentResponseData { id: ids::uuid_to_string(experiment.id()) }
    }
}

/// One variant of a creation request body: a weight in units of a
/// thousandth of a percent, and a payload.
#[derive(Debug)]
pub struct Variant {
    pub distribution: u64,
    pub data: String,
}

/// The full body of a creation request.
#[derive(Debug)]
pub struct CreateExperimentHttpRequestBody {
    pub name: String,
    pub variants: Vec<Variant>,
}

/// Which value object of a creation request body failed validation.
#[derive(Debug)]
pub enum ParseCreateExperimentHttpRequestError {
    Name(ExperimentNameEmptyError),
    VariantData(VariantDataEmptyError),
    VariantDistribution(VariantDistributionInvalidError),
    DistributionSum(DistributionSumError),
}

/// The plain view of the variants of a request body.
pub open spec fn body_rows(vs: Seq<Variant>) -> Seq<(u64, Seq<char>)> {
    vs.map_values(|v: Variant| (v.distribution, v.data@))
}

/// Whether the variants of a request body pass the distribution
/// validation.
pub open spec fn valid_body(vs: Seq<Variant>) -> bool {
    vs.len() > 0 && within_tolerance(
        sum_units(vs.map_values(|v: Variant| v.distribution)),
    )
}

impl CreateExperimentHttpRequestBody {
    /// Validates the body into a domain creation request: the name is
    /// trimmed and must be non-empty, each variant is validated in order
    /// (payload before weight), and the weights must sum to 100% within
    /// the allowed deviation.
    pub fn try_into_domain(self) -> (r: Result<
        CreateExperimentRequest,
        ParseCreateExperimentHttpRequestError,
    >)
        ensures
            r is Ok <==> text::trimmed(self.name@).len() > 0 && first_row_error(
                body_rows(self.variants@),
            ) is None && valid_body(self.variants@),
            r matches Ok(req) ==> req.spec_name() == text::trimmed(self.name@)
                && req.spec_variants().len() == self.variants@.len() && forall|j: int|
                #![trigger req.spec_variants()[j]]
                0 <= j < self.variants@.len() ==> req.spec_variants()[j].spec_distribution()
                    == self.variants@[j].distribution && req.spec_variants()[j].spec_data()
                    == self.variants@[j].data@,
            text::trimmed(self.name@).len() == 0 ==> r == Err::<
                CreateExperimentRequest,
                ParseCreateExperimentHttpRequestError,
            >(ParseCreateExperimentHttpRequestError::Name(ExperimentNameEmptyError)),
            (text::trimmed(self.name@).len() > 0 && first_row_error(body_rows(self.variants@))
                == Some(GetAllExperimentsError::VariantData(VariantDataEmptyError))) ==> r == Err::<
                CreateExperimentRequest,
                ParseCreateExperimentHttpRequestError,
            >(ParseCreateExperimentHttpRequestError::VariantData(VariantDataEmptyError)),
            (text::trimmed(self.name@).len() > 0 && first_row_error(body_rows(self.variants@))
                == Some(GetAllExperimentsError::VariantDistribution(
                VariantDistributionInvalidError,
            ))) ==> r == Err::<CreateExperimentRequest, ParseCreateExperimentHttpRequestError>(
                ParseCreateExperimentHttpRequestError::VariantDistribution(
                    VariantDistributionInvalidError,
                ),
            ),
            (text::trimmed(self.name@).len() > 0 && first_row_error(body_rows(self.variants@))
                is None && !valid_body(self.variants@)) ==> r == Err::<
                CreateExperimentRequest,
                ParseCreateExperimentHttpRequestError,
            >(ParseCreateExperimentHttpRequestError::DistributionSum(DistributionSumError)),
    {
        let name = match ExperimentName::new(self.name.as_str()) {
            Ok(name) => name,
            Err(e) => {
                return Err(ParseCreateExperimentHttpRequestError::Name(e));
            },
        };
        let mut rows: Vec<(u64, String)> = Vec::new();
        let mut i: usize = 0;
        while i < self.variants.len()
            invariant
                i <= self.variants@.len(),
                rows@.len() == i,
                forall|k: int|
                    #![trigger rows@[k]]
                    0 <= k < i ==> rows@[k].0 == self.variants@[k].distribution && rows@[k].1@
                        == self.variants@[k].data@,
            decreases self.variants@.len() - i,
        {
            let v = &self.variants[i];
            rows.push((v.distribution, v.data.clone()));
            i = i + 1;
        }
        proof {
            assert(rows_view(rows@) =~= body_rows(self.variants@));
            lemma_first_row_error_form(rows_view(rows@));
        }
        let variants = match variants_from_rows(&rows) {
            Ok(variants) => variants,
            Err(e) => {
                return Err(
                    match e {
                        GetAllExperimentsError::VariantData(e) => ParseCreateExperimentHttpRequestError::VariantData(
                            e,
                        ),
                        GetAllExperimentsError::VariantDistribution(e) => ParseCreateExperimentHttpRequestError::VariantDistribution(
                            e,
                        ),
                        _ => vstd::pervasive::unreached(),
                    },
                );
            },
        };
        proof {
            assert(dists_of(variants@) =~= self.variants@.map_values(
                |v: Variant| v.distribution,
            ));
        }
        let validated = match ExperimentVariants::new(variants) {
            Ok(validated) => validated,
            Err(e) => {
                return Err(ParseCreateExperimentHttpRequestError::DistributionSum(e));
            },
        };
        Ok(CreateExperimentRequest::new(name, validated))
    }
}

} // verus!
