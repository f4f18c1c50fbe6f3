//! The experiment domain: validated value objects, variant collections with
//! their distribution invariant, deterministic assignment, entities and the
//! domain errors.
//!
//! Distribution weights and percentages are fixed-point values: one unit is
//! a thousandth of a percent, so `75_000` units stand for 75%.

use vstd::prelude::*;

use crate::hashing;
use crate::text;

verus! {

/// The whole population, 100%, in weight units of a thousandth of a percent.
pub const FULL_DISTRIBUTION: u64 = 100_000;

/// Allowed deviation of the sum of distributions from 100%, in weight units:
/// 0.2%.
pub const DISTRIBUTION_EPSILON: u64 = 200;

/// Represents always valid experiment name.
#[derive(Debug, Hash)]
pub struct ExperimentName(String);

/// Construction of an [`ExperimentName`] from an empty or whitespace-only
/// string was refused.
#[derive(Clone, Copy, Debug, PartialEq, Eq, Structural)]
pub struct ExperimentNameEmptyError;

impl View for ExperimentName {
    type V = Seq<char>;

    closed spec fn view(&self) -> Seq<char> {
        self.0@
    }
}

impl ExperimentName {
    #[verifier::type_invariant]
    closed spec fn inv(&self) -> bool {
        self.0@.len() > 0
    }

    /// Trims the raw name; a name is valid exactly when something is left.
    pub fn new(raw_name: &str) -> (r: Result<Self, ExperimentNameEmptyError>)
        ensures
            r is Ok <==> text::trimmed(raw_name@).len() > 0,
            r matches Ok(n) ==> n@ == text::trimmed(raw_name@),
    {
        let trimmed = text::trim_str(raw_name);
        if trimmed.as_str().is_empty() {
            Err(ExperimentNameEmptyError)
        } else {
            Ok(ExperimentName(trimmed))
        }
    }

    /// The text of the name.
    pub fn as_str(&self) -> (r: &str)
        ensures
            r@ == self@,
    {
        self.0.as_str()
    }
}

impl Clone for ExperimentName {
    fn clone(&self) -> (r: Self)
        ensures
            r == *self,
    {
        proof {
            use_type_invariant(self);
        }
        ExperimentName(self.0.clone())
    }
}

impl PartialEq for ExperimentName {
    fn eq(&self, other: &Self) -> (r: bool) {
        self.0 == other.0
    }
}

impl vstd::std_specs::cmp::PartialEqSpecImpl for ExperimentName {
    open spec fn obeys_eq_spec() -> bool {
        true
    }

    open spec fn eq_spec(&self, other: &Self) -> bool {
        self@ == other@
    }
}

/// Represents always valid variant distribution, as a weight in units of a
/// thousandth of a percent.
#[derive(Clone, Copy, Debug, PartialEq, Eq, Structural)]
pub struct VariantDistribution(u64);

/// Construction of a [`VariantDistribution`] outside (0%, 100%] was refused.
#[derive(Clone, Copy, Debug, PartialEq, Eq, Structural)]
pub struct VariantDistributionInvalidError;

impl VariantDistribution {
    /// The weight, in units of a thousandth of a percent.
    pub closed spec fn spec_units(&self) -> u64 {
        self.0
    }

    #[verifier::type_invariant]
    closed spec fn inv(&self) -> bool {
        0 < self.0 <= FULL_DISTRIBUTION
    }

    /// A distribution is valid exactly when it lies in (0%, 100%].
    pub fn new(value: u64) -> (r: Result<Self, VariantDistributionInvalidError>)
        ensures
            r is Ok <==> 0 < value <= FULL_DISTRIBUTION,
            r matches Ok(d) ==> d.spec_units() == value,
    {
        if value == 0 || value > FULL_DISTRIBUTION {
            Err(VariantDistributionInvalidError)
        } else {
            Ok(VariantDistribution(value))
        }
    }

    /// The weight held by this distribution.
    pub fn into_inner(self) -> (r: u64)
        ensures
            r == self.spec_units(),
    {
        self.0
    }
}

/// Represents always valid variant data: a non-empty opaque payload.
#[derive(Debug, Hash)]
pub struct VariantData(String);

/// Construction of a [`VariantData`] from an empty string was refused.
#[derive(Clone, Copy, Debug, PartialEq, Eq, Structural)]
pub struct VariantDataEmptyError;

impl View for VariantData {
    type V = Seq<char>;

    closed spec fn view(&self) -> Seq<char> {
        self.0@
    }
}

impl VariantData {
    #[verifier::type_invariant]
    closed spec fn inv(&self) -> bool {
        self.0@.len() > 0
    }

    /// Data is valid exactly when the raw string is non-empty; it is stored
    /// unchanged.
    pub fn new(raw_data: &str) -> (r: Result<Self, VariantDataEmptyError>)
        ensures
            r is Ok <==> raw_data@.len() > 0,
            r matches Ok(d) ==> d@ == raw_data@,
    {
        if raw_data.is_empty() {
            Err(VariantDataEmptyError)
        } else {
            Ok(VariantData(String::from_str(raw_data)))
        }
    }

    /// The text of the payload.
    pub fn as_str(&self) -> (r: &str)
        ensures
            r@ == self@,
    {
        self.0.as_str()
    }
}

impl Clone for VariantData {
    fn clone(&self) -> (r: Self)
        ensures
            r == *self,
    {
        proof {
            use_type_invariant(self);
        }
        VariantData(self.0.clone())
    }
}

impl PartialEq for VariantData {
    fn eq(&self, other: &Self) -> (r: bool) {
        self.0 == other.0
    }
}

impl vstd::std_specs::cmp::PartialEqSpecImpl for VariantData {
    open spec fn obeys_eq_spec() -> bool {
        true
    }

    open spec fn eq_spec(&self, other: &Self) -> bool {
        self@ == other@
    }
}

/// Represents always valid variant: a distribution weight and the payload
/// handed to identities assigned to it.
#[derive(Debug)]
pub struct Variant {
    distribution: VariantDistribution,
    data: VariantData,
}

impl Variant {
    /// The weight of this variant, in units of a thousandth of a percent.
    pub closed spec fn spec_distribution(&self) -> u64 {
        self.distribution.spec_units()
    }

    /// The payload of this variant.
    pub closed spec fn spec_data(&self) -> Seq<char> {
        self.data@
    }

    pub fn new(distribution: VariantDistribution, data: VariantData) -> (r: Self)
        ensures
            r.spec_distribution() == distribution.spec_units(),
            r.spec_data() == data@,
    {
        Variant { distribution, data }
    }

    pub fn distribution(&self) -> (r: &VariantDistribution)
        ensures
            r.spec_units() == self.spec_distribution(),
    {
        &self.distribution
    }

    pub fn data(&self) -> (r: &VariantData)
        ensures
            r@ == self.spec_data(),
    {
        &self.data
    }
}

impl Clone for Variant {
    fn clone(&self) -> (r: Self)
        ensures
            r == *self,
    {
        Variant { distribution: self.distribution, data: self.data.clone() }
    }
}

impl PartialEq for Variant {
    fn eq(&self, other: &Self) -> (r: bool) {
        self.distribution == other.distribution && self.data == other.data
    }
}

impl vstd::std_specs::cmp::PartialEqSpecImpl for Variant {
    open spec fn obeys_eq_spec() -> bool {
        true
    }

    open spec fn eq_spec(&self, other: &Self) -> bool {
        self.spec_distribution() == other.spec_distribution() && self.spec_data()
            == other.spec_data()
    }
}

/// The distribution weights of a variant sequence, in order.
pub open spec fn dists_of(vs: Seq<Variant>) -> Seq<u64> {
    vs.map_values(|v: Variant| v.spec_distribution())
}

/// The sum of a sequence of weights.
pub open spec fn sum_units(dists: Seq<u64>) -> int
    decreases dists.len(),
{
    if dists.len() == 0 {
        0
    } else {
        sum_units(dists.drop_last()) + dists.last()
    }
}

/// Whether a weight sum lies within the allowed deviation around 100%.
pub open spec fn within_tolerance(sum: int) -> bool {
    FULL_DISTRIBUTION - DISTRIBUTION_EPSILON <= sum <= FULL_DISTRIBUTION + DISTRIBUTION_EPSILON
}

/// A variant sequence is valid when it is non-empty and its weights sum to
/// 100% within the allowed deviation.
pub open spec fn valid_distribution(vs: Seq<Variant>) -> bool {
    vs.len() > 0 && within_tolerance(sum_units(dists_of(vs)))
}

/// A weight sum is never negative.
pub proof fn lemma_sum_units_nonneg(dists: Seq<u64>)
    ensures
        sum_units(dists) >= 0,
    decreases dists.len(),
{
    if dists.len() > 0 {
        lemma_sum_units_nonneg(dists.drop_last());
    }
}

/// Taking one more element adds its weight to the prefix sum.
proof fn lemma_sum_units_take_step(dists: Seq<u64>, i: int)
    requires
        0 <= i < dists.len(),
    ensures
        sum_units(dists.take(i + 1)) == sum_units(dists.take(i)) + dists[i],
{
    assert(dists.take(i + 1).drop_last() =~= dists.take(i));
    assert(dists.take(i + 1).last() == dists[i]);
}

/// A prefix sum never exceeds the sum of the whole sequence.
proof fn lemma_sum_units_take_le(dists: Seq<u64>, i: int)
    requires
        0 <= i <= dists.len(),
    ensures
        sum_units(dists.take(i)) <= sum_units(dists),
    decreases dists.len(),
{
    if i == dists.len() {
        assert(dists.take(i) =~= dists);
    } else {
        assert(dists.take(i) =~= dists.drop_last().take(i));
        lemma_sum_units_take_le(dists.drop_last(), i);
    }
}

/// Prefix sums grow with the length of the prefix.
proof fn lemma_sum_units_take_mono(dists: Seq<u64>, i: int, j: int)
    requires
        0 <= i <= j <= dists.len(),
    ensures
        sum_units(dists.take(i)) <= sum_units(dists.take(j)),
{
    assert(dists.take(j).take(i) =~= dists.take(i));
    lemma_sum_units_take_le(dists.take(j), i);
}

/// Whether a raw score falls strictly below a cumulative weight: the score,
/// normalized from `[0, u64::MAX]` to `[0%, 100%]`, compared against the
/// cumulative weight in units, both scaled to a common denominator.
pub open spec fn score_below(h: nat, cum: int) -> bool {
    (h as int) * (FULL_DISTRIBUTION as int) < cum * (u64::MAX as int)
}

/// The index of the variant that a raw score falls into, walking the
/// weights from position `i` with cumulative weight `cum` before it: the
/// first position whose cumulative weight lies strictly above the score,
/// or the last position as the fallback.
pub open spec fn bucket_from(h: nat, dists: Seq<u64>, i: int, cum: int) -> int
    decreases dists.len() - i,
{
    if i >= dists.len() - 1 {
        dists.len() - 1
    } else if score_below(h, cum + dists[i]) {
        i
    } else {
        bucket_from(h, dists, i + 1, cum + dists[i])
    }
}

/// The index of the variant that a raw score falls into.
pub open spec fn bucket_index(h: nat, dists: Seq<u64>) -> int {
    bucket_from(h, dists, 0, 0)
}

/// The payload that an identity is assigned from a variant sequence.
pub open spec fn assigned_data(vs: Seq<Variant>, identity: Seq<char>) -> Seq<char> {
    vs[bucket_index(hashing::identity_score(identity), dists_of(vs))].spec_data()
}

/// The walk never goes backwards and never leaves the sequence.
pub proof fn lemma_bucket_from_range(h: nat, dists: Seq<u64>, i: int, cum: int)
    requires
        0 <= i < dists.len(),
    ensures
        i <= bucket_from(h, dists, i, cum) < dists.len(),
    decreases dists.len() - i,
{
    if i < dists.len() - 1 && !score_below(h, cum + dists[i]) {
        lemma_bucket_from_range(h, dists, i + 1, cum + dists[i]);
    }
}

/// Assignment is a pure function of the identity and the variant sequence:
/// equal inputs always give the equal payload, in any process at any time.
pub proof fn lemma_assignment_deterministic(a: Seq<Variant>, b: Seq<Variant>, identity: Seq<char>)
    requires
        a == b,
    ensures
        assigned_data(a, identity) == assigned_data(b, identity),
{
}

/// Assignment coverage: for any identity and any non-empty variant
/// sequence, the assigned payload is the payload of one of the variants.
pub proof fn lemma_assignment_coverage(vs: Seq<Variant>, identity: Seq<char>)
    requires
        vs.len() > 0,
    ensures
        exists|i: int| 0 <= i < vs.len() && assigned_data(vs, identity) == vs[i].spec_data(),
{
    let h = hashing::identity_score(identity);
    lemma_bucket_from_range(h, dists_of(vs), 0, 0);
    let b = bucket_index(h, dists_of(vs));
    assert(0 <= b < vs.len() && assigned_data(vs, identity) == vs[b].spec_data());
}

/// Below an untaken boundary the walk moves on: if the score does not lie
/// strictly below any cumulative weight up to and including position `i`,
/// the assigned position lies past `i`.
proof fn lemma_bucket_from_skips(h: nat, dists: Seq<u64>, j: int, i: int)
    requires
        0 <= j <= i < dists.len() - 1,
        forall|k: int| j <= k <= i ==> !score_below(h, sum_units(#[trigger] dists.take(k + 1))),
    ensures
        bucket_from(h, dists, j, sum_units(dists.take(j))) > i,
    decreases i - j,
{
    lemma_sum_units_take_step(dists, j);
    assert(!score_below(h, sum_units(dists.take(j)) + dists[j]));
    if j < i {
        lemma_bucket_from_skips(h, dists, j + 1, i);
    } else {
        lemma_bucket_from_range(h, dists, j + 1, sum_units(dists.take(j + 1)));
    }
}

/// Boundary rule: an identity whose normalized score equals exactly the
/// cumulative weight after variant `i` is not assigned to variant `i`; the
/// strict comparison sends it to a later variant.
pub proof fn lemma_boundary_goes_past(h: nat, dists: Seq<u64>, i: int)
    requires
        0 <= i < dists.len() - 1,
        (h as int) * (FULL_DISTRIBUTION as int) == sum_units(dists.take(i + 1)) * (
        u64::MAX as int),
    ensures
        bucket_index(h, dists) > i,
{
    assert forall|k: int| 0 <= k <= i implies !score_below(h, sum_units(#[trigger] dists.take(k + 1))) by {
        lemma_sum_units_take_mono(dists, k + 1, i + 1);
        assert(sum_units(dists.take(k + 1)) * (u64::MAX as int) <= sum_units(dists.take(i + 1)) * (
        u64::MAX as int)) by (nonlinear_arith)
            requires
                sum_units(dists.take(k + 1)) <= sum_units(dists.take(i + 1)),
        ;
    }
    assert(sum_units(dists.take(0)) == 0) by {
        assert(dists.take(0) =~= Seq::<u64>::empty());
    }
    lemma_bucket_from_skips(h, dists, 0, i);
}

/// Represents always valid list of variants: non-empty, with weights that
/// sum to 100% within the allowed deviation.
#[derive(Debug)]
pub struct ExperimentVariants(Vec<Variant>);

/// Construction of an [`ExperimentVariants`] from an empty sequence or one
/// whose weights do not sum to 100% within the allowed deviation was
/// refused.
#[derive(Clone, Copy, Debug, PartialEq, Eq, Structural)]
pub struct DistributionSumError;

impl View for ExperimentVariants {
    type V = Seq<Variant>;

    closed spec fn view(&self) -> Seq<Variant> {
        self.0@
    }
}

impl ExperimentVariants {
    #[verifier::type_invariant]
    closed spec fn inv(&self) -> bool {
        valid_distribution(self.0@)
    }

    /// Validation succeeds exactly on valid sequences: non-empty, weights
    /// summing to 100% within the allowed deviation.
    pub fn new(variants: Vec<Variant>) -> (r: Result<Self, DistributionSumError>)
        ensures
            r is Ok <==> valid_distribution(variants@),
            r matches Ok(v) ==> v@ == variants@,
    {
        Self::validate_distribution(&variants)?;
        Ok(ExperimentVariants(variants))
    }

    pub fn variants(&self) -> (r: &Vec<Variant>)
        ensures
            r@ == self@,
    {
        &self.0
    }

    /// Validates that the sum of the distribution weights equals 100%
    /// within the allowed deviation, and that the sequence is non-empty.
    fn validate_distribution(variants: &Vec<Variant>) -> (r: Result<(), DistributionSumError>)
        ensures
            r is Ok <==> valid_distribution(variants@),
    {
        if variants.len() == 0 {
            return Err(DistributionSumError);
        }
        let ghost dists = dists_of(variants@);
        let mut sum: u128 = 0;
        let mut i: usize = 0;
        while i < variants.len()
            invariant
                i <= variants@.len(),
                dists == dists_of(variants@),
                sum == sum_units(dists.take(i as int)),
                sum <= (i as int) * (u64::MAX as int),
            decreases variants@.len() - i,
        {
            let d = variants[i].distribution().into_inner();
            proof {
                lemma_sum_units_take_step(dists, i as int);
            }
            sum = sum + (d as u128);
            i = i + 1;
        }
        proof {
            assert(dists.take(variants@.len() as int) =~= dists);
        }
        if sum < (FULL_DISTRIBUTION - DISTRIBUTION_EPSILON) as u128 || sum > (FULL_DISTRIBUTION
            + DISTRIBUTION_EPSILON) as u128 {
            Err(DistributionSumError)
        } else {
            Ok(())
        }
    }

    /// Assigns a variant to an identity: the identity's raw score is walked
    /// along the cumulative weights, in the stored order, and the payload
    /// of the first variant whose cumulative weight lies strictly above the
    /// score is returned; the last variant is the fallback.
    pub fn assign_variant(&self, hash_input: &str) -> (r: &VariantData)
        ensures
            r@ == assigned_data(self@, hash_input@),
    {
        let h = hashing::hash_score(hash_input);
        self.variant_for_score(h)
    }

    /// The variant a raw score falls into: the first whose cumulative
    /// weight lies strictly above the score, with the last variant as the
    /// fallback.
    pub fn variant_for_score(&self, score: u64) -> (r: &VariantData)
        ensures
            r@ == self@[bucket_index(score as nat, dists_of(self@))].spec_data(),
    {
        proof {
            use_type_invariant(self);
        }
        let ghost dists = dists_of(self@);
        let n = self.0.len();
        let mut cumulative: u64 = 0;
        let mut i: usize = 0;
        proof {
            assert(dists.take(0) =~= Seq::<u64>::empty());
            lemma_sum_units_take_le(dists, 0);
        }
        while i < n
            invariant
                0 <= i < n,
                n == self.0@.len(),
                dists == dists_of(self.0@),
                valid_distribution(self.0@),
                cumulative == sum_units(dists.take(i as int)),
                cumulative <= FULL_DISTRIBUTION + DISTRIBUTION_EPSILON,
                bucket_index(score as nat, dists) == bucket_from(
                    score as nat,
                    dists,
                    i as int,
                    cumulative as int,
                ),
            decreases n - i,
        {
            proof {
                lemma_sum_units_take_step(dists, i as int);
                lemma_sum_units_take_le(dists, i as int + 1);
                lemma_sum_units_nonneg(dists.take(i as int));
            }
            let variant = &self.0[i];
            let next = cumulative + variant.distribution().into_inner();
            if (score as u128) * (FULL_DISTRIBUTION as u128) < (next as u128) * (u64::MAX as u128) {
                return variant.data();
            }
            if i == n - 1 {
                return variant.data();
            }
            cumulative = next;
            i = i + 1;
        }
        vstd::pervasive::unreached()
    }
}

/// The plain view of stored variant rows: each row a weight and a payload
/// text.
pub open spec fn rows_view(rows: Seq<(u64, String)>) -> Seq<(u64, Seq<char>)> {
    rows.map_values(|r: (u64, String)| (r.0, r.1@))
}

/// The first validation error among stored variant rows, in row order: an
/// empty payload is reported before an out-of-range weight of the same row.
pub open spec fn first_row_error(rows: Seq<(u64, Seq<char>)>) -> Option<GetAllExperimentsError>
    decreases rows.len(),
{
    if rows.len() == 0 {
        None
    } else if rows[0].1.len() == 0 {
        Some(GetAllExperimentsError::VariantData(VariantDataEmptyError))
    } else if !(0 < rows[0].0 <= FULL_DISTRIBUTION) {
        Some(GetAllExperimentsError::VariantDistribution(VariantDistributionInvalidError))
    } else {
        first_row_error(rows.drop_first())
    }
}

/// A row error, where there is one, is an empty payload or an out-of-range
/// weight.
pub proof fn lemma_first_row_error_form(rows: Seq<(u64, Seq<char>)>)
    ensures
        first_row_error(rows) is None || first_row_error(rows) == Some(
            GetAllExperimentsError::VariantData(VariantDataEmptyError),
        ) || first_row_error(rows) == Some(
            GetAllExperimentsError::VariantDistribution(VariantDistributionInvalidError),
        ),
    decreases rows.len(),
{
    if rows.len() > 0 && rows[0].1.len() > 0 && 0 < rows[0].0 <= FULL_DISTRIBUTION {
        lemma_first_row_error_form(rows.drop_first());
    }
}

/// Rebuilds validated variants from stored rows of weight and payload,
/// reporting the first row that no longer passes validation.
pub fn variants_from_rows(rows: &Vec<(u64, String)>) -> (r: Result<
    Vec<Variant>,
    GetAllExperimentsError,
>)
    ensures
        r is Ok <==> first_row_error(rows_view(rows@)) is None,
        r matches Err(e) ==> Some(e) == first_row_error(rows_view(rows@)),
        r matches Ok(vs) ==> vs@.len() == rows@.len() && forall|j: int|
            #![trigger vs@[j]]
            0 <= j < rows@.len() ==> vs@[j].spec_distribution() == rows@[j].0 && vs@[j].spec_data()
                == rows@[j].1@,
{
    let ghost view = rows_view(rows@);
    proof {
        assert(view.skip(0) =~= view);
    }
    let mut variants: Vec<Variant> = Vec::new();
    let mut i: usize = 0;
    while i < rows.len()
        invariant
            i <= rows@.len(),
            view == rows_view(rows@),
            first_row_error(view) == first_row_error(view.skip(i as int)),
            variants@.len() == i,
            forall|j: int|
                #![trigger variants@[j]]
                0 <= j < i ==> variants@[j].spec_distribution() == rows@[j].0
                    && variants@[j].spec_data() == rows@[j].1@,
        decreases rows@.len() - i,
    {
        proof {
            assert(view.skip(i as int).drop_first() =~= view.skip(i as int + 1));
            assert(view.skip(i as int)[0] == view[i as int]);
        }
        let data = match VariantData::new(rows[i].1.as_str()) {
            Ok(data) => data,
            Err(e) => {
                return Err(GetAllExperimentsError::VariantData(e));
            },
        };
        let distribution = match VariantDistribution::new(rows[i].0) {
            Ok(distribution) => distribution,
            Err(e) => {
                return Err(GetAllExperimentsError::VariantDistribution(e));
            },
        };
        variants.push(Variant::new(distribution, data));
        i = i + 1;
    }
    proof {
        assert(view.skip(rows@.len() as int) =~= Seq::<(u64, Seq<char>)>::empty());
    }
    Ok(variants)
}

/// An experiment: identity, validated variants, and a one-way lifecycle
/// from active (`finished_at` empty) to finished (`finished_at` set once).
///
/// An id is the 128-bit value of a UUID; an instant is an integer count of
/// time units since an epoch, of which only the order matters.
#[derive(Debug)]
pub struct Experiment {
    id: u128,
    name: ExperimentName,
    variants: ExperimentVariants,
    created_at: i64,
    finished_at: Option<i64>,
}

impl Experiment {
    pub closed spec fn spec_id(&self) -> u128 {
        self.id
    }

    pub closed spec fn spec_name(&self) -> Seq<char> {
        self.name@
    }

    pub closed spec fn spec_variants(&self) -> Seq<Variant> {
        self.variants@
    }

    pub closed spec fn spec_created_at(&self) -> i64 {
        self.created_at
    }

    pub closed spec fn spec_finished_at(&self) -> Option<i64> {
        self.finished_at
    }

    pub fn new(
        id: u128,
        name: ExperimentName,
        variants: ExperimentVariants,
        created_at: i64,
        finished_at: Option<i64>,
    ) -> (r: Self)
        ensures
            r.spec_id() == id,
            r.spec_name() == name@,
            r.spec_variants() == variants@,
            r.spec_created_at() == created_at,
            r.spec_finished_at() == finished_at,
    {
        Experiment { id, name, variants, created_at, finished_at }
    }

    pub fn id(&self) -> (r: u128)
        ensures
            r == self.spec_id(),
    {
        self.id
    }

    pub fn name(&self) -> (r: &ExperimentName)
        ensures
            r@ == self.spec_name(),
    {
        &self.name
    }

    pub fn variants(&self) -> (r: &ExperimentVariants)
        ensures
            r@ == self.spec_variants(),
    {
        &self.variants
    }

    pub fn created_at(&self) -> (r: i64)
        ensures
            r == self.spec_created_at(),
    {
        self.created_at
    }

    pub fn finished_at(&self) -> (r: Option<i64>)
        ensures
            r == self.spec_finished_at(),
    {
        self.finished_at
    }

    /// The one-way lifecycle transition: an active experiment is finished
    /// at the given instant; finishing a finished experiment is a conflict,
    /// never a no-op.
    pub fn finish(&self, now: i64) -> (r: Result<Experiment, FinishExperimentError>)
        ensures
            r is Ok <==> self.spec_finished_at() is None,
            r matches Ok(e) ==> e.spec_id() == self.spec_id() && e.spec_name() == self.spec_name()
                && e.spec_variants() == self.spec_variants() && e.spec_created_at()
                == self.spec_created_at() && e.spec_finished_at() == Some(now),
            r matches Err(e) ==> e == (FinishExperimentError::Finished { id: self.spec_id() }),
    {
        match self.finished_at {
            Some(_) => Err(FinishExperimentError::Finished { id: self.id }),
            None => Ok(
                Experiment {
                    id: self.id,
                    name: self.name.clone(),
                    variants: self.variants.clone(),
                    created_at: self.created_at,
                    finished_at: Some(now),
                },
            ),
        }
    }
}

impl Clone for Experiment {
    fn clone(&self) -> (r: Self)
        ensures
            r.spec_id() == self.spec_id(),
            r.spec_name() == self.spec_name(),
            r.spec_variants() == self.spec_variants(),
            r.spec_created_at() == self.spec_created_at(),
            r.spec_finished_at() == self.spec_finished_at(),
    {
        Experiment {
            id: self.id,
            name: self.name.clone(),
            variants: self.variants.clone(),
            created_at: self.created_at,
            finished_at: self.finished_at,
        }
    }
}

/// An experiment a given device participates in, with the payload assigned
/// to that device. Derived on demand, never stored.
#[derive(Debug)]
pub struct DeviceExperiment {
    id: u128,
    name: ExperimentName,
    data: VariantData,
}

impl DeviceExperiment {
    pub closed spec fn spec_id(&self) -> u128 {
        self.id
    }

    pub closed spec fn spec_name(&self) -> Seq<char> {
        self.name@
    }

    pub closed spec fn spec_data(&self) -> Seq<char> {
        self.data@
    }

    pub fn new(id: u128, name: ExperimentName, data: VariantData) -> (r: Self)
        ensures
            r.spec_id() == id,
            r.spec_name() == name@,
            r.spec_data() == data@,
    {
        DeviceExperiment { id, name, data }
    }

    pub fn id(&self) -> (r: u128)
        ensures
            r == self.spec_id(),
    {
        self.id
    }

    pub fn name(&self) -> (r: &ExperimentName)
        ensures
            r@ == self.spec_name(),
    {
        &self.name
    }

    pub fn data(&self) -> (r: &VariantData)
        ensures
            r@ == self.spec_data(),
    {
        &self.data
    }
}

impl Clone for DeviceExperiment {
    fn clone(&self) -> (r: Self)
        ensures
            r.spec_id() == self.spec_id(),
            r.spec_name() == self.spec_name(),
            r.spec_data() == self.spec_data(),
    {
        DeviceExperiment { id: self.id, name: self.name.clone(), data: self.data.clone() }
    }
}

/// Per-variant statistics: how many of the eligible devices are assigned to
/// the variant, and which share of them, in units of a thousandth of a
/// percent, rounded down; the share is zero when no device is eligible.
#[derive(Debug)]
pub struct StatisticsVariant {
    data: VariantData,
    total_devices: usize,
    percentage_devices: u64,
}

impl StatisticsVariant {
    pub closed spec fn spec_data(&self) -> Seq<char> {
        self.data@
    }

    pub closed spec fn spec_total_devices(&self) -> usize {
        self.total_devices
    }

    pub closed spec fn spec_percentage_devices(&self) -> u64 {
        self.percentage_devices
    }

    pub fn new(data: VariantData, total_devices: usize, percentage_devices: u64) -> (r: Self)
        ensures
            r.spec_data() == data@,
            r.spec_total_devices() == total_devices,
            r.spec_percentage_devices() == percentage_devices,
    {
        StatisticsVariant { data, total_devices, percentage_devices }
    }

    pub fn data(&self) -> (r: &VariantData)
        ensures
            r@ == self.spec_data(),
    {
        &self.data
    }

    pub fn total_devices(&self) -> (r: usize)
        ensures
            r == self.spec_total_devices(),
    {
        self.total_devices
    }

    pub fn percentage_devices(&self) -> (r: u64)
        ensures
            r == self.spec_percentage_devices(),
    {
        self.percentage_devices
    }
}

impl Clone for StatisticsVariant {
    fn clone(&self) -> (r: Self)
        ensures
            r.spec_data() == self.spec_data(),
            r.spec_total_devices() == self.spec_total_devices(),
            r.spec_percentage_devices() == self.spec_percentage_devices(),
    {
        StatisticsVariant {
            data: self.data.clone(),
            total_devices: self.total_devices,
            percentage_devices: self.percentage_devices,
        }
    }
}

/// The per-variant statistics of one experiment, in variant order.
#[derive(Debug)]
pub struct StatisticsVariants(Vec<StatisticsVariant>);

impl View for StatisticsVariants {
    type V = Seq<StatisticsVariant>;

    closed spec fn view(&self) -> Seq<StatisticsVariant> {
        self.0@
    }
}

impl StatisticsVariants {
    pub fn new(variants: Vec<StatisticsVariant>) -> (r: Self)
        ensures
            r@ == variants@,
    {
        StatisticsVariants(variants)
    }

    pub fn variants(&self) -> (r: &Vec<StatisticsVariant>)
        ensures
            r@ == self@,
    {
        &self.0
    }
}

/// The statistics of one experiment over the device population. Derived on
/// demand, never stored.
#[derive(Debug)]
pub struct StaticticsExperiment {
    id: u128,
    name: ExperimentName,
    total_devices: usize,
    variants: StatisticsVariants,
}

impl StaticticsExperiment {
    pub closed spec fn spec_id(&self) -> u128 {
        self.id
    }

    pub closed spec fn spec_name(&self) -> Seq<char> {
        self.name@
    }

    pub closed spec fn spec_total_devices(&self) -> usize {
        self.total_devices
    }

    pub closed spec fn spec_variants(&self) -> Seq<StatisticsVariant> {
        self.variants@
    }

    pub fn new(
        id: u128,
        name: ExperimentName,
        total_devices: usize,
        variants: StatisticsVariants,
    ) -> (r: Self)
        ensures
            r.spec_id() == id,
            r.spec_name() == name@,
            r.spec_total_devices() == total_devices,
            r.spec_variants() == variants@,
    {
        StaticticsExperiment { id, name, total_devices, variants }
    }

    pub fn id(&self) -> (r: u128)
        ensures
            r == self.spec_id(),
    {
        self.id
    }

    pub fn name(&self) -> (r: &ExperimentName)
        ensures
            r@ == self.spec_name(),
    {
        &self.name
    }

    pub fn total_devices(&self) -> (r: usize)
        ensures
            r == self.spec_total_devices(),
    {
        self.total_devices
    }

    pub fn variants(&self) -> (r: &StatisticsVariants)
        ensures
            r@ == self.spec_variants(),
    {
        &self.variants
    }
}

/// Data required by the domain to create an [`Experiment`].
#[derive(Debug)]
pub struct CreateExperimentRequest {
    name: ExperimentName,
    variants: ExperimentVariants,
}

impl CreateExperimentRequest {
    pub closed spec fn spec_name(&self) -> Seq<char> {
        self.name@
    }

    pub closed spec fn spec_variants(&self) -> Seq<Variant> {
        self.variants@
    }

    pub fn new(name: ExperimentName, variants: ExperimentVariants) -> (r: Self)
        ensures
            r.spec_name() == name@,
            r.spec_variants() == variants@,
    {
        CreateExperimentRequest { name, variants }
    }

    pub fn name(&self) -> (r: &ExperimentName)
        ensures
            r@ == self.spec_name(),
    {
        &self.name
    }

    pub fn variants(&self) -> (r: &ExperimentVariants)
        ensures
            r@ == self.spec_variants(),
    {
        &self.variants
    }
}

/// Failure of experiment creation: a duplicate name, or an opaque storage
/// failure passed upward unchanged.
#[derive(Debug)]
pub enum CreateExperimentError {
    Duplicate { name: ExperimentName },
    Unknown(String),
}

/// Failure of the finish transition: no such experiment, the experiment is
/// already finished, or an opaque storage failure.
#[derive(Debug)]
pub enum FinishExperimentError {
    NotFound { id: u128 },
    Finished { id: u128 },
    Unknown(String),
}

/// Failure of listing experiments: a stored record that no longer passes
/// validation, or an opaque storage failure.
#[derive(Debug)]
pub enum GetAllExperimentsError {
    Name(ExperimentNameEmptyError),
    VariantData(VariantDataEmptyError),
    VariantDistribution(VariantDistributionInvalidError),
    DistributionSum(DistributionSumError),
    Unknown(String),
}

/// Failure of listing the experiments a device participates in.
#[derive(Debug)]
pub enum GetAllDeviceExperimentsError {
    Unknown(String),
}

impl Clone for ExperimentVariants {
    fn clone(&self) -> (r: Self)
        ensures
            r@ == self@,
    {
        proof {
            use_type_invariant(self);
        }
        let copy = ExperimentVariants(self.0.clone());
        proof {
            assert forall|i: int| 0 <= i < self.0@.len() implies copy.0@[i] == self.0@[i] by {
                assert(vstd::pervasive::cloned::<Variant>(self.0@[i], copy.0@[i]));
            }
            assert(copy.0@ =~= self.0@);
        }
        copy
    }
}

} // verus!
