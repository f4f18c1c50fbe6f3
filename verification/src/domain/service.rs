//! Service-level operations over immutable snapshots of the stored data:
//! which experiments a device participates in, the statistics of the device
//! population, the finish transition, and reconstruction of experiments
//! from stored rows. All of them are pure functions of their inputs; the
//! storage that produces the snapshots lives outside the library.

use vstd::prelude::*;

use crate::domain::device::Device;
use crate::domain::experiment::DeviceExperiment;
use crate::domain::experiment::Experiment;
use crate::domain::experiment::ExperimentName;
use crate::domain::experiment::ExperimentVariants;
use crate::domain::experiment::FinishExperimentError;
use crate::domain::experiment::FULL_DISTRIBUTION;
use crate::domain::experiment::GetAllExperimentsError;
use crate::domain::experiment::StaticticsExperiment;
use crate::domain::experiment::StatisticsVariant;
use crate::domain::experiment::StatisticsVariants;
use crate::domain::experiment::VariantData;
use crate::domain::experiment::assigned_data;
use crate::domain::experiment::DistributionSumError;
use crate::domain::experiment::ExperimentNameEmptyError;
use crate::domain::experiment::dists_of;
use crate::domain::experiment::first_row_error;
use crate::domain::experiment::rows_view;
use crate::domain::experiment::sum_units;
use crate::domain::experiment::variants_from_rows;
use crate::domain::experiment::within_tolerance;
use crate::ids;
use crate::text;

verus! {

/// The identity string that variant assignment hashes for a device: the
/// canonical hyphenated text of its identifier.
pub open spec fn device_identity(d: Device) -> Seq<char> {
    ids::uuid_text(d.spec_id())
}

/// The payload a device is assigned from an experiment's variants.
pub open spec fn device_assigned_data(e: Experiment, d: Device) -> Seq<char> {
    assigned_data(e.spec_variants(), device_identity(d))
}

/// Whether a device sees an experiment live: the experiment was created at
/// or before the device was first observed, and is not finished.
pub open spec fn live_eligible(e: Experiment, d: Device) -> bool {
    e.spec_created_at() <= d.spec_created_at() && e.spec_finished_at() is None
}

/// The experiments of a listing that a device sees live, in listing order.
pub open spec fn participating(es: Seq<Experiment>, d: Device) -> Seq<Experiment>
    decreases es.len(),
{
    if es.len() == 0 {
        Seq::empty()
    } else if live_eligible(es.last(), d) {
        participating(es.drop_last(), d).push(es.last())
    } else {
        participating(es.drop_last(), d)
    }
}

/// Computes the experiments a device currently participates in: the live
/// eligible experiments, each with the payload assigned to the device.
pub fn get_all_device_participating_experiments(experiments: &Vec<Experiment>, device: &Device) -> (r:
    Vec<DeviceExperiment>)
    ensures
        r@.len() == participating(experiments@, *device).len(),
        forall|k: int|
            #![trigger r@[k]]
            0 <= k < r@.len() ==> {
                let e = participating(experiments@, *device)[k];
                r@[k].spec_id() == e.spec_id() && r@[k].spec_name() == e.spec_name()
                    && r@[k].spec_data() == device_assigned_data(e, *device)
            },
{
    let identity = device.id().to_string();
    let mut r: Vec<DeviceExperiment> = Vec::new();
    let mut i: usize = 0;
    while i < experiments.len()
        invariant
            i <= experiments@.len(),
            identity@ == device_identity(*device),
            r@.len() == participating(experiments@.take(i as int), *device).len(),
            forall|k: int|
                #![trigger r@[k]]
                0 <= k < r@.len() ==> {
                    let e = participating(experiments@.take(i as int), *device)[k];
                    r@[k].spec_id() == e.spec_id() && r@[k].spec_name() == e.spec_name()
                        && r@[k].spec_data() == device_assigned_data(e, *device)
                },
        decreases experiments@.len() - i,
    {
        proof {
            assert(experiments@.take(i as int + 1).drop_last() =~= experiments@.take(i as int));
            assert(experiments@.take(i as int + 1).last() == experiments@[i as int]);
        }
        let e = &experiments[i];
        if e.created_at() <= device.created_at() && e.finished_at().is_none() {
            let data = e.variants().assign_variant(identity.as_str());
            r.push(DeviceExperiment::new(e.id(), e.name().clone(), data.clone()));
        }
        i = i + 1;
    }
    proof {
        assert(experiments@.take(experiments@.len() as int) =~= experiments@);
    }
    r
}

/// Whether a device counts as a statistics participant of an experiment:
/// its first observation lies at or after the experiment's creation.
pub open spec fn stat_eligible(e: Experiment, d: Device) -> bool {
    d.spec_created_at() >= e.spec_created_at()
}

/// The number of devices of a population that participate in an experiment.
pub open spec fn count_participants(e: Experiment, ds: Seq<Device>) -> int
    decreases ds.len(),
{
    if ds.len() == 0 {
        0
    } else {
        count_participants(e, ds.drop_last()) + if stat_eligible(e, ds.last()) {
            1int
        } else {
            0int
        }
    }
}

/// The number of participating devices whose assigned payload equals the
/// given payload.
pub open spec fn count_assigned(e: Experiment, ds: Seq<Device>, data: Seq<char>) -> int
    decreases ds.len(),
{
    if ds.len() == 0 {
        0
    } else {
        count_assigned(e, ds.drop_last(), data) + if stat_eligible(e, ds.last())
            && device_assigned_data(e, ds.last()) == data {
            1int
        } else {
            0int
        }
    }
}

/// The share of `part` in `total`, in units of a thousandth of a percent,
/// rounded down; zero when the total is zero.
pub open spec fn spec_percentage(part: int, total: int) -> int {
    if total == 0 {
        0
    } else {
        part * FULL_DISTRIBUTION / total
    }
}

/// Counts never exceed the population, and assigned counts never exceed
/// participant counts.
pub proof fn lemma_count_bounds(e: Experiment, ds: Seq<Device>, data: Seq<char>)
    ensures
        0 <= count_assigned(e, ds, data) <= count_participants(e, ds) <= ds.len(),
    decreases ds.len(),
{
    if ds.len() > 0 {
        lemma_count_bounds(e, ds.drop_last(), data);
    }
}

/// A device that sees an experiment live also counts as a statistics
/// participant of it.
pub proof fn lemma_live_eligible_is_stat_eligible(e: Experiment, d: Device)
    requires
        live_eligible(e, d),
    ensures
        stat_eligible(e, d),
{
}

/// Statistics consistency: an eligible device enlarges exactly the count
/// of the payload that live assignment reports for it — the payload counted
/// for the device in the aggregation is the payload the device is shown.
pub proof fn lemma_statistics_counts_live_assignment(
    e: Experiment,
    ds: Seq<Device>,
    d: Device,
    data: Seq<char>,
)
    requires
        stat_eligible(e, d),
    ensures
        count_participants(e, ds.push(d)) == count_participants(e, ds) + 1,
        count_assigned(e, ds.push(d), data) == count_assigned(e, ds, data) + if data
            == device_assigned_data(e, d) {
            1int
        } else {
            0int
        },
{
    assert(ds.push(d).drop_last() =~= ds);
}

/// What one entry of the statistics states about its experiment and the
/// device population.
pub open spec fn stat_matches(s: StaticticsExperiment, e: Experiment, ds: Seq<Device>) -> bool {
    &&& s.spec_id() == e.spec_id()
    &&& s.spec_name() == e.spec_name()
    &&& s.spec_total_devices() == count_participants(e, ds)
    &&& s.spec_variants().len() == e.spec_variants().len()
    &&& forall|j: int|
        #![trigger s.spec_variants()[j]]
        0 <= j < e.spec_variants().len() ==> {
            let v = e.spec_variants()[j];
            let sv = s.spec_variants()[j];
            sv.spec_data() == v.spec_data() && sv.spec_total_devices() == count_assigned(
                e,
                ds,
                v.spec_data(),
            ) && sv.spec_percentage_devices() == spec_percentage(
                count_assigned(e, ds, v.spec_data()),
                count_participants(e, ds),
            )
        }
}

/// Counts the devices of the population that participate in an experiment.
fn count_participants_exec(e: &Experiment, devices: &Vec<Device>) -> (c: usize)
    ensures
        c == count_participants(*e, devices@),
{
    let mut c: usize = 0;
    let mut i: usize = 0;
    while i < devices.len()
        invariant
            i <= devices@.len(),
            c == count_participants(*e, devices@.take(i as int)),
            c <= i,
        decreases devices@.len() - i,
    {
        proof {
            assert(devices@.take(i as int + 1).drop_last() =~= devices@.take(i as int));
        }
        if devices[i].created_at() >= e.created_at() {
            c = c + 1;
        }
        i = i + 1;
    }
    proof {
        assert(devices@.take(devices@.len() as int) =~= devices@);
    }
    c
}

/// Counts the participating devices that are assigned the given payload,
/// replaying the same assignment as the live query.
fn count_assigned_exec(e: &Experiment, devices: &Vec<Device>, data: &VariantData) -> (c:
    usize)
    ensures
        c == count_assigned(*e, devices@, data@),
{
    let mut c: usize = 0;
    let mut i: usize = 0;
    while i < devices.len()
        invariant
            i <= devices@.len(),
            c == count_assigned(*e, devices@.take(i as int), data@),
            c <= i,
        decreases devices@.len() - i,
    {
        proof {
            assert(devices@.take(i as int + 1).drop_last() =~= devices@.take(i as int));
        }
        let d = &devices[i];
        if d.created_at() >= e.created_at() {
            let identity = d.id().to_string();
            let assigned = e.variants().assign_variant(identity.as_str());
            if *assigned == *data {
                c = c + 1;
            }
        }
        i = i + 1;
    }
    proof {
        assert(devices@.take(devices@.len() as int) =~= devices@);
    }
    c
}

/// The share of `part` in `total`, in units of a thousandth of a percent.
fn percentage_exec(part: usize, total: usize) -> (p: u64)
    requires
        part <= total,
    ensures
        p == spec_percentage(part as int, total as int),
{
    if total == 0 {
        0
    } else {
        let q = (part as u128) * (FULL_DISTRIBUTION as u128) / (total as u128);
        proof {
            assert(q <= FULL_DISTRIBUTION) by (nonlinear_arith)
                requires
                    part <= total,
                    total > 0,
                    q == (part as int) * (FULL_DISTRIBUTION as int) / (total as int),
            ;
        }
        q as u64
    }
}

/// Computes the statistics of every experiment over the device population:
/// for each experiment its participants, and for each variant the number
/// and the share of participants assigned to it, replaying the same
/// assignment as the live query.
pub fn get_statistics(experiments: &Vec<Experiment>, devices: &Vec<Device>) -> (r: Vec<
    StaticticsExperiment,
>)
    ensures
        r@.len() == experiments@.len(),
        forall|i: int|
            #![trigger r@[i]]
            0 <= i < experiments@.len() ==> stat_matches(r@[i], experiments@[i], devices@),
{
    let mut r: Vec<StaticticsExperiment> = Vec::new();
    let mut i: usize = 0;
    while i < experiments.len()
        invariant
            i <= experiments@.len(),
            r@.len() == i,
            forall|k: int|
                #![trigger r@[k]]
                0 <= k < i ==> stat_matches(r@[k], experiments@[k], devices@),
        decreases experiments@.len() - i,
    {
        let e = &experiments[i];
        let total = count_participants_exec(e, devices);
        let variants = e.variants().variants();
        let mut stats: Vec<StatisticsVariant> = Vec::new();
        let mut j: usize = 0;
        while j < variants.len()
            invariant
                j <= variants@.len(),
                variants@ == e.spec_variants(),
                total == count_participants(*e, devices@),
                stats@.len() == j,
                forall|k: int|
                    #![trigger stats@[k]]
                    0 <= k < j ==> {
                        let v = variants@[k];
                        stats@[k].spec_data() == v.spec_data() && stats@[k].spec_total_devices()
                            == count_assigned(*e, devices@, v.spec_data())
                            && stats@[k].spec_percentage_devices() == spec_percentage(
                            count_assigned(*e, devices@, v.spec_data()),
                            count_participants(*e, devices@),
                        )
                    },
            decreases variants@.len() - j,
        {
            let v = &variants[j];
            let matched = count_assigned_exec(e, devices, v.data());
            proof {
                lemma_count_bounds(*e, devices@, v.spec_data());
            }
            let percentage = percentage_exec(matched, total);
            stats.push(StatisticsVariant::new(v.data().clone(), matched, percentage));
            j = j + 1;
        }
        r.push(
            StaticticsExperiment::new(e.id(), e.name().clone(), total, StatisticsVariants::new(stats)),
        );
        i = i + 1;
    }
    r
}

/// The first experiment of a listing with the given id, if any.
pub open spec fn lookup_experiment(es: Seq<Experiment>, id: u128) -> Option<Experiment>
    decreases es.len(),
{
    if es.len() == 0 {
        None
    } else if es[0].spec_id() == id {
        Some(es[0])
    } else {
        lookup_experiment(es.drop_first(), id)
    }
}

/// Decides the finish transition against a listing of the stored
/// experiments: unknown ids are rejected, finishing twice is a conflict,
/// and an active experiment is returned finished at the given instant.
/// The caller persists the returned experiment.
pub fn finish_experiment(experiments: &Vec<Experiment>, id: u128, now: i64) -> (r: Result<
    Experiment,
    FinishExperimentError,
>)
    ensures
        r is Ok <==> (lookup_experiment(experiments@, id) matches Some(e) && e.spec_finished_at()
            is None),
        lookup_experiment(experiments@, id) is None ==> r == Err::<Experiment, FinishExperimentError>(
            FinishExperimentError::NotFound { id },
        ),
        (lookup_experiment(experiments@, id) matches Some(e) && e.spec_finished_at() is Some)
            ==> r == Err::<Experiment, FinishExperimentError>(FinishExperimentError::Finished { id }),
        r matches Ok(f) ==> {
            let e = lookup_experiment(experiments@, id)->Some_0;
            f.spec_id() == id && f.spec_name() == e.spec_name() && f.spec_variants()
                == e.spec_variants() && f.spec_created_at() == e.spec_created_at()
                && f.spec_finished_at() == Some(now)
        },
{
    let ghost es = experiments@;
    proof {
        assert(es.skip(0) =~= es);
    }
    let mut i: usize = 0;
    while i < experiments.len()
        invariant
            i <= es.len(),
            es == experiments@,
            lookup_experiment(es, id) == lookup_experiment(es.skip(i as int), id),
        decreases es.len() - i,
    {
        proof {
            assert(es.skip(i as int).drop_first() =~= es.skip(i as int + 1));
            assert(es.skip(i as int)[0] == es[i as int]);
        }
        let e = &experiments[i];
        if e.id() == id {
            return e.finish(now);
        }
        i = i + 1;
    }
    proof {
        assert(es.skip(es.len() as int) =~= Seq::<Experiment>::empty());
    }
    Err(FinishExperimentError::NotFound { id })
}

/// Rebuilds a stored experiment from its row and its variant rows,
/// revalidating every value object exactly as at creation.
pub fn experiment_from_parts(
    id: u128,
    name: &str,
    created_at: i64,
    finished_at: Option<i64>,
    variant_rows: Vec<(u64, String)>,
) -> (r: Result<Experiment, GetAllExperimentsError>)
    ensures
        r is Ok <==> text::trimmed(name@).len() > 0 && first_row_error(rows_view(variant_rows@))
            is None && valid_rows(variant_rows@),
        r matches Ok(e) ==> e.spec_id() == id && e.spec_name() == text::trimmed(name@)
            && e.spec_created_at() == created_at && e.spec_finished_at() == finished_at
            && e.spec_variants().len() == variant_rows@.len() && forall|j: int|
            #![trigger e.spec_variants()[j]]
            0 <= j < variant_rows@.len() ==> e.spec_variants()[j].spec_distribution()
                == variant_rows@[j].0 && e.spec_variants()[j].spec_data() == variant_rows@[j].1@,
        text::trimmed(name@).len() == 0 ==> r == Err::<Experiment, GetAllExperimentsError>(
            GetAllExperimentsError::Name(ExperimentNameEmptyError),
        ),
        (text::trimmed(name@).len() > 0 && first_row_error(rows_view(variant_rows@)) is Some)
            ==> r == Err::<Experiment, GetAllExperimentsError>(
            first_row_error(rows_view(variant_rows@))->Some_0,
        ),
        text::trimmed(name@).len() > 0 && first_row_error(rows_view(variant_rows@)) is None
            && !valid_rows(variant_rows@) ==> r == Err::<Experiment, GetAllExperimentsError>(
            GetAllExperimentsError::DistributionSum(
                DistributionSumError,
            ),
        ),
{
    let name = match ExperimentName::new(name) {
        Ok(name) => name,
        Err(e) => {
            return Err(GetAllExperimentsError::Name(e));
        },
    };
    let variants = match variants_from_rows(&variant_rows) {
        Ok(variants) => variants,
        Err(e) => {
            return Err(e);
        },
    };
    proof {
        assert(dists_of(variants@) =~= variant_rows@.map_values(
            |r: (u64, String)| r.0,
        ));
    }
    let validated = match ExperimentVariants::new(variants) {
        Ok(validated) => validated,
        Err(e) => {
            return Err(GetAllExperimentsError::DistributionSum(e));
        },
    };
    Ok(Experiment::new(id, name, validated, created_at, finished_at))
}

/// Whether stored variant rows, taken as variants, pass the distribution
/// validation.
pub open spec fn valid_rows(rows: Seq<(u64, String)>) -> bool {
    rows.len() > 0 && within_tolerance(
        sum_units(rows.map_values(|r: (u64, String)| r.0)),
    )
}

} // verus!
