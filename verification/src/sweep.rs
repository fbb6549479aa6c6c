//! Sweep-point enumeration: the cartesian product of the configured
//! parameter axes, in the fixed observable order — block sizes
//! outermost, then job counts, then workloads, then queue depths
//! innermost.

use vstd::prelude::*;
use vstd::arithmetic::div_mod::{
    lemma_fundamental_div_mod_converse_div, lemma_fundamental_div_mod_converse_mod,
};
use vstd::string::StringExecFns;
use crate::command::CommandSpec;
use crate::config::{Config, ModuleReloadPolicy};
use crate::errors::Error;
use crate::hugepages::{calculate_nr_hugepages, spec_calculate_nr_hugepages};
use crate::strnum::spec_dec;
use crate::sysstate::{
    amd_pstate_fixed_3ghz, cmd_is, disable_boost_amd, disable_turbo_intel, load_module,
    nr_hugepages_write, set_governor, unload_module, write_is, ControlWrite, PstatePlan,
    RetriedCommand,
};
use crate::sysstate::{module_load_cmds_ok, module_unload_cmds_ok};

verus! {

/// One concrete workload configuration drawn from the four axes.
#[derive(Clone, Debug)]
pub struct SweepPoint {
    pub block_size: String,
    pub jobcount: u32,
    pub workload: String,
    pub queue_depth: u32,
}

/// The point that position i of the enumeration must hold: the
/// innermost axis is the queue depth, then the workload, then the job
/// count, and the block size changes slowest.
pub open spec fn spec_point_at(
    bss: Seq<String>,
    jcs: Seq<u32>,
    wls: Seq<String>,
    qds: Seq<u32>,
    i: int,
) -> SweepPoint {
    let rest1 = i / qds.len() as int;
    let rest2 = rest1 / wls.len() as int;
    SweepPoint {
        block_size: bss[rest2 / jcs.len() as int],
        jobcount: jcs[rest2 % jcs.len() as int],
        workload: wls[rest1 % wls.len() as int],
        queue_depth: qds[i % qds.len() as int],
    }
}

/// Unwinding the nested index: the position built from axis indices
/// decomposes back into exactly those indices.
proof fn lemma_mixed_radix(a: int, b: int, c: int, d: int, jn: int, wn: int, qn: int)
    requires
        0 <= a,
        0 <= b < jn,
        0 <= c < wn,
        0 <= d < qn,
    ensures
        (((a * jn + b) * wn + c) * qn + d) % qn == d,
        (((a * jn + b) * wn + c) * qn + d) / qn == (a * jn + b) * wn + c,
        ((a * jn + b) * wn + c) % wn == c,
        ((a * jn + b) * wn + c) / wn == a * jn + b,
        (a * jn + b) % jn == b,
        (a * jn + b) / jn == a,
{
    lemma_fundamental_div_mod_converse_mod(
        ((a * jn + b) * wn + c) * qn + d,
        qn,
        (a * jn + b) * wn + c,
        d,
    );
    lemma_fundamental_div_mod_converse_div(
        ((a * jn + b) * wn + c) * qn + d,
        qn,
        (a * jn + b) * wn + c,
        d,
    );
    lemma_fundamental_div_mod_converse_mod((a * jn + b) * wn + c, wn, a * jn + b, c);
    lemma_fundamental_div_mod_converse_div((a * jn + b) * wn + c, wn, a * jn + b, c);
    lemma_fundamental_div_mod_converse_mod(a * jn + b, jn, a, b);
    lemma_fundamental_div_mod_converse_div(a * jn + b, jn, a, b);
}

/// Enumerates every sweep point, in the order the sweep visits them:
/// the result has one point for each combination of the four axes,
/// and position i holds exactly the point whose axis indices are the
/// mixed-radix digits of i — the deterministic nested order with
/// block size outermost and queue depth innermost.
#[verifier::loop_isolation(false)]
pub fn enumerate_points(
    block_sizes: &Vec<String>,
    jobcounts: &Vec<u32>,
    workloads: &Vec<String>,
    queue_depths: &Vec<u32>,
) -> (r: Vec<SweepPoint>)
    ensures
        r@.len() == block_sizes@.len() * jobcounts@.len() * workloads@.len()
            * queue_depths@.len(),
        forall|i: int|
            0 <= i < r@.len() ==> #[trigger] r@[i] == spec_point_at(
                block_sizes@,
                jobcounts@,
                workloads@,
                queue_depths@,
                i,
            ),
{
    let ghost bn = block_sizes@.len() as int;
    let ghost jn = jobcounts@.len() as int;
    let ghost wn = workloads@.len() as int;
    let ghost qn = queue_depths@.len() as int;
    let mut r: Vec<SweepPoint> = Vec::new();
    let mut a: usize = 0;
    proof {
        assert(0 * jn * wn * qn == 0) by (nonlinear_arith);
    }
    while a < block_sizes.len()
        invariant
            0 <= a <= bn,
            r@.len() == a * jn * wn * qn,
            forall|i: int|
                0 <= i < r@.len() ==> #[trigger] r@[i] == spec_point_at(
                    block_sizes@,
                    jobcounts@,
                    workloads@,
                    queue_depths@,
                    i,
                ),
        decreases bn - a,
    {
        let mut b: usize = 0;
        while b < jobcounts.len()
            invariant
                0 <= b <= jn,
                a < bn,
                r@.len() == (a * jn + b) * wn * qn,
                forall|i: int|
                    0 <= i < r@.len() ==> #[trigger] r@[i] == spec_point_at(
                        block_sizes@,
                        jobcounts@,
                        workloads@,
                        queue_depths@,
                        i,
                    ),
            decreases jn - b,
        {
            let mut c: usize = 0;
            while c < workloads.len()
                invariant
                    0 <= c <= wn,
                    a < bn,
                    b < jn,
                    r@.len() == ((a * jn + b) * wn + c) * qn,
                    forall|i: int|
                        0 <= i < r@.len() ==> #[trigger] r@[i] == spec_point_at(
                            block_sizes@,
                            jobcounts@,
                            workloads@,
                            queue_depths@,
                            i,
                        ),
                decreases wn - c,
            {
                let mut d: usize = 0;
                while d < queue_depths.len()
                    invariant
                        0 <= d <= qn,
                        a < bn,
                        b < jn,
                        c < wn,
                        r@.len() == ((a * jn + b) * wn + c) * qn + d,
                        forall|i: int|
                            0 <= i < r@.len() ==> #[trigger] r@[i] == spec_point_at(
                                block_sizes@,
                                jobcounts@,
                                workloads@,
                                queue_depths@,
                                i,
                            ),
                    decreases qn - d,
                {
                    let point = SweepPoint {
                        block_size: block_sizes[a].clone(),
                        jobcount: jobcounts[b],
                        workload: workloads[c].clone(),
                        queue_depth: queue_depths[d],
                    };
                    proof {
                        lemma_mixed_radix(a as int, b as int, c as int, d as int, jn, wn, qn);
                    }
                    r.push(point);
                    d = d + 1;
                }
                c = c + 1;
                proof {
                    assert(((a * jn + b) * wn + (c - 1)) * qn + qn == ((a * jn + b) * wn + c)
                        * qn) by (nonlinear_arith);
                }
            }
            b = b + 1;
            proof {
                assert(((a * jn + (b - 1)) * wn + wn) * qn == ((a * jn + b) * wn)
                    * qn) by (nonlinear_arith);
            }
        }
        a = a + 1;
        proof {
            assert((((a - 1) * jn + jn) * wn) * qn == (a * jn) * wn * qn) by (nonlinear_arith);
        }
    }
    proof {
        assert((bn * jn + 0) * wn * qn == bn * jn * wn * qn);
    }
    r
}

/// The enumeration order, read forward: the point with axis indices
/// (a, b, c, d) stands at position ((a·J + b)·W + c)·Q + d, where J,
/// W and Q are the sizes of the job-count, workload and queue-depth
/// axes — nested lexicographic order over the four axes.
pub proof fn lemma_enumeration_order(
    bss: Seq<String>,
    jcs: Seq<u32>,
    wls: Seq<String>,
    qds: Seq<u32>,
    a: int,
    b: int,
    c: int,
    d: int,
)
    requires
        0 <= a < bss.len(),
        0 <= b < jcs.len(),
        0 <= c < wls.len(),
        0 <= d < qds.len(),
    ensures
        spec_point_at(
            bss,
            jcs,
            wls,
            qds,
            ((a * jcs.len() + b) * wls.len() + c) * qds.len() + d,
        ) == (SweepPoint {
            block_size: bss[a],
            jobcount: jcs[b],
            workload: wls[c],
            queue_depth: qds[d],
        }),
{
    lemma_mixed_radix(a, b, c, d, jcs.len() as int, wls.len() as int, qds.len() as int);
}

/// Everything the sweep does to the host once, before the first
/// sample, in execution order: best-effort cleanup of a stale
/// simulated device and a best-effort module unload (both ignore
/// failure — the host may be clean already), the one-time module
/// load under the "once" reload policy, then the CPU and huge-page
/// tuning that the configuration asks for. None of it is reverted
/// after the sweep.
pub struct PreSweepPlan {
    pub stale_device_cleanup: bool,
    pub best_effort_unloads: Vec<RetriedCommand>,
    pub once_loads: Vec<CommandSpec>,
    pub pstate: Option<PstatePlan>,
    pub governor: Option<CommandSpec>,
    pub boost_amd: Option<ControlWrite>,
    pub turbo_intel: Option<ControlWrite>,
    pub hugepages_count: Option<u64>,
    pub hugepages_write: Option<ControlWrite>,
}

/// Builds the sweep-wide plan. The only way it can fail is the
/// huge-page sizing, whose verdict it passes through unchanged.
pub fn pre_sweep_plan(config: &Config) -> (r: Result<PreSweepPlan, Error>)
    ensures
        config.use_hugepages && spec_calculate_nr_hugepages(*config) is Err ==> r == Err::<
            PreSweepPlan,
            Error,
        >(spec_calculate_nr_hugepages(*config)->Err_0),
        !(config.use_hugepages && spec_calculate_nr_hugepages(*config) is Err) ==> r is Ok,
        r matches Ok(p) ==> {
            &&& p.stale_device_cleanup == (config.device@ == "nullb0"@)
            &&& module_unload_cmds_ok(*config, p.best_effort_unloads@)
            &&& config.module_reload_policy == ModuleReloadPolicy::Once ==> module_load_cmds_ok(
                *config,
                p.once_loads@,
            )
            &&& config.module_reload_policy == ModuleReloadPolicy::Always
                ==> p.once_loads@.len() == 0
            &&& config.amd_pstate_fixed_3ghz ==> p.pstate is Some
            &&& !config.amd_pstate_fixed_3ghz ==> p.pstate is None
            &&& config.cpufreq_governor_performance ==> (p.governor matches Some(g) && cmd_is(
                g,
                "cpupower"@,
                seq!["frequency-set"@, "-g"@, "performance"@],
            ))
            &&& !config.cpufreq_governor_performance ==> p.governor is None
            &&& config.disable_boost_amd ==> (p.boost_amd matches Some(w) && write_is(
                w,
                "/sys/devices/system/cpu/cpufreq/boost"@,
                "0\n"@,
            ))
            &&& !config.disable_boost_amd ==> p.boost_amd is None
            &&& config.disable_boost_intel ==> (p.turbo_intel matches Some(w) && write_is(
                w,
                "/sys/devices/system/cpu/intel_pstate/no_turbo"@,
                "1\n"@,
            ))
            &&& !config.disable_boost_intel ==> p.turbo_intel is None
            &&& config.use_hugepages ==> {
                &&& spec_calculate_nr_hugepages(*config) matches Ok(n)
                &&& p.hugepages_count == Some(n)
                &&& (p.hugepages_write matches Some(w) && write_is(
                    w,
                    "/proc/sys/vm/nr_hugepages"@,
                    spec_dec(n as nat) + "\n"@,
                ))
            }
            &&& !config.use_hugepages ==> p.hugepages_count is None && p.hugepages_write is None
        },
{
    let stale_device_cleanup = config.device == String::from_str("nullb0");
    let best_effort_unloads = unload_module(config);
    let once_loads = match config.module_reload_policy {
        ModuleReloadPolicy::Once => load_module(config),
        ModuleReloadPolicy::Always => Vec::new(),
    };
    let pstate = if config.amd_pstate_fixed_3ghz {
        Some(amd_pstate_fixed_3ghz())
    } else {
        None
    };
    let governor = if config.cpufreq_governor_performance {
        Some(set_governor())
    } else {
        None
    };
    let boost_amd = if config.disable_boost_amd {
        Some(disable_boost_amd())
    } else {
        None
    };
    let turbo_intel = if config.disable_boost_intel {
        Some(disable_turbo_intel())
    } else {
        None
    };
    let (hugepages_count, hugepages_write) = if config.use_hugepages {
        match calculate_nr_hugepages(config) {
            Err(e) => {
                return Err(e);
            },
            Ok(n) => (Some(n), Some(nr_hugepages_write(n))),
        }
    } else {
        (None, None)
    };
    Ok(
        PreSweepPlan {
            stale_device_cleanup,
            best_effort_unloads,
            once_loads,
            pstate,
            governor,
            boost_amd,
            turbo_intel,
            hugepages_count,
            hugepages_write,
        },
    )
}

/// The number of runs a whole sweep performs: the sample count times
/// the number of sweep points, or nothing when that total does not
/// fit the machine word.
pub fn total_configs(samples: u32, point_count: usize) -> (r: Option<u64>)
    ensures
        samples as int * point_count as int <= u64::MAX ==> r == Some(
            (samples as int * point_count as int) as u64,
        ),
        samples as int * point_count as int > u64::MAX ==> r is None,
{
    let s = samples as u64;
    if point_count == 0 {
        return Some(0);
    }
    let p = point_count as u64;
    if s > u64::MAX / p {
        proof {
            crate::hugepages::lemma_mul_le_via_div(s as int, p as int, u64::MAX as int);
        }
        return None;
    }
    proof {
        crate::hugepages::lemma_mul_le_via_div(s as int, p as int, u64::MAX as int);
    }
    Some(s * p)
}

} // verus!
