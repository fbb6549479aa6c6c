//! Huge-page pool sizing.
//!
//! The benchmark tool sizes its huge-page-backed I/O memory with a
//! deliberately repeated two-stage rounding: per-job memory is the
//! block size times the queue depth, padded by one ordinary page mask
//! and rounded up to the next huge-page boundary — twice — then
//! multiplied by the job count and divided, rounding up, by the
//! huge-page size. The pool must cover that requirement, so the
//! calculation here mirrors it exactly rather than simplifying it.

use vstd::prelude::*;
use vstd::arithmetic::div_mod::{
    lemma_div_by_multiple, lemma_div_is_ordered, lemma_fundamental_div_mod,
    lemma_mod_multiples_basic,
};
use crate::bytesize::{parse_block_size, spec_parse_block_size};
use crate::config::Config;
use crate::errors::Error;

verus! {

/// Bytes in one ordinary page.
pub open spec fn page_size() -> int {
    4096
}

/// Bytes in one huge page.
pub open spec fn huge_page_size() -> int {
    2097152
}

/// Division rounding toward positive infinity.
pub open spec fn spec_div_ceil(a: int, b: int) -> int
    recommends
        a >= 0,
        b > 0,
{
    a / b + if a % b == 0 {
        0int
    } else {
        1int
    }
}

/// The next huge-page boundary at or above a byte count.
pub open spec fn round_up_huge(x: int) -> int
    recommends
        x >= 0,
{
    ((x + (huge_page_size() - 1)) / huge_page_size()) * huge_page_size()
}

/// The memory one job reserves: block size times queue depth, padded
/// by a page mask and rounded to a huge-page boundary, twice over.
pub open spec fn spec_per_job_mem(block_size: int, queue_depth: int) -> int {
    round_up_huge(round_up_huge(block_size * queue_depth + (page_size() - 1)) + (page_size() - 1))
}

/// The number of huge pages required for a whole run at one point:
/// the per-job memory times the job count, in huge pages, rounded up.
pub open spec fn spec_nr_hugepages(queue_depth: int, block_size: int, jobcount: int) -> int {
    spec_div_ceil(jobcount * spec_per_job_mem(block_size, queue_depth), huge_page_size())
}

/// Rounding up to a huge-page boundary stays within one huge page of
/// the input and lands on a multiple of the huge-page size.
pub proof fn lemma_round_up_huge_bounds(x: int)
    requires
        x >= 0,
    ensures
        x <= round_up_huge(x) < x + huge_page_size(),
        round_up_huge(x) % huge_page_size() == 0,
{
    let h = huge_page_size();
    let q = (x + h - 1) / h;
    lemma_fundamental_div_mod(x + h - 1, h);
    lemma_mod_multiples_basic(q, h);
}

/// The huge-page requirement is linear in the job count: at a fixed
/// block size and queue depth, a run with n jobs needs exactly n times
/// the pages of a run with one job. This holds because the per-job
/// memory is already a whole number of huge pages.
pub proof fn lemma_hugepages_linear_in_jobs(queue_depth: int, block_size: int, jobcount: int)
    requires
        queue_depth >= 0,
        block_size >= 0,
        jobcount >= 0,
    ensures
        spec_nr_hugepages(queue_depth, block_size, jobcount) == jobcount * spec_nr_hugepages(
            queue_depth,
            block_size,
            1,
        ),
{
    let h = huge_page_size();
    let p = spec_per_job_mem(block_size, queue_depth);
    assert(block_size * queue_depth >= 0) by (nonlinear_arith)
        requires
            block_size >= 0,
            queue_depth >= 0,
    ;
    lemma_round_up_huge_bounds(block_size * queue_depth + (page_size() - 1));
    lemma_round_up_huge_bounds(
        round_up_huge(block_size * queue_depth + (page_size() - 1)) + (page_size() - 1),
    );
    let m = p / h;
    lemma_fundamental_div_mod(p, h);
    assert(p == m * h);
    assert(jobcount * p == (jobcount * m) * h) by (nonlinear_arith)
        requires
            p == m * h,
    ;
    lemma_mod_multiples_basic(jobcount * m, h);
    lemma_div_by_multiple(jobcount * m, h);
    lemma_mod_multiples_basic(m, h);
    lemma_div_by_multiple(m, h);
    assert(spec_nr_hugepages(queue_depth, block_size, jobcount) == jobcount * m);
    assert(spec_nr_hugepages(queue_depth, block_size, 1) == m);
}

/// The padding the per-job calculation adds before its two roundings:
/// the widest growth the intermediate sum can see.
pub open spec fn rounding_headroom() -> int {
    2 * (page_size() + huge_page_size() - 2)
}

/// Whether every intermediate product of the huge-page calculation
/// fits the machine word for these inputs.
pub open spec fn hugepage_inputs_fit(queue_depth: u64, block_size: u64, jobcount: u64) -> bool {
    &&& block_size * queue_depth + rounding_headroom() <= u64::MAX
    &&& jobcount * spec_per_job_mem(block_size as int, queue_depth as int) <= u64::MAX
}

/// For a positive factor, a product stays under a bound exactly when
/// the other factor stays under the divided bound.
pub proof fn lemma_mul_le_via_div(a: int, b: int, m: int)
    requires
        b >= 1,
        m >= 0,
        a >= 0,
    ensures
        a <= m / b ==> a * b <= m,
        a * b <= m ==> a <= m / b,
{
    if a <= m / b {
        lemma_fundamental_div_mod(m, b);
        assert((m / b) * b <= m);
        assert(a * b <= (m / b) * b) by (nonlinear_arith)
            requires
                a <= m / b,
                b >= 1,
        ;
    }
    if a * b <= m {
        lemma_div_by_multiple(a, b);
        lemma_div_is_ordered(a * b, m, b);
    }
}

fn compute_per_job_mem(block_size: u64, queue_depth: u64) -> (r: u64)
    requires
        block_size * queue_depth + rounding_headroom() <= u64::MAX,
    ensures
        r == spec_per_job_mem(block_size as int, queue_depth as int),
        r >= huge_page_size(),
{
    let page_mask: u64 = 4095;
    let huge: u64 = 2097152;
    let huge_mask: u64 = 2097151;

    let mut per_job_mem = block_size * queue_depth;
    per_job_mem = per_job_mem + page_mask;
    proof {
        lemma_round_up_huge_bounds(per_job_mem as int);
    }
    per_job_mem = ((per_job_mem + huge_mask) / huge) * huge;
    per_job_mem = per_job_mem + page_mask;
    proof {
        lemma_round_up_huge_bounds(per_job_mem as int);
    }
    per_job_mem = ((per_job_mem + huge_mask) / huge) * huge;
    per_job_mem
}

/// The huge-page calculation on one concrete point. The precondition
/// only keeps every intermediate product inside the machine word; the
/// sweep-wide entry point checks it before calling.
pub fn calculate_nr_hugepages_int(queue_depth: u64, block_size: u64, jobcount: u64) -> (r: Result<
    u64,
    Error,
>)
    requires
        hugepage_inputs_fit(queue_depth, block_size, jobcount),
    ensures
        r == Ok::<u64, Error>(
            spec_nr_hugepages(queue_depth as int, block_size as int, jobcount as int) as u64,
        ),
{
    let huge: u64 = 2097152;
    let per_job_mem = compute_per_job_mem(block_size, queue_depth);
    let required_mem = jobcount * per_job_mem;
    let num_pages = required_mem / huge + if required_mem % huge == 0 {
        0
    } else {
        1
    };
    Ok(num_pages)
}

/// The largest value in a sequence, or zero when it is empty.
pub open spec fn seq_max(s: Seq<u64>) -> u64
    decreases s.len(),
{
    if s.len() == 0 {
        0u64
    } else {
        let m = seq_max(s.drop_last());
        if s.last() > m {
            s.last()
        } else {
            m
        }
    }
}

/// A sequence of 32-bit values widened to the machine word.
pub open spec fn widened(s: Seq<u32>) -> Seq<u64> {
    s.map_values(|x: u32| x as u64)
}

/// Whether every block-size string of an axis follows the size grammar.
pub open spec fn all_sizes_parse(bss: Seq<String>) -> bool {
    forall|i: int| 0 <= i < bss.len() ==> spec_parse_block_size(bss[i]@) is Some
}

/// The parsed values of a block-size axis.
pub open spec fn parsed_sizes(bss: Seq<String>) -> Seq<u64> {
    Seq::new(bss.len(), |i: int| spec_parse_block_size(bss[i]@)->0)
}

/// The verdict of the sweep-wide huge-page sizing: the first violated
/// precondition in the order the engine checks them, or the per-point
/// calculation evaluated at the maximum block size, maximum queue
/// depth, and maximum job count across the configured axes, each
/// taken independently.
pub open spec fn spec_calculate_nr_hugepages(c: Config) -> Result<u64, Error> {
    if c.jobcounts@.len() == 0 {
        Err(Error::JobcountsEmpty)
    } else if !all_sizes_parse(c.block_sizes@) {
        Err(Error::InvalidBlockSize)
    } else if c.block_sizes@.len() == 0 {
        Err(Error::BlockSizesEmpty)
    } else if c.queue_depths@.len() == 0 {
        Err(Error::QueueDepthsEmpty)
    } else {
        let max_qd = seq_max(widened(c.queue_depths@));
        let max_bs = seq_max(parsed_sizes(c.block_sizes@));
        let max_jc = seq_max(widened(c.jobcounts@));
        if hugepage_inputs_fit(max_qd, max_bs, max_jc) {
            Ok(spec_nr_hugepages(max_qd as int, max_bs as int, max_jc as int) as u64)
        } else {
            Err(Error::HugepageCalcTooLarge)
        }
    }
}

/// The sweep-wide huge-page requirement: the per-point calculation at
/// the axis maxima, taken independently — the host-wide pool must
/// cover the worst case of the whole sweep, not any single
/// co-occurring point.
#[verifier::loop_isolation(false)]
pub fn calculate_nr_hugepages(config: &Config) -> (r: Result<u64, Error>)
    ensures
        r == spec_calculate_nr_hugepages(*config),
{
    if config.jobcounts.len() == 0 {
        return Err(Error::JobcountsEmpty);
    }
    let mut max_jc: u64 = config.jobcounts[0] as u64;
    let mut i: usize = 1;
    proof {
        assert(widened(config.jobcounts@).take(1).drop_last() =~= Seq::<u64>::empty());
        assert(widened(config.jobcounts@).take(1).last() == config.jobcounts@[0] as u64);
        assert(widened(config.jobcounts@).take(1).len() == 1);
        assert(seq_max(Seq::<u64>::empty()) == 0);
        assert(seq_max(widened(config.jobcounts@).take(1)) == config.jobcounts@[0] as u64);
    }
    while i < config.jobcounts.len()
        invariant
            1 <= i <= config.jobcounts@.len(),
            max_jc == seq_max(widened(config.jobcounts@).take(i as int)),
        decreases config.jobcounts@.len() - i,
    {
        let x = config.jobcounts[i] as u64;
        proof {
            assert(widened(config.jobcounts@).take(i + 1).drop_last() =~= widened(
                config.jobcounts@,
            ).take(i as int));
        }
        if x > max_jc {
            max_jc = x;
        }
        i = i + 1;
    }
    proof {
        assert(widened(config.jobcounts@).take(config.jobcounts@.len() as int) =~= widened(
            config.jobcounts@,
        ));
    }

    let mut max_bs: u64 = 0;
    let mut i: usize = 0;
    while i < config.block_sizes.len()
        invariant
            0 <= i <= config.block_sizes@.len(),
            forall|j: int|
                0 <= j < i ==> spec_parse_block_size(config.block_sizes@[j]@) is Some,
            max_bs == seq_max(parsed_sizes(config.block_sizes@).take(i as int)),
        decreases config.block_sizes@.len() - i,
    {
        let parsed = parse_block_size(config.block_sizes[i].as_str());
        proof {
            assert(parsed_sizes(config.block_sizes@).take(i + 1).drop_last() =~= parsed_sizes(
                config.block_sizes@,
            ).take(i as int));
        }
        match parsed {
            None => {
                return Err(Error::InvalidBlockSize);
            },
            Some(v) => {
                if v > max_bs {
                    max_bs = v;
                }
            },
        }
        i = i + 1;
    }
    proof {
        assert(parsed_sizes(config.block_sizes@).take(config.block_sizes@.len() as int)
            =~= parsed_sizes(config.block_sizes@));
    }
    if config.block_sizes.len() == 0 {
        return Err(Error::BlockSizesEmpty);
    }

    if config.queue_depths.len() == 0 {
        return Err(Error::QueueDepthsEmpty);
    }
    let mut max_qd: u64 = config.queue_depths[0] as u64;
    let mut i: usize = 1;
    proof {
        assert(widened(config.queue_depths@).take(1).drop_last() =~= Seq::<u64>::empty());
        assert(widened(config.queue_depths@).take(1).last() == config.queue_depths@[0] as u64);
        assert(widened(config.queue_depths@).take(1).len() == 1);
        assert(seq_max(Seq::<u64>::empty()) == 0);
        assert(seq_max(widened(config.queue_depths@).take(1)) == config.queue_depths@[0] as u64);
    }
    while i < config.queue_depths.len()
        invariant
            1 <= i <= config.queue_depths@.len(),
            max_qd == seq_max(widened(config.queue_depths@).take(i as int)),
        decreases config.queue_depths@.len() - i,
    {
        let x = config.queue_depths[i] as u64;
        proof {
            assert(widened(config.queue_depths@).take(i + 1).drop_last() =~= widened(
                config.queue_depths@,
            ).take(i as int));
        }
        if x > max_qd {
            max_qd = x;
        }
        i = i + 1;
    }
    proof {
        assert(widened(config.queue_depths@).take(config.queue_depths@.len() as int) =~= widened(
            config.queue_depths@,
        ));
    }

    // Guard the machine-word bounds before the unchecked calculation.
    let headroom: u64 = 2 * (4096 + 2097152 - 2);
    if max_qd > 0 && max_bs > (u64::MAX - headroom) / max_qd {
        proof {
            lemma_mul_le_via_div(max_bs as int, max_qd as int, (u64::MAX - headroom) as int);
        }
        return Err(Error::HugepageCalcTooLarge);
    }
    proof {
        if max_qd > 0 {
            lemma_mul_le_via_div(max_bs as int, max_qd as int, (u64::MAX - headroom) as int);
        } else {
            assert(max_bs * max_qd == 0) by (nonlinear_arith)
                requires
                    max_qd == 0,
            ;
        }
    }
    let per_job = compute_per_job_mem(max_bs, max_qd);
    if max_jc > u64::MAX / per_job {
        proof {
            lemma_mul_le_via_div(max_jc as int, per_job as int, u64::MAX as int);
        }
        return Err(Error::HugepageCalcTooLarge);
    }
    proof {
        lemma_mul_le_via_div(max_jc as int, per_job as int, u64::MAX as int);
    }
    calculate_nr_hugepages_int(max_qd, max_bs, max_jc)
}

} // verus!
