//! Building the external benchmark invocation for one sweep point:
//! the run identifier, the preparation pass, and the measurement
//! argument list, each pinned to the exact text handed to the
//! benchmark binary.

use vstd::prelude::*;
use vstd::string::StringExecFns;
use crate::bytesize::{parse_block_size, spec_parse_block_size};
use crate::command::CommandSpec;
use crate::config::Config;
use crate::errors::Error;
use crate::strnum::{concat2, spec_dec, u32_to_string, u64_to_string};
use crate::sysstate::cmd_is;

verus! {

/// The identifier under which one run's artifacts are filed:
/// the job count, runtime, workload, block size and queue depth,
/// spelled into one name.
pub open spec fn spec_run_output_id(
    jobcount: u32,
    runtime: u32,
    workload: Seq<char>,
    block_size: Seq<char>,
    queue_depth: u32,
) -> Seq<char> {
    "j"@ + spec_dec(jobcount as nat) + "-r"@ + spec_dec(runtime as nat) + "-w"@ + workload + "-bs"@
        + block_size + "-qd"@ + spec_dec(queue_depth as nat)
}

/// Builds the run identifier.
pub fn run_output_id(
    jobcount: u32,
    runtime: u32,
    workload: &str,
    block_size: &str,
    queue_depth: u32,
) -> (r: String)
    ensures
        r@ == spec_run_output_id(jobcount, runtime, workload@, block_size@, queue_depth),
{
    let mut s = String::from_str("j");
    s.append(u32_to_string(jobcount).as_str());
    s.append("-r");
    s.append(u32_to_string(runtime).as_str());
    s.append("-w");
    s.append(workload);
    s.append("-bs");
    s.append(block_size);
    s.append("-qd");
    s.append(u32_to_string(queue_depth).as_str());
    s
}

/// One artifact path under a run directory: the directory, a
/// separator, the run identifier, and the artifact's suffix.
pub fn run_file_path(dir: &str, id: &str, suffix: &str) -> (r: String)
    ensures
        r@ == dir@ + "/"@ + id@ + suffix@,
{
    let mut s = String::from_str(dir);
    s.append("/");
    s.append(id);
    s.append(suffix);
    s
}

/// The fixed-shape preparation pass: one sequential write over the
/// whole raw device, direct, in four-kibibyte blocks.
pub fn prep_command(config: &Config) -> (r: CommandSpec)
    ensures
        cmd_is(
            r,
            config.fio@,
            seq![
                "--name=prep"@,
                "--rw=write"@,
                "--direct=1"@,
                "--bs=4k"@,
                "--filename=/dev/"@ + config.device@,
            ],
        ),
{
    let mut args: Vec<String> = Vec::new();
    args.push(String::from_str("--name=prep"));
    args.push(String::from_str("--rw=write"));
    args.push(String::from_str("--direct=1"));
    args.push(String::from_str("--bs=4k"));
    args.push(concat2("--filename=/dev/", config.device.as_str()));
    proof {
        assert(args.deep_view() =~= seq![
            "--name=prep"@,
            "--rw=write"@,
            "--direct=1"@,
            "--bs=4k"@,
            "--filename=/dev/"@ + config.device@,
        ]);
    }
    CommandSpec { program: config.fio.clone(), args }
}

/// The measurement argument list for one point: the fixed asynchronous
/// I/O engine and reporting options, the point's workload, block size
/// (in bytes), job count with a matching split CPU affinity, and
/// queue depth; then the optional ramp, the verifying or the
/// map-free randomization mode, the structured-output destination,
/// the high-priority flag, and the huge-page-backed memory options.
pub open spec fn spec_fio_args(
    c: Config,
    queue_depth: u32,
    block_size_bytes: u64,
    jobcount: u32,
    workload: Seq<char>,
    output_json: Option<Seq<char>>,
) -> Seq<Seq<char>> {
    let base = seq![
        "--group_reporting"@,
        "--name=default"@,
        "--filename=/dev/"@ + c.device@,
        "--time_based=1"@,
        "--runtime="@ + spec_dec(c.runtime as nat),
        "--gtod_reduce=1"@,
        "--clocksource=cpu"@,
        "--readwrite="@ + workload,
        "--blocksize="@ + spec_dec(block_size_bytes as nat),
        "--direct=1"@,
        "--cpus_allowed_policy=split"@,
        "--cpus_allowed=0-"@ + spec_dec((jobcount - 1) as nat),
        "--numjobs="@ + spec_dec(jobcount as nat),
        "--ioengine=io_uring"@,
        "--iodepth="@ + spec_dec(queue_depth as nat),
        "--fixedbufs=1"@,
        "--registerfiles=1"@,
        "--nonvectored=1"@,
    ];
    let with_ramp = if c.ramp != 0 {
        base + seq!["--ramp="@ + spec_dec(c.ramp as nat)]
    } else {
        base
    };
    let with_mode = if c.verify {
        with_ramp + seq!["--do_verify=1"@, "--verify=md5"@]
    } else {
        with_ramp + seq!["--norandommap"@, "--random_generator=lfsr"@]
    };
    let with_output = match output_json {
        Some(path) => with_mode + seq!["--output-format=json+"@, "--output="@ + path],
        None => with_mode,
    };
    let with_hipri = if c.hipri {
        with_output + seq!["--hipri=1"@]
    } else {
        with_output
    };
    if c.use_hugepages {
        with_hipri + seq!["--iomem=mmaphuge"@, "--hugepage-size=2m"@]
    } else {
        with_hipri
    }
}

/// Builds the measurement argument list for one point, parsing the
/// point's block-size string into bytes first; a string outside the
/// size grammar is the invalid-block-size error. The structured
/// output path is passed when capture is on — its presence drives
/// the output arguments, exactly as the presence of a run directory
/// does in the sweep.
#[verifier::rlimit(30)]
pub fn build_fio_args(
    config: &Config,
    queue_depth: u32,
    block_size: &str,
    jobcount: u32,
    workload: &str,
    output_json: Option<&String>,
) -> (r: Result<Vec<String>, Error>)
    requires
        jobcount >= 1,
    ensures
        spec_parse_block_size(block_size@) is None ==> r == Err::<Vec<String>, Error>(
            Error::InvalidBlockSize,
        ),
        spec_parse_block_size(block_size@) matches Some(bsz) ==> r matches Ok(v)
            && v.deep_view() == spec_fio_args(
            *config,
            queue_depth,
            bsz,
            jobcount,
            workload@,
            match output_json {
                Some(p) => Some(p@),
                None => None,
            },
        ),
{
    let block_size_bytes = match parse_block_size(block_size) {
        None => {
            return Err(Error::InvalidBlockSize);
        },
        Some(v) => v,
    };
    let mut args: Vec<String> = Vec::new();
    args.push(String::from_str("--group_reporting"));
    args.push(String::from_str("--name=default"));
    args.push(concat2("--filename=/dev/", config.device.as_str()));
    args.push(String::from_str("--time_based=1"));
    args.push(concat2("--runtime=", u32_to_string(config.runtime).as_str()));
    args.push(String::from_str("--gtod_reduce=1"));
    args.push(String::from_str("--clocksource=cpu"));
    args.push(concat2("--readwrite=", workload));
    args.push(concat2("--blocksize=", u64_to_string(block_size_bytes).as_str()));
    args.push(String::from_str("--direct=1"));
    args.push(String::from_str("--cpus_allowed_policy=split"));
    args.push(concat2("--cpus_allowed=0-", u32_to_string(jobcount - 1).as_str()));
    args.push(concat2("--numjobs=", u32_to_string(jobcount).as_str()));
    args.push(String::from_str("--ioengine=io_uring"));
    args.push(concat2("--iodepth=", u32_to_string(queue_depth).as_str()));
    args.push(String::from_str("--fixedbufs=1"));
    args.push(String::from_str("--registerfiles=1"));
    args.push(String::from_str("--nonvectored=1"));

    if config.ramp != 0 {
        args.push(concat2("--ramp=", u32_to_string(config.ramp).as_str()));
    }
    if config.verify {
        args.push(String::from_str("--do_verify=1"));
        args.push(String::from_str("--verify=md5"));
    } else {
        args.push(String::from_str("--norandommap"));
        args.push(String::from_str("--random_generator=lfsr"));
    }
    match output_json {
        Some(path) => {
            args.push(String::from_str("--output-format=json+"));
            args.push(concat2("--output=", path.as_str()));
        },
        None => {},
    }
    if config.hipri {
        args.push(String::from_str("--hipri=1"));
    }
    if config.use_hugepages {
        args.push(String::from_str("--iomem=mmaphuge"));
        args.push(String::from_str("--hugepage-size=2m"));
    }
    proof {
        assert(args.deep_view() =~= spec_fio_args(
            *config,
            queue_depth,
            block_size_bytes,
            jobcount,
            workload@,
            match output_json {
                Some(p) => Some(p@),
                None => None,
            },
        ));
    }
    Ok(args)
}

/// Whether the liveness watchdog owes the remote controller a ping:
/// true once more than sixty seconds of wall time have passed since
/// the last one.
pub fn should_ping(millis_since_last_ping: u64) -> (r: bool)
    ensures
        r == (millis_since_last_ping > 60000),
{
    millis_since_last_ping > 60000
}

} // verus!
