//! The validated run configuration: one immutable record holding the
//! parameter axes, host-tuning flags, and capture/remote options for a
//! whole sweep.

use vstd::prelude::*;
use vstd::string::StringExecFns;
use crate::errors::Error;

verus! {

/// Whether the kernel module under test is reloaded around every sweep
/// point, or loaded a single time before the sweep.
#[derive(Clone, Copy, Debug, PartialEq, Eq, Structural)]
pub enum ModuleReloadPolicy {
    Always,
    Once,
}

/// The configuration record for one sweep. It is produced by an
/// external collaborator (command line and configuration files) and is
/// read-only for the lifetime of the sweep.
#[derive(Clone, Debug)]
pub struct Config {
    /// How many full passes over the sweep-point product to run.
    pub samples: u32,
    /// Measurement runtime in seconds.
    pub runtime: u32,
    /// Ramp time in seconds; zero means no ramp argument.
    pub ramp: u32,
    /// Name of the block device under test.
    pub device: String,
    /// The job-count axis.
    pub jobcounts: Vec<u32>,
    /// The workload-name axis.
    pub workloads: Vec<String>,
    /// The queue-depth axis.
    pub queue_depths: Vec<u32>,
    /// The block-size axis, as size strings.
    pub block_sizes: Vec<String>,
    /// Whether to run a preparation pass before each measurement.
    pub prep: bool,
    /// Path of the external benchmark binary.
    pub fio: String,
    /// Whether to drive the simulated block device's control-file tree.
    pub configure_c_nullblk: bool,
    /// Whether to disable AMD boost before the sweep.
    pub disable_boost_amd: bool,
    /// Whether to disable Intel turbo before the sweep.
    pub disable_boost_intel: bool,
    /// Whether to pin the AMD p-state driver to a fixed frequency ceiling.
    pub amd_pstate_fixed_3ghz: bool,
    /// Whether to select the performance frequency governor.
    pub cpufreq_governor_performance: bool,
    /// Whether to pass the high-priority flag to the benchmark.
    pub hipri: bool,
    /// Whether to size the huge-page pool and use huge-page-backed I/O
    /// memory.
    pub use_hugepages: bool,
    /// The kernel module to load around runs, if any.
    pub module: Option<String>,
    /// Extra arguments for module loading.
    pub module_args: Vec<String>,
    /// Load and unload through modprobe.
    pub modprobe: bool,
    /// Load through insmod and unload through rmmod.
    pub insmod: bool,
    /// Reload cadence for the module.
    pub module_reload_policy: ModuleReloadPolicy,
    /// Whether to archive the captured output on completion.
    pub compress: bool,
    /// Whether the benchmark verifies written data.
    pub verify: bool,
    /// Whether to capture output into a batch directory.
    pub capture: bool,
    /// Optional tag woven into the batch directory name.
    pub tag: Option<String>,
    /// Optional root under which the batch directory is created.
    pub output_path: Option<String>,
    /// Optional remote telemetry endpoint.
    pub remote: Option<String>,
}

/// The validation verdict for a configuration: the first violated rule,
/// in the fixed order the engine checks them.
pub open spec fn spec_validation(c: Config) -> Result<(), Error> {
    if c.insmod && c.modprobe {
        Err(Error::InsmodAndModprobe)
    } else if c.module is Some && !(c.insmod || c.modprobe) {
        Err(Error::ModuleWithoutLoader)
    } else if c.compress && !c.capture {
        Err(Error::CompressWithoutCapture)
    } else if c.remote is Some && !c.compress {
        Err(Error::RemoteWithoutCompress)
    } else if c.remote is Some && !c.capture {
        Err(Error::RemoteWithoutCapture)
    } else {
        Ok(())
    }
}

impl Config {
    /// Checks the configuration once, before any host mutation: exactly
    /// one load mechanism for a configured module, and capture implied
    /// by compression, which is in turn implied by a remote endpoint.
    pub fn verify(&self) -> (r: Result<(), Error>)
        ensures
            r == spec_validation(*self),
    {
        if self.insmod && self.modprobe {
            return Err(Error::InsmodAndModprobe);
        }
        if self.module.is_some() && !(self.insmod || self.modprobe) {
            return Err(Error::ModuleWithoutLoader);
        }
        if self.compress && !self.capture {
            return Err(Error::CompressWithoutCapture);
        }
        if self.remote.is_some() && !self.compress {
            return Err(Error::RemoteWithoutCompress);
        }
        if self.remote.is_some() && !self.capture {
            return Err(Error::RemoteWithoutCapture);
        }
        Ok(())
    }
}

impl Default for Config {
    /// The baseline configuration: thirty samples of thirty seconds
    /// with a ten-second ramp against /dev/null, one four-kibibyte
    /// read job at queue depth one, reloading the module around every
    /// point, with every optional behavior off.
    fn default() -> (r: Self)
        ensures
            r.samples == 30,
            r.runtime == 30,
            r.ramp == 10,
            r.device@ == "/dev/null"@,
            r.jobcounts@ == seq![1u32],
            r.workloads@.len() == 1 && r.workloads@[0]@ == "read"@,
            r.queue_depths@ == seq![1u32],
            r.block_sizes@.len() == 1 && r.block_sizes@[0]@ == "4k"@,
            !r.prep,
            r.fio@ == "fio"@,
            !r.configure_c_nullblk,
            !r.disable_boost_amd,
            !r.disable_boost_intel,
            !r.amd_pstate_fixed_3ghz,
            !r.cpufreq_governor_performance,
            !r.hipri,
            !r.use_hugepages,
            r.module is None,
            r.module_args@ == Seq::<String>::empty(),
            !r.modprobe,
            !r.insmod,
            r.module_reload_policy == ModuleReloadPolicy::Always,
            !r.compress,
            !r.verify,
            !r.capture,
            r.tag is None,
            r.output_path is None,
            r.remote is None,
    {
        let mut workloads: Vec<String> = Vec::new();
        workloads.push(String::from_str("read"));
        let mut block_sizes: Vec<String> = Vec::new();
        block_sizes.push(String::from_str("4k"));
        let mut jobcounts: Vec<u32> = Vec::new();
        jobcounts.push(1);
        let mut queue_depths: Vec<u32> = Vec::new();
        queue_depths.push(1);
        proof {
            assert(jobcounts@ =~= seq![1u32]);
            assert(queue_depths@ =~= seq![1u32]);
        }
        Config {
            samples: 30,
            runtime: 30,
            ramp: 10,
            device: String::from_str("/dev/null"),
            jobcounts,
            workloads,
            queue_depths,
            block_sizes,
            prep: false,
            fio: String::from_str("fio"),
            configure_c_nullblk: false,
            disable_boost_amd: false,
            disable_boost_intel: false,
            amd_pstate_fixed_3ghz: false,
            cpufreq_governor_performance: false,
            hipri: false,
            use_hugepages: false,
            module: None,
            module_args: Vec::new(),
            modprobe: false,
            insmod: false,
            module_reload_policy: ModuleReloadPolicy::Always,
            compress: false,
            verify: false,
            capture: false,
            tag: None,
            output_path: None,
            remote: None,
        }
    }
}

} // verus!
