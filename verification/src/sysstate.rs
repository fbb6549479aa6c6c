//! The system state manager: the host mutations that bracket every
//! measurement, described as exact plans.
//!
//! Each function here computes what must be done to the host — which
//! commands to run, which control files to write, in which order —
//! with a contract pinning every path, argument, and value. The
//! surrounding application code performs the plans; performing them
//! is plain input/output with no decisions left to make.

use vstd::prelude::*;
use vstd::string::StringExecFns;
use crate::command::CommandSpec;
use crate::config::{Config, ModuleReloadPolicy};
use crate::errors::Error;
use crate::strnum::{concat2, concat3, spec_dec, u64_to_string};

verus! {

/// One single-value control-file write: a path and the literal text
/// written to it.
#[derive(Clone, Debug)]
pub struct ControlWrite {
    pub path: String,
    pub value: String,
}

/// A command to be run through the retrying executor.
#[derive(Clone, Debug)]
pub struct RetriedCommand {
    pub command: CommandSpec,
    pub max_attempts: u32,
    pub delay_secs: u64,
}

/// Whether a command is exactly this program with these arguments.
pub open spec fn cmd_is(cmd: CommandSpec, program: Seq<char>, args: Seq<Seq<char>>) -> bool {
    &&& cmd.program@ == program
    &&& cmd.args.deep_view() == args
}

/// Whether a write is exactly this path and this value.
pub open spec fn write_is(w: ControlWrite, path: Seq<char>, value: Seq<char>) -> bool {
    &&& w.path@ == path
    &&& w.value@ == value
}

fn strings_with_head(head: &String, tail: &Vec<String>) -> (r: Vec<String>)
    ensures
        r.deep_view() == seq![head@] + tail.deep_view(),
{
    let mut r: Vec<String> = Vec::new();
    r.push(head.clone());
    let mut i: usize = 0;
    while i < tail.len()
        invariant
            0 <= i <= tail@.len(),
            r@.len() == 1 + i,
            r@[0] == *head,
            forall|j: int| 0 <= j < i ==> r@[1 + j] == tail@[j],
        decreases tail@.len() - i,
    {
        r.push(tail[i].clone());
        i = i + 1;
    }
    proof {
        assert(r.deep_view() =~= seq![head@] + tail.deep_view());
    }
    r
}

/// The commands that load the configured module, in the order they
/// are run: nothing without a module; the insmod call, the modprobe
/// call, or both, each passing the module and its extra arguments.
pub open spec fn module_load_cmds_ok(c: Config, v: Seq<CommandSpec>) -> bool {
    match c.module {
        None => v.len() == 0,
        Some(m) => {
            let n_ins: int = if c.insmod {
                1
            } else {
                0
            };
            let n_mod: int = if c.modprobe {
                1
            } else {
                0
            };
            &&& v.len() == n_ins + n_mod
            &&& c.insmod ==> cmd_is(v[0], "insmod"@, seq![m@] + c.module_args.deep_view())
            &&& c.modprobe ==> cmd_is(v[n_ins], "modprobe"@, seq![m@] + c.module_args.deep_view())
        },
    }
}

/// The commands that unload the configured module, in order: rmmod
/// for the insmod choice, modprobe -r for the modprobe choice, each
/// run through the retrying executor with three attempts one second
/// apart, because module removal can transiently fail while
/// references drain.
pub open spec fn module_unload_cmds_ok(c: Config, v: Seq<RetriedCommand>) -> bool {
    match c.module {
        None => v.len() == 0,
        Some(m) => {
            let n_ins: int = if c.insmod {
                1
            } else {
                0
            };
            let n_mod: int = if c.modprobe {
                1
            } else {
                0
            };
            &&& v.len() == n_ins + n_mod
            &&& forall|i: int|
                0 <= i < v.len() ==> #[trigger] v[i].max_attempts == 3 && v[i].delay_secs == 1
            &&& c.insmod ==> cmd_is(v[0].command, "rmmod"@, seq![m@])
            &&& c.modprobe ==> cmd_is(v[n_ins].command, "modprobe"@, seq!["-r"@, m@])
        },
    }
}

/// Builds the module-load commands for this configuration.
pub fn load_module(config: &Config) -> (r: Vec<CommandSpec>)
    ensures
        module_load_cmds_ok(*config, r@),
{
    let mut r: Vec<CommandSpec> = Vec::new();
    match &config.module {
        None => {},
        Some(module) => {
            if config.insmod {
                let args = strings_with_head(module, &config.module_args);
                r.push(CommandSpec { program: String::from_str("insmod"), args });
            }
            if config.modprobe {
                let args = strings_with_head(module, &config.module_args);
                r.push(CommandSpec { program: String::from_str("modprobe"), args });
            }
        },
    }
    r
}

/// Builds the module-unload commands for this configuration.
pub fn unload_module(config: &Config) -> (r: Vec<RetriedCommand>)
    ensures
        module_unload_cmds_ok(*config, r@),
{
    let mut r: Vec<RetriedCommand> = Vec::new();
    match &config.module {
        None => {},
        Some(module) => {
            if config.insmod {
                let mut args: Vec<String> = Vec::new();
                args.push(module.clone());
                proof {
                    assert(args.deep_view() =~= seq![module@]);
                }
                r.push(
                    RetriedCommand {
                        command: CommandSpec { program: String::from_str("rmmod"), args },
                        max_attempts: 3,
                        delay_secs: 1,
                    },
                );
            }
            if config.modprobe {
                let mut args: Vec<String> = Vec::new();
                args.push(String::from_str("-r"));
                args.push(module.clone());
                proof {
                    assert(args.deep_view() =~= seq!["-r"@, module@]);
                }
                r.push(
                    RetriedCommand {
                        command: CommandSpec { program: String::from_str("modprobe"), args },
                        max_attempts: 3,
                        delay_secs: 1,
                    },
                );
            }
        },
    }
    r
}

/// The command that selects the performance frequency governor.
pub fn set_governor() -> (r: CommandSpec)
    ensures
        cmd_is(r, "cpupower"@, seq!["frequency-set"@, "-g"@, "performance"@]),
{
    let mut args: Vec<String> = Vec::new();
    args.push(String::from_str("frequency-set"));
    args.push(String::from_str("-g"));
    args.push(String::from_str("performance"));
    proof {
        assert(args.deep_view() =~= seq!["frequency-set"@, "-g"@, "performance"@]);
    }
    CommandSpec { program: String::from_str("cpupower"), args }
}

/// The write that disables AMD boost.
pub fn disable_boost_amd() -> (r: ControlWrite)
    ensures
        write_is(r, "/sys/devices/system/cpu/cpufreq/boost"@, "0\n"@),
{
    ControlWrite {
        path: String::from_str("/sys/devices/system/cpu/cpufreq/boost"),
        value: String::from_str("0\n"),
    }
}

/// The write that disables Intel turbo.
pub fn disable_turbo_intel() -> (r: ControlWrite)
    ensures
        write_is(r, "/sys/devices/system/cpu/intel_pstate/no_turbo"@, "1\n"@),
{
    ControlWrite {
        path: String::from_str("/sys/devices/system/cpu/intel_pstate/no_turbo"),
        value: String::from_str("1\n"),
    }
}

/// Pinning the AMD p-state driver: set guided mode, select the
/// performance governor, disable boost, and then write the fixed
/// ceiling to every per-policy scaling file discovered on the host.
pub struct PstatePlan {
    pub status_write: ControlWrite,
    pub governor: CommandSpec,
    pub boost_write: ControlWrite,
}

/// The fixed part of the p-state pinning, in the order it is applied;
/// the per-policy frequency writes follow it, over whatever policy
/// files the host has.
pub fn amd_pstate_fixed_3ghz() -> (r: PstatePlan)
    ensures
        write_is(r.status_write, "/sys/devices/system/cpu/amd_pstate/status"@, "guided"@),
        cmd_is(r.governor, "cpupower"@, seq!["frequency-set"@, "-g"@, "performance"@]),
        write_is(r.boost_write, "/sys/devices/system/cpu/cpufreq/boost"@, "0\n"@),
{
    PstatePlan {
        status_write: ControlWrite {
            path: String::from_str("/sys/devices/system/cpu/amd_pstate/status"),
            value: String::from_str("guided"),
        },
        governor: set_governor(),
        boost_write: disable_boost_amd(),
    }
}

/// The per-policy frequency-ceiling writes: the fixed maximum
/// frequency into each discovered scaling file.
pub fn pstate_policy_writes(paths: &Vec<String>) -> (r: Vec<ControlWrite>)
    ensures
        r@.len() == paths@.len(),
        forall|i: int|
            0 <= i < r@.len() ==> #[trigger] r@[i].path == paths@[i] && r@[i].value@
                == "3000000\n"@,
{
    let mut r: Vec<ControlWrite> = Vec::new();
    let mut i: usize = 0;
    while i < paths.len()
        invariant
            0 <= i <= paths@.len(),
            r@.len() == i,
            forall|j: int|
                0 <= j < i ==> #[trigger] r@[j].path == paths@[j] && r@[j].value@ == "3000000\n"@,
        decreases paths@.len() - i,
    {
        r.push(
            ControlWrite { path: paths[i].clone(), value: String::from_str("3000000\n") },
        );
        proof {
            assert(r@[i as int].path == paths@[i as int]);
            assert(r@[i as int].value@ == "3000000\n"@);
        }
        i = i + 1;
    }
    r
}

/// The root of the simulated block device's control-file tree.
pub fn nullb_control_root() -> (r: String)
    ensures
        r@ == "/sys/kernel/config/nullb"@,
{
    String::from_str("/sys/kernel/config/nullb")
}

/// The control directory and the control-file writes that instantiate
/// one simulated block device.
pub struct DeviceSetup {
    pub control_dir: String,
    pub writes: Vec<ControlWrite>,
}

/// The exact device-instantiation sequence: create the control
/// directory named after the device, then write the nine control
/// files in this order, with "power" — which instantiates the device
/// — strictly last.
pub open spec fn device_setup_ok(name: Seq<char>, d: DeviceSetup) -> bool {
    let dir = "/sys/kernel/config/nullb/"@ + name;
    &&& d.control_dir@ == dir
    &&& d.writes@.len() == 9
    &&& write_is(d.writes@[0], dir + "/blocksize"@, "4096"@)
    &&& write_is(d.writes@[1], dir + "/completion_nsec"@, "0"@)
    &&& write_is(d.writes@[2], dir + "/irqmode"@, "0"@)
    &&& write_is(d.writes@[3], dir + "/queue_mode"@, "2"@)
    &&& write_is(d.writes@[4], dir + "/hw_queue_depth"@, "256"@)
    &&& write_is(d.writes@[5], dir + "/memory_backed"@, "1"@)
    &&& write_is(d.writes@[6], dir + "/size"@, "4096"@)
    &&& write_is(d.writes@[7], dir + "/poll_queues"@, "0"@)
    &&& write_is(d.writes@[8], dir + "/power"@, "1"@)
}

fn control_file_write(dir: &str, file: &str, value: &str) -> (r: ControlWrite)
    ensures
        write_is(r, dir@ + file@, value@),
{
    ControlWrite { path: concat2(dir, file), value: String::from_str(value) }
}

/// Builds the plan that configures one simulated block device: no
/// I/O-engine defaults are left to the kernel; block size, latency,
/// IRQ and queue mode, hardware queue depth, memory backing,
/// capacity and poll queues are all pinned, and the device is powered
/// on last.
pub fn setup_cnull(name: &str) -> (r: DeviceSetup)
    ensures
        device_setup_ok(name@, r),
{
    let dir = concat2("/sys/kernel/config/nullb/", name);
    let mut writes: Vec<ControlWrite> = Vec::new();
    writes.push(control_file_write(dir.as_str(), "/blocksize", "4096"));
    writes.push(control_file_write(dir.as_str(), "/completion_nsec", "0"));
    writes.push(control_file_write(dir.as_str(), "/irqmode", "0"));
    writes.push(control_file_write(dir.as_str(), "/queue_mode", "2"));
    writes.push(control_file_write(dir.as_str(), "/hw_queue_depth", "256"));
    writes.push(control_file_write(dir.as_str(), "/memory_backed", "1"));
    writes.push(control_file_write(dir.as_str(), "/size", "4096"));
    writes.push(control_file_write(dir.as_str(), "/poll_queues", "0"));
    writes.push(control_file_write(dir.as_str(), "/power", "1"));
    DeviceSetup { control_dir: dir, writes }
}

/// The write that hands the device's queue to no scheduler.
pub fn set_block_scheduler(device: &str) -> (r: ControlWrite)
    ensures
        write_is(r, "/sys/block/"@ + device@ + "/queue/scheduler"@, "none"@),
{
    ControlWrite {
        path: concat3("/sys/block/", device, "/queue/scheduler"),
        value: String::from_str("none"),
    }
}

/// The write that turns the device's I/O statistics off.
pub fn disable_iostats(device: &str) -> (r: ControlWrite)
    ensures
        write_is(r, "/sys/block/"@ + device@ + "/queue/iostats"@, "0"@),
{
    ControlWrite {
        path: concat3("/sys/block/", device, "/queue/iostats"),
        value: String::from_str("0"),
    }
}

/// The write that sizes the system huge-page pool.
pub fn nr_hugepages_write(nr: u64) -> (r: ControlWrite)
    ensures
        write_is(r, "/proc/sys/vm/nr_hugepages"@, spec_dec(nr as nat) + "\n"@),
{
    let count = u64_to_string(nr);
    ControlWrite {
        path: String::from_str("/proc/sys/vm/nr_hugepages"),
        value: concat2(count.as_str(), "\n"),
    }
}

/// Whether a character is whitespace as the readback check ignores it.
pub open spec fn is_ws(c: char) -> bool {
    c == ' ' || c == '\n' || c == '\t' || c == '\r'
}

/// The sequence with its leading whitespace removed.
pub open spec fn drop_leading_ws(s: Seq<char>) -> Seq<char>
    decreases s.len(),
{
    if s.len() > 0 && is_ws(s[0]) {
        drop_leading_ws(s.drop_first())
    } else {
        s
    }
}

/// The sequence with its trailing whitespace removed.
pub open spec fn drop_trailing_ws(s: Seq<char>) -> Seq<char>
    decreases s.len(),
{
    if s.len() > 0 && is_ws(s.last()) {
        drop_trailing_ws(s.drop_last())
    } else {
        s
    }
}

/// The sequence with whitespace removed from both ends.
pub open spec fn trimmed_ws(s: Seq<char>) -> Seq<char> {
    drop_trailing_ws(drop_leading_ws(s))
}

proof fn lemma_drop_leading_ws_at(s: Seq<char>, i: int)
    requires
        0 <= i <= s.len(),
        forall|j: int| 0 <= j < i ==> is_ws(s[j]),
        i < s.len() ==> !is_ws(s[i]),
    ensures
        drop_leading_ws(s) =~= s.skip(i),
    decreases i,
{
    if i == 0 {
        assert(s.skip(0) =~= s);
    } else {
        assert(is_ws(s[0]));
        lemma_drop_leading_ws_at(s.drop_first(), i - 1);
        assert(s.drop_first().skip(i - 1) =~= s.skip(i));
    }
}

proof fn lemma_drop_trailing_ws_at(s: Seq<char>, e: int)
    requires
        0 <= e <= s.len(),
        forall|j: int| e <= j < s.len() ==> is_ws(s[j]),
        e > 0 ==> !is_ws(s[e - 1]),
    ensures
        drop_trailing_ws(s) =~= s.take(e),
    decreases s.len() - e,
{
    if e == s.len() {
        assert(s.take(e) =~= s);
    } else {
        assert(is_ws(s.last()));
        lemma_drop_trailing_ws_at(s.drop_last(), e);
        assert(s.drop_last().take(e) =~= s.take(e));
    }
}

fn is_ws_at(s: &str, j: usize) -> (r: bool)
    requires
        j < s@.len(),
    ensures
        r == is_ws(s@[j as int]),
{
    let c = s.get_char(j);
    c == ' ' || c == '\n' || c == '\t' || c == '\r'
}

/// Checks the readback of the huge-page pool: the kernel must
/// report, whitespace aside, exactly the requested count — the pool
/// may come up short when memory is fragmented, and the engine must
/// fail loudly then rather than measure with too little.
#[verifier::loop_isolation(false)]
pub fn check_nr_hugepages(nr: u64, observed: &str) -> (r: Result<(), Error>)
    ensures
        trimmed_ws(observed@) == spec_dec(nr as nat) ==> r == Ok::<(), Error>(()),
        trimmed_ws(observed@) != spec_dec(nr as nat) ==> r == Err::<(), Error>(
            Error::HugepagesNotApplied,
        ),
{
    let n = observed.unicode_len();
    let mut start: usize = 0;
    while start < n && is_ws_at(observed, start)
        invariant
            0 <= start <= n,
            n == observed@.len(),
            forall|j: int| 0 <= j < start ==> is_ws(observed@[j]),
        decreases n - start,
    {
        start = start + 1;
    }
    let mut end: usize = n;
    while end > start && is_ws_at(observed, end - 1)
        invariant
            start <= end <= n,
            start < n ==> !is_ws(observed@[start as int]),
            forall|j: int| end <= j < n ==> is_ws(observed@[j]),
        decreases end,
    {
        end = end - 1;
    }
    proof {
        if start == end {
            lemma_drop_leading_ws_at(observed@, end as int);
            lemma_drop_trailing_ws_at(observed@.skip(end as int), 0);
        } else {
            lemma_drop_leading_ws_at(observed@, start as int);
            lemma_drop_trailing_ws_at(observed@.skip(start as int), end - start);
        }
        assert(trimmed_ws(observed@) =~= observed@.subrange(start as int, end as int));
    }
    let expected = u64_to_string(nr);
    let expected_len = expected.as_str().unicode_len();
    if end - start != expected_len {
        return Err(Error::HugepagesNotApplied);
    }
    let mut i: usize = 0;
    while i < expected_len
        invariant
            0 <= i <= expected_len,
            forall|j: int| 0 <= j < i ==> observed@[start + j] == expected@[j],
        decreases expected_len - i,
    {
        if observed.get_char(start + i) != expected.as_str().get_char(i) {
            return Err(Error::HugepagesNotApplied);
        }
        i = i + 1;
    }
    proof {
        assert(trimmed_ws(observed@) =~= expected@);
    }
    Ok(())
}

/// Everything the sweep does to the host before one measurement, in
/// execution order: the module loads (under the reload-every-point
/// policy), the simulated device's instantiation when configured,
/// then the scheduler and I/O-statistics writes.
pub struct SetupPlan {
    pub module_loads: Vec<CommandSpec>,
    pub device: Option<DeviceSetup>,
    pub scheduler_write: ControlWrite,
    pub iostats_write: ControlWrite,
}

/// Builds the per-point setup plan. Under the "always" reload policy
/// the module is loaded here; under "once" it was loaded before the
/// sweep and none of these plans touches it.
pub fn setup(config: &Config) -> (r: SetupPlan)
    ensures
        config.module_reload_policy == ModuleReloadPolicy::Always ==> module_load_cmds_ok(
            *config,
            r.module_loads@,
        ),
        config.module_reload_policy == ModuleReloadPolicy::Once ==> r.module_loads@.len() == 0,
        config.configure_c_nullblk ==> r.device is Some && device_setup_ok(
            config.device@,
            r.device->0,
        ),
        !config.configure_c_nullblk ==> r.device is None,
        write_is(r.scheduler_write, "/sys/block/"@ + config.device@ + "/queue/scheduler"@, "none"@),
        write_is(r.iostats_write, "/sys/block/"@ + config.device@ + "/queue/iostats"@, "0"@),
{
    let module_loads = match config.module_reload_policy {
        ModuleReloadPolicy::Always => load_module(config),
        ModuleReloadPolicy::Once => Vec::new(),
    };
    let device = if config.configure_c_nullblk {
        Some(setup_cnull(config.device.as_str()))
    } else {
        None
    };
    SetupPlan {
        module_loads,
        device,
        scheduler_write: set_block_scheduler(config.device.as_str()),
        iostats_write: disable_iostats(config.device.as_str()),
    }
}

/// Everything the sweep does to the host after one measurement, in
/// execution order: remove the simulated device's control
/// directories when configured, then unload the module under the
/// reload-every-point policy.
pub struct TeardownPlan {
    pub remove_device_dirs: bool,
    pub module_unloads: Vec<RetriedCommand>,
}

/// Builds the per-point teardown plan.
pub fn teardown(config: &Config) -> (r: TeardownPlan)
    ensures
        r.remove_device_dirs == config.configure_c_nullblk,
        config.module_reload_policy == ModuleReloadPolicy::Always ==> module_unload_cmds_ok(
            *config,
            r.module_unloads@,
        ),
        config.module_reload_policy == ModuleReloadPolicy::Once ==> r.module_unloads@.len() == 0,
{
    let module_unloads = match config.module_reload_policy {
        ModuleReloadPolicy::Always => unload_module(config),
        ModuleReloadPolicy::Once => Vec::new(),
    };
    TeardownPlan { remove_device_dirs: config.configure_c_nullblk, module_unloads }
}

} // verus!
