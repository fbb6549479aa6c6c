use blksweep::config::{Config, ModuleReloadPolicy};
use blksweep::errors::Error;
use blksweep::fioargs::{build_fio_args, prep_command, run_file_path, run_output_id, should_ping};
use blksweep::outdir::{archive_name, batch_dir_name, batch_dir_name_parts, run_dir_name};
use blksweep::remote::{log_suffix, ping_suffix, shutdown_suffix, upload_suffix};
use blksweep::sweep::{enumerate_points, pre_sweep_plan};
use blksweep::sysstate::{
    disable_boost_amd, disable_iostats, disable_turbo_intel, load_module, check_nr_hugepages,
    nr_hugepages_write, nullb_control_root, set_block_scheduler, set_governor, setup, setup_cnull,
    teardown, unload_module,
};

#[test]
fn configuration_rules_in_order() {
    let mut config = Config::default();
    assert_eq!(config.verify(), Ok(()));

    config.insmod = true;
    config.modprobe = true;
    assert_eq!(config.verify(), Err(Error::InsmodAndModprobe));

    config.insmod = false;
    config.modprobe = false;
    config.module = Some("null_blk".into());
    assert_eq!(config.verify(), Err(Error::ModuleWithoutLoader));
    config.modprobe = true;
    assert_eq!(config.verify(), Ok(()));

    config.compress = true;
    assert_eq!(config.verify(), Err(Error::CompressWithoutCapture));
    config.capture = true;
    assert_eq!(config.verify(), Ok(()));

    config.compress = false;
    config.remote = Some("http://controller/".into());
    assert_eq!(config.verify(), Err(Error::RemoteWithoutCompress));
    config.compress = true;
    config.capture = false;
    assert_eq!(config.verify(), Err(Error::CompressWithoutCapture));
    config.capture = true;
    assert_eq!(config.verify(), Ok(()));
}

#[test]
fn module_commands_for_insmod() {
    let mut config = Config::default();
    config.module = Some("mymod.ko".into());
    config.insmod = true;
    config.module_args = vec!["opt=1".into()];
    let loads = load_module(&config);
    assert_eq!(loads.len(), 1);
    assert_eq!(loads[0].program.as_str(), "insmod");
    assert_eq!(loads[0].args, vec!["mymod.ko".to_string(), "opt=1".to_string()]);
    let unloads = unload_module(&config);
    assert_eq!(unloads.len(), 1);
    assert_eq!(unloads[0].command.program.as_str(), "rmmod");
    assert_eq!(unloads[0].command.args, vec!["mymod.ko".to_string()]);
    assert_eq!(unloads[0].max_attempts, 3);
    assert_eq!(unloads[0].delay_secs, 1);
}

#[test]
fn module_commands_for_modprobe() {
    let mut config = Config::default();
    config.module = Some("null_blk".into());
    config.modprobe = true;
    let loads = load_module(&config);
    assert_eq!(loads.len(), 1);
    assert_eq!(loads[0].program.as_str(), "modprobe");
    assert_eq!(loads[0].args, vec!["null_blk".to_string()]);
    let unloads = unload_module(&config);
    assert_eq!(unloads.len(), 1);
    assert_eq!(unloads[0].command.program.as_str(), "modprobe");
    assert_eq!(
        unloads[0].command.args,
        vec!["-r".to_string(), "null_blk".to_string()]
    );
}

#[test]
fn module_commands_without_module() {
    let config = Config::default();
    assert_eq!(load_module(&config).len(), 0);
    assert_eq!(unload_module(&config).len(), 0);
}

#[test]
fn device_instantiation_writes_power_last() {
    let plan = setup_cnull("nullb0");
    assert_eq!(plan.control_dir.as_str(), "/sys/kernel/config/nullb/nullb0");
    let names: Vec<&str> = plan
        .writes
        .iter()
        .map(|w| w.path.as_str())
        .collect();
    assert_eq!(
        names,
        vec![
            "/sys/kernel/config/nullb/nullb0/blocksize",
            "/sys/kernel/config/nullb/nullb0/completion_nsec",
            "/sys/kernel/config/nullb/nullb0/irqmode",
            "/sys/kernel/config/nullb/nullb0/queue_mode",
            "/sys/kernel/config/nullb/nullb0/hw_queue_depth",
            "/sys/kernel/config/nullb/nullb0/memory_backed",
            "/sys/kernel/config/nullb/nullb0/size",
            "/sys/kernel/config/nullb/nullb0/poll_queues",
            "/sys/kernel/config/nullb/nullb0/power",
        ]
    );
    let values: Vec<&str> = plan.writes.iter().map(|w| w.value.as_str()).collect();
    assert_eq!(
        values,
        vec!["4096", "0", "0", "2", "256", "1", "4096", "0", "1"]
    );
    assert_eq!(nullb_control_root().as_str(), "/sys/kernel/config/nullb");
}

#[test]
fn per_device_tuning_writes() {
    let w = set_block_scheduler("nvme0n1");
    assert_eq!(w.path.as_str(), "/sys/block/nvme0n1/queue/scheduler");
    assert_eq!(w.value.as_str(), "none");
    let w = disable_iostats("nvme0n1");
    assert_eq!(w.path.as_str(), "/sys/block/nvme0n1/queue/iostats");
    assert_eq!(w.value.as_str(), "0");
}

#[test]
fn cpu_tuning_plans() {
    let g = set_governor();
    assert_eq!(g.program.as_str(), "cpupower");
    assert_eq!(
        g.args,
        vec![
            "frequency-set".to_string(),
            "-g".to_string(),
            "performance".to_string()
        ]
    );
    let w = disable_boost_amd();
    assert_eq!(w.path.as_str(), "/sys/devices/system/cpu/cpufreq/boost");
    assert_eq!(w.value.as_str(), "0\n");
    let w = disable_turbo_intel();
    assert_eq!(w.path.as_str(), "/sys/devices/system/cpu/intel_pstate/no_turbo");
    assert_eq!(w.value.as_str(), "1\n");
}

#[test]
fn hugepage_pool_write_and_readback() {
    let w = nr_hugepages_write(24);
    assert_eq!(w.path.as_str(), "/proc/sys/vm/nr_hugepages");
    assert_eq!(w.value.as_str(), "24\n");
    assert_eq!(check_nr_hugepages(24, "24\n"), Ok(()));
    assert_eq!(check_nr_hugepages(24, " 24 \n"), Ok(()));
    assert_eq!(check_nr_hugepages(24, "24"), Ok(()));
    assert_eq!(check_nr_hugepages(24, "23\n"), Err(Error::HugepagesNotApplied));
    assert_eq!(check_nr_hugepages(24, ""), Err(Error::HugepagesNotApplied));
    assert_eq!(check_nr_hugepages(24, "240\n"), Err(Error::HugepagesNotApplied));
    assert_eq!(check_nr_hugepages(240, "24\n"), Err(Error::HugepagesNotApplied));
}

#[test]
fn setup_and_teardown_follow_the_reload_policy() {
    let mut config = Config::default();
    config.module = Some("null_blk".into());
    config.modprobe = true;
    config.configure_c_nullblk = true;
    config.device = "nullb0".into();

    let plan = setup(&config);
    assert_eq!(plan.module_loads.len(), 1);
    assert!(plan.device.is_some());
    assert_eq!(
        plan.scheduler_write.path.as_str(),
        "/sys/block/nullb0/queue/scheduler"
    );
    assert_eq!(
        plan.iostats_write.path.as_str(),
        "/sys/block/nullb0/queue/iostats"
    );
    let down = teardown(&config);
    assert!(down.remove_device_dirs);
    assert_eq!(down.module_unloads.len(), 1);

    config.module_reload_policy = ModuleReloadPolicy::Once;
    let plan = setup(&config);
    assert_eq!(plan.module_loads.len(), 0);
    let down = teardown(&config);
    assert_eq!(down.module_unloads.len(), 0);
}

#[test]
fn pre_sweep_plan_follows_the_flags() {
    let mut config = Config::default();
    config.device = "nullb0".into();
    config.module = Some("null_blk".into());
    config.modprobe = true;
    config.module_reload_policy = ModuleReloadPolicy::Once;
    config.cpufreq_governor_performance = true;
    config.disable_boost_amd = true;
    config.disable_boost_intel = true;
    config.use_hugepages = true;
    config.block_sizes = vec!["16 MiB".into()];
    config.queue_depths = vec![128];
    config.jobcounts = vec![6];

    let plan = pre_sweep_plan(&config).unwrap();
    assert!(plan.stale_device_cleanup);
    assert_eq!(plan.best_effort_unloads.len(), 1);
    assert_eq!(plan.once_loads.len(), 1);
    assert!(plan.pstate.is_none());
    assert!(plan.governor.is_some());
    assert!(plan.boost_amd.is_some());
    assert!(plan.turbo_intel.is_some());
    assert_eq!(plan.hugepages_count, Some(6 * 1026));
    assert_eq!(plan.hugepages_write.unwrap().value.as_str(), "6156\n");

    let mut quiet = Config::default();
    quiet.device = "nvme0n1".into();
    let plan = pre_sweep_plan(&quiet).unwrap();
    assert!(!plan.stale_device_cleanup);
    assert_eq!(plan.best_effort_unloads.len(), 0);
    assert_eq!(plan.once_loads.len(), 0);
    assert!(plan.governor.is_none());
    assert!(plan.hugepages_write.is_none());

    let mut broken = Config::default();
    broken.use_hugepages = true;
    broken.jobcounts = vec![];
    match pre_sweep_plan(&broken) {
        Err(e) => assert_eq!(e, Error::JobcountsEmpty),
        Ok(_) => panic!("an empty job-count axis must fail the huge-page sizing"),
    }
}

#[test]
fn run_identifier_and_artifact_paths() {
    let id = run_output_id(6, 30, "read", "4k", 128);
    assert_eq!(id.as_str(), "j6-r30-wread-bs4k-qd128");
    let p = run_file_path("/tmp/run", id.as_str(), ".json");
    assert_eq!(p.as_str(), "/tmp/run/j6-r30-wread-bs4k-qd128.json");
    let p = run_file_path("/tmp/run", id.as_str(), "-prep.stdout");
    assert_eq!(p.as_str(), "/tmp/run/j6-r30-wread-bs4k-qd128-prep.stdout");
}

#[test]
fn preparation_pass_shape() {
    let mut config = Config::default();
    config.device = "nullb0".into();
    config.fio = "/usr/bin/fio".into();
    let cmd = prep_command(&config);
    assert_eq!(cmd.program.as_str(), "/usr/bin/fio");
    assert_eq!(
        cmd.args,
        vec![
            "--name=prep".to_string(),
            "--rw=write".to_string(),
            "--direct=1".to_string(),
            "--bs=4k".to_string(),
            "--filename=/dev/nullb0".to_string()
        ]
    );
}

#[test]
fn end_to_end_minimal_configuration() {
    let mut config = Config::default();
    config.samples = 1;
    config.block_sizes = vec!["4k".into()];
    config.jobcounts = vec![1];
    config.workloads = vec!["read".into()];
    config.queue_depths = vec![1];
    config.capture = false;
    config.module = None;
    config.configure_c_nullblk = false;
    assert_eq!(config.verify(), Ok(()));

    // Exactly one benchmark invocation.
    let points = enumerate_points(
        &config.block_sizes,
        &config.jobcounts,
        &config.workloads,
        &config.queue_depths,
    );
    assert_eq!(points.len(), 1);
    let point = &points[0];

    // Its arguments carry the resolved block size and the point.
    let args = build_fio_args(
        &config,
        point.queue_depth,
        point.block_size.as_str(),
        point.jobcount,
        point.workload.as_str(),
        None,
    )
    .unwrap();
    assert!(args.iter().any(|a| a == "--blocksize=4096"));
    assert!(args.iter().any(|a| a == "--numjobs=1"));
    assert!(args.iter().any(|a| a == "--readwrite=read"));
    assert!(args.iter().any(|a| a == "--iodepth=1"));
    assert!(args.iter().any(|a| a == "--cpus_allowed=0-0"));
    assert!(!args.iter().any(|a| a.starts_with("--output")));

    // And no control-file writes to the simulated-device tree.
    let plan = setup(&config);
    assert!(plan.device.is_none());
    assert_eq!(plan.module_loads.len(), 0);
}

#[test]
fn measurement_arguments_follow_the_flags() {
    let mut config = Config::default();
    config.ramp = 10;
    config.verify = true;
    config.hipri = true;
    config.use_hugepages = true;
    let out = "/tmp/run/x.json".to_string();
    let args = build_fio_args(&config, 32, "8k", 4, "randwrite", Some(&out)).unwrap();
    let expect_tail = vec![
        "--ramp=10",
        "--do_verify=1",
        "--verify=md5",
        "--output-format=json+",
        "--output=/tmp/run/x.json",
        "--hipri=1",
        "--iomem=mmaphuge",
        "--hugepage-size=2m",
    ];
    assert_eq!(
        &args[args.len() - expect_tail.len()..]
            .iter()
            .map(|s| s.as_str())
            .collect::<Vec<_>>(),
        &expect_tail
    );
    assert!(args.iter().any(|a| a == "--blocksize=8192"));
    assert!(args.iter().any(|a| a == "--cpus_allowed=0-3"));

    let mut nomap = Config::default();
    nomap.ramp = 0;
    let args = build_fio_args(&nomap, 1, "4k", 1, "read", None).unwrap();
    assert_eq!(
        args,
        vec![
            "--group_reporting",
            "--name=default",
            "--filename=/dev//dev/null",
            "--time_based=1",
            "--runtime=30",
            "--gtod_reduce=1",
            "--clocksource=cpu",
            "--readwrite=read",
            "--blocksize=4096",
            "--direct=1",
            "--cpus_allowed_policy=split",
            "--cpus_allowed=0-0",
            "--numjobs=1",
            "--ioengine=io_uring",
            "--iodepth=1",
            "--fixedbufs=1",
            "--registerfiles=1",
            "--nonvectored=1",
            "--norandommap",
            "--random_generator=lfsr",
        ]
    );

    assert_eq!(
        build_fio_args(&nomap, 1, "bogus", 1, "read", None),
        Err(Error::InvalidBlockSize)
    );
}

#[test]
fn watchdog_cadence() {
    assert!(!should_ping(0));
    assert!(!should_ping(60000));
    assert!(should_ping(60001));
}

#[test]
fn output_directory_names() {
    let woven = batch_dir_name_parts(&None, &Some("tagged".into()), "bold-mouse", "2024-01-02-0304");
    assert_eq!(woven.as_str(), "output-tagged-bold-mouse-2024-01-02-0304");
    let rooted = batch_dir_name_parts(
        &Some("/var/results".into()),
        &None,
        "bold-mouse",
        "2024-01-02-0304",
    );
    assert_eq!(
        rooted.as_str(),
        "/var/results/output-bold-mouse-2024-01-02-0304"
    );

    let mut config = Config::default();
    config.tag = Some("night".into());
    let name = batch_dir_name(&config).unwrap();
    assert!(name.as_str().starts_with("output-night-"));
    assert!(name.len() > "output-night-".len());

    let run = run_dir_name("outdir");
    assert!(run.as_str().starts_with("outdir/"));
    assert!(run.len() > "outdir/".len());

    assert_eq!(archive_name("output-night").as_str(), "output-night.tgz");
}

#[test]
fn remote_paths() {
    assert_eq!(ping_suffix().as_str(), "ping");
    assert_eq!(log_suffix().as_str(), "log/");
    assert_eq!(upload_suffix("batch.tgz").as_str(), "upload/batch.tgz");
    assert_eq!(shutdown_suffix(true).as_str(), "shutdown/0");
    assert_eq!(shutdown_suffix(false).as_str(), "shutdown/1");
}
