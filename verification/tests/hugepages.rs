use blksweep::config::Config;
use blksweep::errors::Error;
use blksweep::hugepages::{calculate_nr_hugepages, calculate_nr_hugepages_int};

#[test]
fn test_calculate_nr_hugepages_int() -> Result<(), Error> {
    assert_eq!(calculate_nr_hugepages_int(128, 32 * 2u64.pow(10), 6)?, 24);
    assert_eq!(calculate_nr_hugepages_int(8, 32 * 2u64.pow(10), 1)?, 2);
    assert_eq!(calculate_nr_hugepages_int(8, 4 * 2u64.pow(10), 1)?, 2);
    assert_eq!(calculate_nr_hugepages_int(128, 16 * 2u64.pow(20), 1)?, 1026);
    assert_eq!(
        calculate_nr_hugepages_int(128, 16 * 2u64.pow(20), 6)?,
        1026 * 6
    );
    Ok(())
}

#[test]
fn tets_calculate_nr_hugepages() -> Result<(), Error> {
    let mut config = Config::default();
    config.block_sizes = vec!["16 MiB".into()];
    config.queue_depths = vec![128];
    config.jobcounts = vec![6];
    assert_eq!(calculate_nr_hugepages(&config)?, 6 * 1026);

    config.block_sizes = vec!["512".into(), "16MiB".into()];
    config.queue_depths = vec![1, 128];
    config.jobcounts = vec![1];
    assert_eq!(calculate_nr_hugepages(&config)?, 1026);

    config.block_sizes = vec!["512".into(), "16MiB".into()];
    config.queue_depths = vec![1, 128];
    config.jobcounts = vec![1, 6];
    assert_eq!(calculate_nr_hugepages(&config)?, 6 * 1026);
    Ok(())
}

#[test]
fn hugepage_requirement_is_linear_in_job_count() {
    let one_job = calculate_nr_hugepages_int(8, 4 * 2u64.pow(10), 1).unwrap();
    for jobs in 1..8u64 {
        assert_eq!(
            calculate_nr_hugepages_int(8, 4 * 2u64.pow(10), jobs).unwrap(),
            jobs * one_job
        );
    }
    let one_job = calculate_nr_hugepages_int(128, 32 * 2u64.pow(10), 1).unwrap();
    assert_eq!(
        calculate_nr_hugepages_int(128, 32 * 2u64.pow(10), 6).unwrap(),
        6 * one_job
    );
}

#[test]
fn sweep_wide_requirement_uses_independent_maxima() {
    // The maxima come from different axis positions: the largest
    // block size and the largest queue depth never co-occur in one
    // point, yet the requirement equals the single point built from
    // both maxima.
    let mut config = Config::default();
    config.block_sizes = vec!["16MiB".into(), "512".into()];
    config.queue_depths = vec![128, 1];
    config.jobcounts = vec![1];
    assert_eq!(
        calculate_nr_hugepages(&config).unwrap(),
        calculate_nr_hugepages_int(128, 16 * 2u64.pow(20), 1).unwrap()
    );
}

#[test]
fn empty_jobcount_axis_is_reported() {
    let mut config = Config::default();
    config.jobcounts = vec![];
    assert_eq!(calculate_nr_hugepages(&config), Err(Error::JobcountsEmpty));
}

#[test]
fn unparsable_block_size_is_reported() {
    let mut config = Config::default();
    config.block_sizes = vec!["4x".into()];
    assert_eq!(calculate_nr_hugepages(&config), Err(Error::InvalidBlockSize));
}

#[test]
fn empty_block_size_axis_is_reported() {
    let mut config = Config::default();
    config.block_sizes = vec![];
    assert_eq!(calculate_nr_hugepages(&config), Err(Error::BlockSizesEmpty));
}

#[test]
fn empty_queue_depth_axis_is_reported() {
    let mut config = Config::default();
    config.queue_depths = vec![];
    assert_eq!(calculate_nr_hugepages(&config), Err(Error::QueueDepthsEmpty));
}

#[test]
fn oversized_requirement_is_reported() {
    let mut config = Config::default();
    config.block_sizes = vec!["1t".into()];
    config.queue_depths = vec![4294967295];
    config.jobcounts = vec![1];
    assert_eq!(
        calculate_nr_hugepages(&config),
        Err(Error::HugepageCalcTooLarge)
    );
}
