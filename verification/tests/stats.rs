use system_monitor::stats::{
    average_usage, build_cpu_usage, build_gpu_usage, build_memory_usage, build_system_stats,
    check_device_count, ratio_centipercent, GpuError, GpuUsage,
};

fn sample_gpu() -> GpuUsage {
    build_gpu_usage("TestCard 9000".to_string(), 2_000_000_000, 8_000_000_000, 37, 55)
}

#[test]
fn cores_total_matches_core_list() {
    let cpu = build_cpu_usage(vec![1000, 2000, 3000], Some("TestBrand".to_string()));
    assert_eq!(cpu.cores_total, 3);
    assert_eq!(cpu.cores_usage.len(), 3);
    assert_eq!(cpu.cores_usage, vec![1000, 2000, 3000]);
    assert_eq!(cpu.brand, "TestBrand");
}

#[test]
fn average_is_arithmetic_mean() {
    assert_eq!(average_usage(&vec![100, 250, 400]), 250);
    assert_eq!(average_usage(&vec![1000]), 1000);
    // 3.5 rounds toward zero
    assert_eq!(average_usage(&vec![3, 4]), 3);
    assert_eq!(average_usage(&vec![u32::MAX, u32::MAX]), u32::MAX);
}

#[test]
fn empty_core_list_yields_defined_average_and_placeholder_brand() {
    let cpu = build_cpu_usage(vec![], None);
    assert_eq!(cpu.cores_total, 0);
    assert_eq!(cpu.average_usage_percentage, 0);
    assert_eq!(cpu.brand, "Unknown");
}

#[test]
fn memory_percentage_is_used_share_of_total() {
    let mem = build_memory_usage(500, 1000);
    assert_eq!(mem.used_bytes, 500);
    assert_eq!(mem.total_bytes, 1000);
    // 50% in hundredths of a percent
    assert_eq!(mem.used_percentage, 5000);

    // one third, rounded toward zero
    assert_eq!(build_memory_usage(1, 3).used_percentage, 3333);

    // more used than total is reported as given, percentage over 100%
    assert_eq!(build_memory_usage(2000, 1000).used_percentage, 20000);
}

#[test]
fn zero_total_memory_yields_zero_percentage() {
    let mem = build_memory_usage(123, 0);
    assert_eq!(mem.used_percentage, 0);
}

#[test]
fn oversized_ratio_is_capped() {
    assert_eq!(ratio_centipercent(u64::MAX, 1), u64::MAX);
    assert_eq!(ratio_centipercent(0, 7), 0);
    assert_eq!(ratio_centipercent(7, 7), 10000);
}

#[test]
fn gpu_figures_carry_readings_and_derived_percentage() {
    let gpu = sample_gpu();
    assert_eq!(gpu.name, "TestCard 9000");
    assert_eq!(gpu.memory_used_bytes, 2_000_000_000);
    assert_eq!(gpu.memory_total_bytes, 8_000_000_000);
    assert_eq!(gpu.memory_used_percentage, 2500);
    assert_eq!(gpu.utilization_percentage, 37);
    assert_eq!(gpu.temperature_celsius, 55);
}

#[test]
fn zero_devices_is_the_no_devices_error() {
    assert_eq!(check_device_count(0), Err(GpuError::NoDevices));
    assert_eq!(check_device_count(1), Ok(()));
    assert_eq!(check_device_count(8), Ok(()));
}

#[test]
fn gpu_error_messages() {
    assert_eq!(GpuError::NoDevices.message(), "No NVIDIA devices found");
    assert_eq!(GpuError::QueryFailed.message(), "GPU query failed");
}

#[test]
fn gpu_field_present_only_on_successful_query() {
    let cpu = build_cpu_usage(vec![500], Some("B".to_string()));
    let mem = build_memory_usage(1, 2);

    let absent_session = build_system_stats(cpu.clone(), mem.clone(), None, 10);
    assert_eq!(absent_session.gpu_usage, None);

    let no_devices =
        build_system_stats(cpu.clone(), mem.clone(), Some(Err(GpuError::NoDevices)), 11);
    assert_eq!(no_devices.gpu_usage, None);

    let failed_query =
        build_system_stats(cpu.clone(), mem.clone(), Some(Err(GpuError::QueryFailed)), 12);
    assert_eq!(failed_query.gpu_usage, None);

    let ok = build_system_stats(cpu, mem, Some(Ok(sample_gpu())), 13);
    assert_eq!(ok.gpu_usage, Some(sample_gpu()));
}

#[test]
fn failed_gpu_query_leaves_rest_of_record_unaffected() {
    let cpu = build_cpu_usage(vec![100, 300], Some("B".to_string()));
    let mem = build_memory_usage(50, 200);
    let with_gpu =
        build_system_stats(cpu.clone(), mem.clone(), Some(Ok(sample_gpu())), 42);
    let without_gpu =
        build_system_stats(cpu, mem, Some(Err(GpuError::QueryFailed)), 42);
    assert_eq!(with_gpu.cpu_usage, without_gpu.cpu_usage);
    assert_eq!(with_gpu.memory_usage, without_gpu.memory_usage);
    assert_eq!(with_gpu.timestamp, without_gpu.timestamp);
    assert!(with_gpu.gpu_usage.is_some());
    assert!(without_gpu.gpu_usage.is_none());
}

#[test]
fn scenario_no_accelerator_host() {
    // a host with no compatible accelerator: the record still carries full
    // CPU and memory figures, with the GPU field absent
    let cpu = build_cpu_usage(vec![1200, 800, 400, 1600], Some("TestBrand".to_string()));
    let mem = build_memory_usage(4_000_000_000, 16_000_000_000);
    let stats = build_system_stats(cpu, mem, None, 1_700_000_000);
    assert_eq!(stats.cpu_usage.cores_total, 4);
    assert_eq!(stats.cpu_usage.average_usage_percentage, 1000);
    assert_eq!(stats.cpu_usage.brand, "TestBrand");
    assert_eq!(stats.memory_usage.used_percentage, 2500);
    assert_eq!(stats.gpu_usage, None);
    assert_eq!(stats.timestamp, 1_700_000_000);
}

#[test]
fn sequential_snapshots_are_each_internally_consistent() {
    // two requests, each built from its own sample: no field of one record
    // comes from the other sample
    let first = build_system_stats(
        build_cpu_usage(vec![100, 200], Some("A".to_string())),
        build_memory_usage(10, 100),
        None,
        1000,
    );
    let second = build_system_stats(
        build_cpu_usage(vec![9000], Some("B".to_string())),
        build_memory_usage(90, 100),
        Some(Ok(sample_gpu())),
        1001,
    );
    assert_eq!(first.cpu_usage.cores_total, 2);
    assert_eq!(first.cpu_usage.average_usage_percentage, 150);
    assert_eq!(first.cpu_usage.brand, "A");
    assert_eq!(first.memory_usage.used_percentage, 1000);
    assert_eq!(first.gpu_usage, None);
    assert_eq!(second.cpu_usage.cores_total, 1);
    assert_eq!(second.cpu_usage.average_usage_percentage, 9000);
    assert_eq!(second.cpu_usage.brand, "B");
    assert_eq!(second.memory_usage.used_percentage, 9000);
    assert_eq!(second.gpu_usage, Some(sample_gpu()));
}

#[test]
fn timestamps_follow_the_sampled_clock() {
    let cpu = build_cpu_usage(vec![], None);
    let mem = build_memory_usage(0, 1);
    let earlier = build_system_stats(cpu.clone(), mem.clone(), None, 5);
    let later = build_system_stats(cpu, mem, None, 9);
    assert!(earlier.timestamp <= later.timestamp);
}
