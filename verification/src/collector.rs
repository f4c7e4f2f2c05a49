//! One telemetry poll: all the readings, or none.

use vstd::prelude::*;
use nvml_wrapper::Nvml;
use sysinfo::System;
use crate::error::CollectionError;
use crate::providers::{
    device_clock,
    device_fan_speed,
    device_memory,
    device_name,
    device_power_usage,
    device_temperature,
    global_cpu_usage,
    open_device,
    refresh_system,
    ClockDomain,
};
use crate::stats::{snapshot_of, CpuStats, GpuReadings, GpuStats, CPU_TEMPERATURE_PLACEHOLDER};

verus! {

/// Index of the one device that is polled.
pub const GPU_INDEX: u32 = 0;

/// Index of the one fan that is polled.
pub const FAN_INDEX: u32 = 0;

/// Turns the outcome of one provider call into the outcome of its step:
/// the value as it came, or `failure` in place of the provider's error.
pub fn query_outcome<T, E, F>(
    outcome: Result<T, E>,
    failure: F,
) -> (res: Result<T, F>)
    ensures
        outcome is Ok ==> res == Ok::<T, F>(outcome->Ok_0),
        outcome is Err ==> res == Err::<T, F>(failure),
{
    match outcome {
        Ok(value) => Ok(value),
        Err(_) => Err(failure),
    }
}

/// Reads everything the GPU snapshot is built from.
///
/// The queries run in a fixed order and the first failure ends the poll
/// with the error that names it. The error for a total of zero is never
/// raised here: the readings are handed on as they came.
pub fn read_gpu(nvml: &Nvml) -> (res: Result<GpuReadings, CollectionError>)
    ensures
        res is Err ==> res->Err_0 != CollectionError::ZeroTotalMemory,
{
    let device = query_outcome(open_device(nvml, GPU_INDEX), CollectionError::DeviceUnavailable)?;
    let (used_memory, total_memory): (u64, u64) = query_outcome(
        device_memory(&device),
        CollectionError::MemoryInfo,
    )?;
    let name: String = query_outcome(device_name(&device), CollectionError::Name)?;
    let temperature: u32 = query_outcome(
        device_temperature(&device),
        CollectionError::Temperature,
    )?;
    let core_clock: u32 = query_outcome(
        device_clock(&device, ClockDomain::Graphics),
        CollectionError::CoreClock,
    )?;
    let memory_clock: u32 = query_outcome(
        device_clock(&device, ClockDomain::Memory),
        CollectionError::MemoryClock,
    )?;
    let fan_speed: u32 = query_outcome(
        device_fan_speed(&device, FAN_INDEX),
        CollectionError::FanSpeed,
    )?;
    let power_usage: u32 = query_outcome(
        device_power_usage(&device),
        CollectionError::PowerUsage,
    )?;
    Ok(
        GpuReadings {
            name,
            used_memory,
            total_memory,
            temperature,
            core_clock,
            memory_clock,
            fan_speed,
            power_usage,
        },
    )
}

/// Refreshes the host's telemetry and builds the CPU snapshot from its
/// aggregate usage.
pub fn read_cpu(system: &mut System) -> (stats: CpuStats)
    ensures
        stats.wf(),
        stats.temperature == Some(CPU_TEMPERATURE_PLACEHOLDER),
        exists|raw: i8| stats == #[trigger] CpuStats::of_usage(raw),
{
    refresh_system(system);
    let raw: i8 = global_cpu_usage(system);
    CpuStats::from_usage(raw)
}

/// What is due after the GPU has been read: its snapshot, and the CPU's
/// beside it if there is one. With an error from the GPU, or a total of
/// zero, the host is not touched and nothing is returned but the error.
pub fn complete_poll(
    system: &mut System,
    gpu: Result<GpuReadings, CollectionError>,
) -> (res: Result<(GpuStats, CpuStats), CollectionError>)
    ensures
        match gpu {
            Err(error) => res == Err::<(GpuStats, CpuStats), CollectionError>(error),
            Ok(readings) => if readings.total_memory == 0 {
                res == Err::<(GpuStats, CpuStats), CollectionError>(
                    CollectionError::ZeroTotalMemory,
                )
            } else {
                &&& res is Ok
                &&& res->Ok_0.0 == snapshot_of(readings)
                &&& res->Ok_0.0.wf()
                &&& res->Ok_0.1.wf()
                &&& res->Ok_0.1.temperature == Some(CPU_TEMPERATURE_PLACEHOLDER)
            },
        },
        res is Err ==> *final(system) == *old(system),
{
    let readings: GpuReadings = match gpu {
        Ok(readings) => readings,
        Err(error) => {
            return Err(error);
        },
    };
    let gpu_stats: GpuStats = match GpuStats::from_readings(readings) {
        Ok(stats) => stats,
        Err(error) => {
            return Err(error);
        },
    };
    let cpu_stats: CpuStats = read_cpu(system);
    Ok((gpu_stats, cpu_stats))
}

/// Runs one poll of both providers.
///
/// Either both snapshots come back, well formed and of one instant, or an
/// error and nothing else: a poll that fails has not touched the host's
/// telemetry.
pub fn statscheck(
    system: &mut System,
    nvml: &Nvml,
) -> (res: Result<(GpuStats, CpuStats), CollectionError>)
    ensures
        res matches Ok(pair) ==> {
            &&& pair.0.wf()
            &&& pair.0.total_memory > 0
            &&& pair.1.wf()
            &&& pair.1.temperature == Some(CPU_TEMPERATURE_PLACEHOLDER)
        },
        res is Err ==> *final(system) == *old(system),
{
    let gpu: Result<GpuReadings, CollectionError> = read_gpu(nvml);
    complete_poll(system, gpu)
}

} // verus!
