//! The two telemetry snapshots that the panel shows.
//!
//! A snapshot is built in one step from a complete set of readings and is
//! replaced as a whole by the next one. Memory is kept in bytes and power in
//! milliwatts, as the providers report them; the divisors for display are
//! `BYTES_PER_GIGABYTE` and `MILLIWATTS_PER_WATT`.

use vstd::prelude::*;
use crate::error::CollectionError;
use crate::percentage::{percentage_of, used_memory_percentage};

verus! {

/// Bytes in one displayed gigabyte: a decimal approximation, kept as it is
/// so that displayed values stay comparable.
pub const BYTES_PER_GIGABYTE: u64 = 1_024_000_000;

/// Milliwatts in one displayed watt.
pub const MILLIWATTS_PER_WATT: u32 = 1000;

/// The CPU temperature shown until a real sensor is read.
pub const CPU_TEMPERATURE_PLACEHOLDER: u32 = 0;

/// What the GPU provider reported in one poll, before anything is derived.
#[derive(Clone, Debug, PartialEq, Eq)]
pub struct GpuReadings {
    pub name: String,
    /// Allocated device memory in bytes.
    pub used_memory: u64,
    /// Installed device memory in bytes.
    pub total_memory: u64,
    /// Degrees Celsius.
    pub temperature: u32,
    /// MHz.
    pub core_clock: u32,
    /// MHz.
    pub memory_clock: u32,
    /// Percent of the fan's maximum.
    pub fan_speed: u32,
    /// Milliwatts.
    pub power_usage: u32,
}

/// One GPU snapshot.
#[derive(Clone, Debug, PartialEq, Eq)]
pub struct GpuStats {
    pub name: String,
    /// Allocated device memory in bytes.
    pub used_memory: u64,
    /// Installed device memory in bytes.
    pub total_memory: u64,
    /// Share of the installed memory that is allocated, rounded and clamped.
    pub used_memory_percentage: i8,
    /// Degrees Celsius.
    pub temperature: u32,
    /// MHz.
    pub core_clock: u32,
    /// MHz.
    pub memory_clock: u32,
    /// Percent of the fan's maximum.
    pub fan_speed: u32,
    /// Milliwatts.
    pub power_usage: u32,
}

/// One CPU snapshot.
#[derive(Clone, Copy, Debug, PartialEq, Eq)]
pub struct CpuStats {
    /// Aggregate usage over all cores, in percent.
    pub total_usage: i8,
    /// Degrees Celsius; absent when the host reports none.
    pub temperature: Option<u32>,
    /// Reserved; always absent.
    pub fan_speed: Option<u32>,
}

/// The snapshot that a complete set of readings with a non-zero total gives.
pub open spec fn snapshot_of(readings: GpuReadings) -> GpuStats {
    GpuStats {
        name: readings.name,
        used_memory: readings.used_memory,
        total_memory: readings.total_memory,
        used_memory_percentage: percentage_of(
            readings.used_memory as nat,
            readings.total_memory as nat,
        ) as i8,
        temperature: readings.temperature,
        core_clock: readings.core_clock,
        memory_clock: readings.memory_clock,
        fan_speed: readings.fan_speed,
        power_usage: readings.power_usage,
    }
}

/// A raw usage reading brought into `[0, 100]`.
pub open spec fn clamp_usage(raw: int) -> int {
    if raw < 0 {
        0
    } else if raw > 100 {
        100
    } else {
        raw
    }
}

impl GpuStats {
    /// The derived percentage agrees with the two memory values. A snapshot
    /// without memory, as shown before the first poll, carries zero.
    pub open spec fn wf(&self) -> bool {
        if self.total_memory == 0 {
            self.used_memory_percentage == 0
        } else {
            self.used_memory_percentage == percentage_of(
                self.used_memory as nat,
                self.total_memory as nat,
            )
        }
    }

    /// Whether this is the snapshot shown before the first poll.
    pub open spec fn is_empty(&self) -> bool {
        &&& self.name@ == Seq::<char>::empty()
        &&& self.used_memory == 0
        &&& self.total_memory == 0
        &&& self.used_memory_percentage == 0
        &&& self.temperature == 0
        &&& self.core_clock == 0
        &&& self.memory_clock == 0
        &&& self.fan_speed == 0
        &&& self.power_usage == 0
    }

    /// The snapshot shown before the first poll: no name, all values zero.
    pub fn empty() -> (stats: GpuStats)
        ensures
            stats.is_empty(),
            stats.wf(),
    {
        GpuStats {
            name: String::new(),
            used_memory: 0,
            total_memory: 0,
            used_memory_percentage: 0,
            temperature: 0,
            core_clock: 0,
            memory_clock: 0,
            fan_speed: 0,
            power_usage: 0,
        }
    }

    /// Builds a snapshot from one complete set of readings.
    ///
    /// Fails, without a snapshot, exactly when the total memory is zero.
    pub fn from_readings(readings: GpuReadings) -> (res: Result<GpuStats, CollectionError>)
        ensures
            readings.total_memory == 0 ==> res == Err::<GpuStats, CollectionError>(
                CollectionError::ZeroTotalMemory,
            ),
            readings.total_memory > 0 ==> res == Ok::<GpuStats, CollectionError>(
                snapshot_of(readings),
            ),
            res is Ok ==> res->Ok_0.wf(),
    {
        let percentage: i8 = match used_memory_percentage(
            readings.used_memory,
            readings.total_memory,
        ) {
            Ok(p) => p,
            Err(e) => {
                return Err(e);
            },
        };
        Ok(
            GpuStats {
                name: readings.name,
                used_memory: readings.used_memory,
                total_memory: readings.total_memory,
                used_memory_percentage: percentage,
                temperature: readings.temperature,
                core_clock: readings.core_clock,
                memory_clock: readings.memory_clock,
                fan_speed: readings.fan_speed,
                power_usage: readings.power_usage,
            },
        )
    }
}

impl CpuStats {
    /// The usage is a percentage, and the reserved field is absent.
    pub open spec fn wf(&self) -> bool {
        &&& 0 <= self.total_usage <= 100
        &&& self.fan_speed is None
    }

    /// The snapshot that a raw usage reading gives.
    pub open spec fn of_usage(raw: i8) -> CpuStats {
        CpuStats {
            total_usage: clamp_usage(raw as int) as i8,
            temperature: Some(CPU_TEMPERATURE_PLACEHOLDER),
            fan_speed: None,
        }
    }

    /// The snapshot shown before the first poll: zero usage, no temperature.
    pub fn empty() -> (stats: CpuStats)
        ensures
            stats == (CpuStats { total_usage: 0, temperature: None, fan_speed: None }),
            stats.wf(),
    {
        CpuStats { total_usage: 0, temperature: None, fan_speed: None }
    }

    /// Builds a snapshot from the aggregate usage that the provider gave.
    ///
    /// The reading is brought into `[0, 100]`; the temperature is the
    /// placeholder, present but not measured.
    pub fn from_usage(raw: i8) -> (stats: CpuStats)
        ensures
            stats == CpuStats::of_usage(raw),
            stats.wf(),
    {
        let usage: i8 = if raw < 0 {
            0
        } else if raw > 100 {
            100
        } else {
            raw
        };
        CpuStats {
            total_usage: usage,
            temperature: Some(CPU_TEMPERATURE_PLACEHOLDER),
            fan_speed: None,
        }
    }
}

} // verus!
