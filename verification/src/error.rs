//! Error types of the overlay core.

use vstd::prelude::*;

verus! {

/// Why one telemetry poll produced no snapshot.
///
/// Every variant but the last names the provider query that failed; the
/// last is raised by the library itself when the device reports no memory
/// at all, so that the usage percentage is never computed from a zero total.
#[derive(Clone, Copy, Debug, PartialEq, Eq, Structural)]
pub enum CollectionError {
    /// The device with the fixed index could not be opened.
    DeviceUnavailable,
    /// The memory query failed.
    MemoryInfo,
    /// The device name query failed.
    Name,
    /// The temperature query failed.
    Temperature,
    /// The graphics clock query failed.
    CoreClock,
    /// The memory clock query failed.
    MemoryClock,
    /// The fan speed query failed.
    FanSpeed,
    /// The power draw query failed.
    PowerUsage,
    /// The device reported a total memory of zero bytes.
    ZeroTotalMemory,
}

/// Why the overlay could not be started.
#[derive(Clone, Copy, Debug, PartialEq, Eq, Structural)]
pub enum InitError {
    /// The global hotkey facility could not be initialised.
    HotkeyManager,
    /// The toggle chord could not be registered.
    HotkeyRegistration,
}

} // verus!
