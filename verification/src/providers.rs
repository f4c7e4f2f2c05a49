//! The calls into the telemetry and hotkey crates.
//!
//! Nothing in this file is proved. Each function makes one call and hands
//! its result on as plain values. What the providers answer depends on the
//! machine, so nothing is promised of it; the one result that is a function
//! of the arguments alone, a chord's token, has a name.

use vstd::prelude::*;
use global_hotkey::hotkey::{Code, HotKey, Modifiers};
use global_hotkey::{GlobalHotKeyEvent, GlobalHotKeyManager};
use nvml_wrapper::enum_wrappers::device::{Clock, TemperatureSensor};
use nvml_wrapper::error::NvmlError;
use nvml_wrapper::{Device, Nvml};
use sysinfo::System;

verus! {

/// `nvml_wrapper::Nvml`, the handle to the initialised GPU library.
#[verifier::external_type_specification]
#[verifier::external_body]
pub struct ExNvml(nvml_wrapper::Nvml);

/// `nvml_wrapper::Device`, one GPU, borrowed from the library handle.
#[verifier::external_type_specification]
#[verifier::external_body]
pub struct ExDevice<'nvml>(nvml_wrapper::Device<'nvml>);

/// `nvml_wrapper::error::NvmlError`, the error of every GPU query.
#[verifier::external_type_specification]
#[verifier::external_body]
pub struct ExNvmlError(nvml_wrapper::error::NvmlError);

/// `sysinfo::System`, the refreshable view of the host.
#[verifier::external_type_specification]
#[verifier::external_body]
pub struct ExSystem(sysinfo::System);

/// `global_hotkey::GlobalHotKeyManager`, which holds the registrations for
/// as long as it lives.
#[verifier::external_type_specification]
#[verifier::external_body]
pub struct ExGlobalHotKeyManager(global_hotkey::GlobalHotKeyManager);

/// `global_hotkey::hotkey::HotKey`, a chord with its identity token.
#[verifier::external_type_specification]
#[verifier::external_body]
pub struct ExHotKey(global_hotkey::hotkey::HotKey);

/// `global_hotkey::Error`.
#[verifier::external_type_specification]
#[verifier::external_body]
pub struct ExHotKeyError(global_hotkey::Error);

/// The clock domains that the overlay reads.
#[derive(Clone, Copy, Debug, PartialEq, Eq, Structural)]
pub enum ClockDomain {
    Graphics,
    Memory,
}

/// The keys that a chord of the overlay can be made of.
#[derive(Clone, Copy, Debug, PartialEq, Eq, Structural)]
pub enum ChordKey {
    KeyT,
}

/// The token that `HotKey::new` gives to the chord of the key `key`, with
/// the Alt modifier if `alt` is set and with no modifier otherwise.
pub uninterp spec fn chord_token(alt: bool, key: ChordKey) -> u32;

/// Calls `Nvml::device_by_index`. Nothing is claimed of the outcome.
#[verifier::external_body]
pub(crate) fn open_device<'nvml>(
    nvml: &'nvml Nvml,
    index: u32,
) -> (res: Result<Device<'nvml>, NvmlError>) {
    nvml.device_by_index(index)
}

/// Calls `Device::memory_info` and hands on the used and the total bytes,
/// in that order. Nothing is claimed of the outcome.
#[verifier::external_body]
pub(crate) fn device_memory(device: &Device<'_>) -> (res: Result<(u64, u64), NvmlError>) {
    device.memory_info().map(|info| (info.used, info.total))
}

/// Calls `Device::name`. Nothing is claimed of the outcome.
#[verifier::external_body]
pub(crate) fn device_name(device: &Device<'_>) -> (res: Result<String, NvmlError>) {
    device.name()
}

/// Calls `Device::temperature` for the sensor on the GPU die, the only one
/// there is. Nothing is claimed of the outcome.
#[verifier::external_body]
pub(crate) fn device_temperature(device: &Device<'_>) -> (res: Result<u32, NvmlError>) {
    device.temperature(TemperatureSensor::Gpu)
}

/// Calls `Device::clock_info` for the given domain. Nothing is claimed of
/// the outcome.
#[verifier::external_body]
pub(crate) fn device_clock(
    device: &Device<'_>,
    domain: ClockDomain,
) -> (res: Result<u32, NvmlError>) {
    device.clock_info(
        match domain {
            ClockDomain::Graphics => Clock::Graphics,
            ClockDomain::Memory => Clock::Memory,
        },
    )
}

/// Calls `Device::fan_speed` for the fan with the given index. Nothing is
/// claimed of the outcome.
#[verifier::external_body]
pub(crate) fn device_fan_speed(device: &Device<'_>, fan: u32) -> (res: Result<u32, NvmlError>) {
    device.fan_speed(fan)
}

/// Calls `Device::power_usage`, which reports milliwatts. Nothing is
/// claimed of the outcome.
#[verifier::external_body]
pub(crate) fn device_power_usage(device: &Device<'_>) -> (res: Result<u32, NvmlError>) {
    device.power_usage()
}

/// Calls `System::new_all`.
#[verifier::external_body]
pub(crate) fn new_system() -> (system: System) {
    System::new_all()
}

/// Calls `System::refresh_all`.
#[verifier::external_body]
pub(crate) fn refresh_system(system: &mut System) {
    system.refresh_all()
}

/// Calls `System::global_cpu_usage` and converts the reading to a signed
/// byte, dropping the fraction. Nothing is claimed of the value.
#[verifier::external_body]
pub(crate) fn global_cpu_usage(system: &System) -> (usage: i8) {
    system.global_cpu_usage() as i8
}

/// Calls `GlobalHotKeyManager::new`. Nothing is claimed of the outcome.
#[verifier::external_body]
pub(crate) fn new_hotkey_manager() -> (res: Result<GlobalHotKeyManager, global_hotkey::Error>) {
    GlobalHotKeyManager::new()
}

/// Calls `HotKey::new` for the chord made of the key, with the Alt
/// modifier if `alt` is set and with no modifier otherwise, and hands on the
/// chord together with its `id` field, the token that events for it carry.
/// The token is computed from the modifiers and the key alone, so it is
/// claimed to be `chord_token` of the two.
#[verifier::external_body]
pub(crate) fn new_chord(alt: bool, key: ChordKey) -> (made: (HotKey, u32))
    ensures
        made.1 == chord_token(alt, key),
{
    let hotkey = HotKey::new(
        if alt { Some(Modifiers::ALT) } else { None },
        match key {
            ChordKey::KeyT => Code::KeyT,
        },
    );
    (hotkey, hotkey.id)
}

/// Calls `GlobalHotKeyManager::register`. Nothing is claimed of the outcome.
#[verifier::external_body]
pub(crate) fn register_chord(
    manager: &GlobalHotKeyManager,
    hotkey: HotKey,
) -> (res: Result<(), global_hotkey::Error>) {
    manager.register(hotkey)
}

/// Takes every event that is queued on `GlobalHotKeyEvent::receiver` at the
/// moment, without waiting, and hands on their tokens in the order of
/// arrival. Nothing is claimed of what was queued.
#[verifier::external_body]
pub(crate) fn pending_hotkey_events() -> (ids: Vec<u32>) {
    GlobalHotKeyEvent::receiver().try_iter().map(|event| event.id).collect()
}

} // verus!
