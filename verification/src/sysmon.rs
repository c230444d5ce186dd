//! Sampling CPU load and used memory, through sysinfo.
use vstd::prelude::*;

verus! {

#[verifier::external_type_specification]
#[verifier::external_body]
pub struct ExSystem(sysinfo::System);

/// Relies on sysinfo::System::new: a sampler with nothing loaded yet.
#[verifier::external_body]
pub fn new_system() -> sysinfo::System {
    sysinfo::System::new()
}

/// Relies on sysinfo::System::refresh_cpu_usage: recomputes CPU utilisation
/// from the change since the previous refresh.
#[verifier::external_body]
fn refresh_cpu_usage(sys: &mut sysinfo::System) {
    sys.refresh_cpu_usage()
}

/// Relies on sysinfo::System::refresh_memory: reloads the memory figures.
#[verifier::external_body]
fn refresh_memory(sys: &mut sysinfo::System) {
    sys.refresh_memory()
}

/// Relies on sysinfo::System::global_cpu_usage: the average CPU utilisation
/// in percent, rounded here to the nearest integer.
#[verifier::external_body]
fn cpu_usage_pct(sys: &sysinfo::System) -> u64 {
    sys.global_cpu_usage().round() as u64
}

/// Relies on sysinfo::System::used_memory: the amount of used RAM, in bytes.
#[verifier::external_body]
fn used_memory_bytes(sys: &sysinfo::System) -> u64 {
    sys.used_memory()
}

/// Refreshes the sampler and reads it once: the machine's current CPU
/// percentage and used memory in kilobytes, whatever the machine reports.
pub fn sample_system(sys: &mut sysinfo::System) -> (u64, u64) {
    refresh_cpu_usage(sys);
    refresh_memory(sys);
    let pct = cpu_usage_pct(sys);
    let kb = used_memory_bytes(sys) / 1024;
    (pct, kb)
}

} // verus!
