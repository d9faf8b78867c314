//! Processor information reported by the CPUID instruction.
use vstd::prelude::*;

verus! {

/// Relies on `raw_cpuid::CpuId::get_processor_frequency_info` and
/// `ProcessorFrequencyInfo::processor_base_frequency`: the base frequency in
/// MHz from CPUID leaf 0x16, or `None` where the processor lacks that leaf.
/// What comes back depends on the machine, so nothing is promised of it.
#[verifier::external_body]
fn reported_base_frequency() -> Option<u16> {
    raw_cpuid::CpuId::new().get_processor_frequency_info().map(
        |info| info.processor_base_frequency(),
    )
}

/// The reported base frequency, or 0 where none was reported.
pub fn base_frequency_or_zero(reported: Option<u16>) -> (r: u16)
    ensures
        r == match reported {
            Some(f) => f,
            None => 0,
        },
{
    match reported {
        Some(f) => f,
        None => 0,
    }
}

/// The processor's base frequency in MHz, or 0 if it could not be read.
pub fn cpu_base_frequency() -> u16 {
    base_frequency_or_zero(reported_base_frequency())
}

} // verus!
