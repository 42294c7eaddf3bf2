//! The OIDs each profile reads for CPU, memory and disk, and which of them
//! name a table that is walked rather than read once.

use vstd::prelude::*;
use crate::profiles::base::Profile;
use crate::text::{contains, contains_spec, lowercase, to_lowercase};

verus! {

/// What a set of OIDs measures.
#[derive(Debug, Clone, Copy, PartialEq, Eq, Structural)]
pub enum MetricKind {
    Cpu,
    Memory,
    Disk,
}

/// The views of a list of (name, OID) pairs.
pub open spec fn pairs_view(v: Seq<(&'static str, &'static str)>) -> Seq<(Seq<char>, Seq<char>)> {
    v.map_values(|p: (&'static str, &'static str)| (p.0@, p.1@))
}

/// The HOST-RESOURCES-MIB storage table and its columns.
pub open spec fn hr_storage_columns() -> Seq<(Seq<char>, Seq<char>)> {
    seq![("hrStorageTable"@, "1.3.6.1.2.1.25.2.3"@), ("hrStorageDescr"@, "1.3.6.1.2.1.25.2.3.1.3"@), ("hrStorageAllocationUnits"@, "1.3.6.1.2.1.25.2.3.1.4"@), ("hrStorageSize"@, "1.3.6.1.2.1.25.2.3.1.5"@), ("hrStorageUsed"@, "1.3.6.1.2.1.25.2.3.1.6"@)]
}

/// The standard HOST-RESOURCES and UCD-SNMP pairs, read where a profile
/// has no vendor tables of its own.
pub open spec fn standard_metric_oids(kind: MetricKind) -> Seq<(Seq<char>, Seq<char>)> {
    match kind {
        MetricKind::Cpu => seq![("hrProcessorLoad"@, "1.3.6.1.2.1.25.3.3.1.2"@)],
        MetricKind::Memory => seq![("hrStorageDescr"@, "1.3.6.1.2.1.25.2.3.1.3"@), ("hrStorageAllocationUnits"@, "1.3.6.1.2.1.25.2.3.1.4"@), ("hrStorageSize"@, "1.3.6.1.2.1.25.2.3.1.5"@), ("hrStorageUsed"@, "1.3.6.1.2.1.25.2.3.1.6"@), ("memTotalReal"@, "1.3.6.1.4.1.2021.4.5.0"@), ("memAvailReal"@, "1.3.6.1.4.1.2021.4.6.0"@)],
        MetricKind::Disk => hr_storage_columns(),
    }
}

/// The (name, OID) pairs a profile reads for one kind of measure.
pub open spec fn metric_oids_spec(p: Profile, kind: MetricKind) -> Seq<(Seq<char>, Seq<char>)> {
    match (p, kind) {
        (Profile::PfSense(_), MetricKind::Cpu) => seq![("ssUserProc"@, "1.3.6.1.4.1.2021.11.9.0"@), ("ssSystemProc"@, "1.3.6.1.4.1.2021.11.10.0"@), ("ssIdleProc"@, "1.3.6.1.4.1.2021.11.11.0"@), ("ssCpuRawInterrupt"@, "1.3.6.1.4.1.2021.11.56.0"@), ("hrProcessorLoad"@, "1.3.6.1.2.1.25.3.3.1.2"@), ("laLoad1"@, "1.3.6.1.4.1.2021.10.1.3.1"@), ("laLoad5"@, "1.3.6.1.4.1.2021.10.1.3.2"@), ("laLoad15"@, "1.3.6.1.4.1.2021.10.1.3.3"@)],
        (Profile::PfSense(_), MetricKind::Memory) => seq![("memTotalReal"@, "1.3.6.1.4.1.2021.4.5.0"@), ("memAvailReal"@, "1.3.6.1.4.1.2021.4.6.0"@), ("memTotalFree"@, "1.3.6.1.4.1.2021.4.11.0"@), ("memBuffer"@, "1.3.6.1.4.1.2021.4.14.0"@), ("memCached"@, "1.3.6.1.4.1.2021.4.15.0"@), ("memTotalSwap"@, "1.3.6.1.4.1.2021.4.3.0"@), ("memAvailSwap"@, "1.3.6.1.4.1.2021.4.4.0"@)],
        (Profile::PfSense(_), MetricKind::Disk) => seq![("dskTable"@, "1.3.6.1.4.1.2021.9"@), ("dskPath"@, "1.3.6.1.4.1.2021.9.1.2"@), ("dskDevice"@, "1.3.6.1.4.1.2021.9.1.3"@), ("dskTotal"@, "1.3.6.1.4.1.2021.9.1.6"@), ("dskUsed"@, "1.3.6.1.4.1.2021.9.1.8"@), ("dskAvail"@, "1.3.6.1.4.1.2021.9.1.7"@), ("dskPercent"@, "1.3.6.1.4.1.2021.9.1.9"@)],
        (Profile::Fortinet(_), MetricKind::Cpu) => seq![("fgSysCpuUsage"@, "1.3.6.1.4.1.12356.101.4.1.3.0"@)],
        (Profile::Fortinet(_), MetricKind::Memory) => seq![("fgSysMemUsage"@, "1.3.6.1.4.1.12356.101.4.1.4.0"@), ("fgSysMemCapacity"@, "1.3.6.1.4.1.12356.101.4.1.5.0"@)],
        (Profile::Fortinet(_), MetricKind::Disk) => seq![("fgSysDiskUsage"@, "1.3.6.1.4.1.12356.101.4.1.6.0"@), ("fgSysDiskCapacity"@, "1.3.6.1.4.1.12356.101.4.1.7.0"@)],
        (Profile::MikroTikFw(_), MetricKind::Cpu) => seq![("cpu_load"@, "1.3.6.1.2.1.25.3.3.1.2"@)],
        (Profile::MikroTikFw(_), MetricKind::Memory) => Seq::empty(),
        (Profile::MikroTikFw(_), MetricKind::Disk) => hr_storage_columns(),
        (Profile::Sophos(_), MetricKind::Cpu) => seq![("sfosCpuPercentage"@, "1.3.6.1.4.1.2604.5.1.1.0"@)],
        (Profile::Sophos(_), MetricKind::Memory) => seq![("sfosMemPercentage"@, "1.3.6.1.4.1.2604.5.1.2.0"@)],
        (Profile::Sophos(_), MetricKind::Disk) => seq![("sfosDiskPercentage"@, "1.3.6.1.4.1.2604.5.1.3.0"@)],
        (Profile::Ubnt(_), MetricKind::Cpu) => seq![("hrProcessorLoad"@, "1.3.6.1.2.1.25.3.3.1.2"@), ("edgeCpuUtil"@, "1.3.6.1.4.1.4413.1.1.1.1.4.1.0"@)],
        (Profile::Ubnt(_), MetricKind::Memory) => seq![("edgeMemTotal"@, "1.3.6.1.4.1.4413.1.1.1.1.4.2.0"@), ("edgeMemFree"@, "1.3.6.1.4.1.4413.1.1.1.1.4.3.0"@)],
        (Profile::Ubnt(_), MetricKind::Disk) => hr_storage_columns(),
        (Profile::Aruba(_), MetricKind::Cpu) => seq![("hpSwitchCpuStat"@, "1.3.6.1.4.1.11.2.14.11.5.1.9.6.1.0"@)],
        (Profile::Aruba(_), MetricKind::Memory) => seq![("hpLocalMemTotalBytes"@, "1.3.6.1.4.1.11.2.14.11.5.1.1.2.1.1.1.5.1"@), ("hpLocalMemFreeBytes"@, "1.3.6.1.4.1.11.2.14.11.5.1.1.2.1.1.1.6.1"@), ("hpLocalMemAllocBytes"@, "1.3.6.1.4.1.11.2.14.11.5.1.1.2.1.1.1.7.1"@)],
        (Profile::Aruba(_), MetricKind::Disk) => Seq::empty(),
        (Profile::Extreme(_), MetricKind::Cpu) => seq![("extremeCpuTotal"@, "1.3.6.1.4.1.1916.1.32.1.4.1.5.1"@)],
        (Profile::Extreme(_), MetricKind::Memory) => seq![("extremeMemTotal"@, "1.3.6.1.4.1.1916.1.32.2.2.1.2.1"@), ("extremeMemFree"@, "1.3.6.1.4.1.1916.1.32.2.2.1.3.1"@), ("extremeMemUsagePct"@, "1.3.6.1.4.1.1916.1.32.2.2.1.4.1"@)],
        (Profile::Extreme(_), MetricKind::Disk) => Seq::empty(),
        (Profile::Dell(_), MetricKind::Cpu) => seq![("cpu_usage"@, ".1.3.6.1.4.1.6027.3.26.1.4.4.1.5"@)],
        (Profile::Dell(_), MetricKind::Memory) => seq![("mem_usage"@, ".1.3.6.1.4.1.6027.3.26.1.4.4.1.6"@)],
        (Profile::Dell(_), MetricKind::Disk) => Seq::empty(),
        (Profile::TpLink(_), MetricKind::Cpu) => seq![("cpu_usage"@, ".1.3.6.1.4.1.11863.6.1.1.1.1.1.0"@)],
        (Profile::TpLink(_), MetricKind::Memory) => seq![("mem_usage"@, ".1.3.6.1.4.1.11863.6.1.1.1.1.2.0"@)],
        (Profile::TpLink(_), MetricKind::Disk) => Seq::empty(),
        (Profile::Cambium(_), MetricKind::Cpu) => seq![("cambiumCpuUsage"@, "1.3.6.1.4.1.17713.22.1.1.1.4.0"@), ("hrProcessorLoad"@, "1.3.6.1.2.1.25.3.3.1.2"@)],
        (Profile::Cambium(_), MetricKind::Memory) => seq![("cambiumMemTotal"@, "1.3.6.1.4.1.17713.22.1.1.1.5.0"@), ("cambiumMemFree"@, "1.3.6.1.4.1.17713.22.1.1.1.21.0"@)],
        (Profile::Cambium(_), MetricKind::Disk) => hr_storage_columns(),
        (Profile::Generic(_), MetricKind::Cpu) => seq![("hrProcessorLoad"@, "1.3.6.1.2.1.25.3.3.1.2"@)],
        (Profile::Generic(_), MetricKind::Memory) => seq![("hrStorageDescr"@, "1.3.6.1.2.1.25.2.3.1.3"@), ("hrStorageAllocationUnits"@, "1.3.6.1.2.1.25.2.3.1.4"@), ("hrStorageSize"@, "1.3.6.1.2.1.25.2.3.1.5"@), ("hrStorageUsed"@, "1.3.6.1.2.1.25.2.3.1.6"@), ("memTotalReal"@, "1.3.6.1.4.1.2021.4.5.0"@), ("memAvailReal"@, "1.3.6.1.4.1.2021.4.6.0"@)],
        (Profile::Generic(_), MetricKind::Disk) => hr_storage_columns(),
        (Profile::CheckPoint(_), _) => standard_metric_oids(kind),
        (Profile::PaloAlto(_), _) => standard_metric_oids(kind),
        (Profile::MikroTik(_), _) => standard_metric_oids(kind),
        (Profile::Cisco(_), _) => standard_metric_oids(kind),
        (Profile::JuniperMx(_), _) => standard_metric_oids(kind),
        (Profile::Huawei(_), _) => standard_metric_oids(kind),
        (Profile::Datacom(_), _) => standard_metric_oids(kind),
        (Profile::JuniperEx(_), _) => standard_metric_oids(kind),
    }
}

fn pfsense_cpu_oids() -> (r: Vec<(&'static str, &'static str)>)
    ensures
        pairs_view(r@) == seq![("ssUserProc"@, "1.3.6.1.4.1.2021.11.9.0"@), ("ssSystemProc"@, "1.3.6.1.4.1.2021.11.10.0"@), ("ssIdleProc"@, "1.3.6.1.4.1.2021.11.11.0"@), ("ssCpuRawInterrupt"@, "1.3.6.1.4.1.2021.11.56.0"@), ("hrProcessorLoad"@, "1.3.6.1.2.1.25.3.3.1.2"@), ("laLoad1"@, "1.3.6.1.4.1.2021.10.1.3.1"@), ("laLoad5"@, "1.3.6.1.4.1.2021.10.1.3.2"@), ("laLoad15"@, "1.3.6.1.4.1.2021.10.1.3.3"@)],
{
    let r = vec![("ssUserProc", "1.3.6.1.4.1.2021.11.9.0"), ("ssSystemProc", "1.3.6.1.4.1.2021.11.10.0"), ("ssIdleProc", "1.3.6.1.4.1.2021.11.11.0"), ("ssCpuRawInterrupt", "1.3.6.1.4.1.2021.11.56.0"), ("hrProcessorLoad", "1.3.6.1.2.1.25.3.3.1.2"), ("laLoad1", "1.3.6.1.4.1.2021.10.1.3.1"), ("laLoad5", "1.3.6.1.4.1.2021.10.1.3.2"), ("laLoad15", "1.3.6.1.4.1.2021.10.1.3.3")];
    assert(pairs_view(r@) =~= seq![("ssUserProc"@, "1.3.6.1.4.1.2021.11.9.0"@), ("ssSystemProc"@, "1.3.6.1.4.1.2021.11.10.0"@), ("ssIdleProc"@, "1.3.6.1.4.1.2021.11.11.0"@), ("ssCpuRawInterrupt"@, "1.3.6.1.4.1.2021.11.56.0"@), ("hrProcessorLoad"@, "1.3.6.1.2.1.25.3.3.1.2"@), ("laLoad1"@, "1.3.6.1.4.1.2021.10.1.3.1"@), ("laLoad5"@, "1.3.6.1.4.1.2021.10.1.3.2"@), ("laLoad15"@, "1.3.6.1.4.1.2021.10.1.3.3"@)]);
    r
}

fn pfsense_memory_oids() -> (r: Vec<(&'static str, &'static str)>)
    ensures
        pairs_view(r@) == seq![("memTotalReal"@, "1.3.6.1.4.1.2021.4.5.0"@), ("memAvailReal"@, "1.3.6.1.4.1.2021.4.6.0"@), ("memTotalFree"@, "1.3.6.1.4.1.2021.4.11.0"@), ("memBuffer"@, "1.3.6.1.4.1.2021.4.14.0"@), ("memCached"@, "1.3.6.1.4.1.2021.4.15.0"@), ("memTotalSwap"@, "1.3.6.1.4.1.2021.4.3.0"@), ("memAvailSwap"@, "1.3.6.1.4.1.2021.4.4.0"@)],
{
    let r = vec![("memTotalReal", "1.3.6.1.4.1.2021.4.5.0"), ("memAvailReal", "1.3.6.1.4.1.2021.4.6.0"), ("memTotalFree", "1.3.6.1.4.1.2021.4.11.0"), ("memBuffer", "1.3.6.1.4.1.2021.4.14.0"), ("memCached", "1.3.6.1.4.1.2021.4.15.0"), ("memTotalSwap", "1.3.6.1.4.1.2021.4.3.0"), ("memAvailSwap", "1.3.6.1.4.1.2021.4.4.0")];
    assert(pairs_view(r@) =~= seq![("memTotalReal"@, "1.3.6.1.4.1.2021.4.5.0"@), ("memAvailReal"@, "1.3.6.1.4.1.2021.4.6.0"@), ("memTotalFree"@, "1.3.6.1.4.1.2021.4.11.0"@), ("memBuffer"@, "1.3.6.1.4.1.2021.4.14.0"@), ("memCached"@, "1.3.6.1.4.1.2021.4.15.0"@), ("memTotalSwap"@, "1.3.6.1.4.1.2021.4.3.0"@), ("memAvailSwap"@, "1.3.6.1.4.1.2021.4.4.0"@)]);
    r
}

fn pfsense_disk_oids() -> (r: Vec<(&'static str, &'static str)>)
    ensures
        pairs_view(r@) == seq![("dskTable"@, "1.3.6.1.4.1.2021.9"@), ("dskPath"@, "1.3.6.1.4.1.2021.9.1.2"@), ("dskDevice"@, "1.3.6.1.4.1.2021.9.1.3"@), ("dskTotal"@, "1.3.6.1.4.1.2021.9.1.6"@), ("dskUsed"@, "1.3.6.1.4.1.2021.9.1.8"@), ("dskAvail"@, "1.3.6.1.4.1.2021.9.1.7"@), ("dskPercent"@, "1.3.6.1.4.1.2021.9.1.9"@)],
{
    let r = vec![("dskTable", "1.3.6.1.4.1.2021.9"), ("dskPath", "1.3.6.1.4.1.2021.9.1.2"), ("dskDevice", "1.3.6.1.4.1.2021.9.1.3"), ("dskTotal", "1.3.6.1.4.1.2021.9.1.6"), ("dskUsed", "1.3.6.1.4.1.2021.9.1.8"), ("dskAvail", "1.3.6.1.4.1.2021.9.1.7"), ("dskPercent", "1.3.6.1.4.1.2021.9.1.9")];
    assert(pairs_view(r@) =~= seq![("dskTable"@, "1.3.6.1.4.1.2021.9"@), ("dskPath"@, "1.3.6.1.4.1.2021.9.1.2"@), ("dskDevice"@, "1.3.6.1.4.1.2021.9.1.3"@), ("dskTotal"@, "1.3.6.1.4.1.2021.9.1.6"@), ("dskUsed"@, "1.3.6.1.4.1.2021.9.1.8"@), ("dskAvail"@, "1.3.6.1.4.1.2021.9.1.7"@), ("dskPercent"@, "1.3.6.1.4.1.2021.9.1.9"@)]);
    r
}

fn fortinet_cpu_oids() -> (r: Vec<(&'static str, &'static str)>)
    ensures
        pairs_view(r@) == seq![("fgSysCpuUsage"@, "1.3.6.1.4.1.12356.101.4.1.3.0"@)],
{
    let r = vec![("fgSysCpuUsage", "1.3.6.1.4.1.12356.101.4.1.3.0")];
    assert(pairs_view(r@) =~= seq![("fgSysCpuUsage"@, "1.3.6.1.4.1.12356.101.4.1.3.0"@)]);
    r
}

fn fortinet_memory_oids() -> (r: Vec<(&'static str, &'static str)>)
    ensures
        pairs_view(r@) == seq![("fgSysMemUsage"@, "1.3.6.1.4.1.12356.101.4.1.4.0"@), ("fgSysMemCapacity"@, "1.3.6.1.4.1.12356.101.4.1.5.0"@)],
{
    let r = vec![("fgSysMemUsage", "1.3.6.1.4.1.12356.101.4.1.4.0"), ("fgSysMemCapacity", "1.3.6.1.4.1.12356.101.4.1.5.0")];
    assert(pairs_view(r@) =~= seq![("fgSysMemUsage"@, "1.3.6.1.4.1.12356.101.4.1.4.0"@), ("fgSysMemCapacity"@, "1.3.6.1.4.1.12356.101.4.1.5.0"@)]);
    r
}

fn fortinet_disk_oids() -> (r: Vec<(&'static str, &'static str)>)
    ensures
        pairs_view(r@) == seq![("fgSysDiskUsage"@, "1.3.6.1.4.1.12356.101.4.1.6.0"@), ("fgSysDiskCapacity"@, "1.3.6.1.4.1.12356.101.4.1.7.0"@)],
{
    let r = vec![("fgSysDiskUsage", "1.3.6.1.4.1.12356.101.4.1.6.0"), ("fgSysDiskCapacity", "1.3.6.1.4.1.12356.101.4.1.7.0")];
    assert(pairs_view(r@) =~= seq![("fgSysDiskUsage"@, "1.3.6.1.4.1.12356.101.4.1.6.0"@), ("fgSysDiskCapacity"@, "1.3.6.1.4.1.12356.101.4.1.7.0"@)]);
    r
}

fn mikrotikfw_cpu_oids() -> (r: Vec<(&'static str, &'static str)>)
    ensures
        pairs_view(r@) == seq![("cpu_load"@, "1.3.6.1.2.1.25.3.3.1.2"@)],
{
    let r = vec![("cpu_load", "1.3.6.1.2.1.25.3.3.1.2")];
    assert(pairs_view(r@) =~= seq![("cpu_load"@, "1.3.6.1.2.1.25.3.3.1.2"@)]);
    r
}

fn mikrotikfw_memory_oids() -> (r: Vec<(&'static str, &'static str)>)
    ensures
        pairs_view(r@) == Seq::<(Seq<char>, Seq<char>)>::empty(),
{
    let r: Vec<(&'static str, &'static str)> = Vec::new();
    assert(pairs_view(r@) =~= Seq::<(Seq<char>, Seq<char>)>::empty());
    r
}

fn mikrotikfw_disk_oids() -> (r: Vec<(&'static str, &'static str)>)
    ensures
        pairs_view(r@) == hr_storage_columns(),
{
    let r = vec![("hrStorageTable", "1.3.6.1.2.1.25.2.3"), ("hrStorageDescr", "1.3.6.1.2.1.25.2.3.1.3"), ("hrStorageAllocationUnits", "1.3.6.1.2.1.25.2.3.1.4"), ("hrStorageSize", "1.3.6.1.2.1.25.2.3.1.5"), ("hrStorageUsed", "1.3.6.1.2.1.25.2.3.1.6")];
    assert(pairs_view(r@) =~= hr_storage_columns());
    r
}

fn sophos_cpu_oids() -> (r: Vec<(&'static str, &'static str)>)
    ensures
        pairs_view(r@) == seq![("sfosCpuPercentage"@, "1.3.6.1.4.1.2604.5.1.1.0"@)],
{
    let r = vec![("sfosCpuPercentage", "1.3.6.1.4.1.2604.5.1.1.0")];
    assert(pairs_view(r@) =~= seq![("sfosCpuPercentage"@, "1.3.6.1.4.1.2604.5.1.1.0"@)]);
    r
}

fn sophos_memory_oids() -> (r: Vec<(&'static str, &'static str)>)
    ensures
        pairs_view(r@) == seq![("sfosMemPercentage"@, "1.3.6.1.4.1.2604.5.1.2.0"@)],
{
    let r = vec![("sfosMemPercentage", "1.3.6.1.4.1.2604.5.1.2.0")];
    assert(pairs_view(r@) =~= seq![("sfosMemPercentage"@, "1.3.6.1.4.1.2604.5.1.2.0"@)]);
    r
}

fn sophos_disk_oids() -> (r: Vec<(&'static str, &'static str)>)
    ensures
        pairs_view(r@) == seq![("sfosDiskPercentage"@, "1.3.6.1.4.1.2604.5.1.3.0"@)],
{
    let r = vec![("sfosDiskPercentage", "1.3.6.1.4.1.2604.5.1.3.0")];
    assert(pairs_view(r@) =~= seq![("sfosDiskPercentage"@, "1.3.6.1.4.1.2604.5.1.3.0"@)]);
    r
}

fn ubnt_cpu_oids() -> (r: Vec<(&'static str, &'static str)>)
    ensures
        pairs_view(r@) == seq![("hrProcessorLoad"@, "1.3.6.1.2.1.25.3.3.1.2"@), ("edgeCpuUtil"@, "1.3.6.1.4.1.4413.1.1.1.1.4.1.0"@)],
{
    let r = vec![("hrProcessorLoad", "1.3.6.1.2.1.25.3.3.1.2"), ("edgeCpuUtil", "1.3.6.1.4.1.4413.1.1.1.1.4.1.0")];
    assert(pairs_view(r@) =~= seq![("hrProcessorLoad"@, "1.3.6.1.2.1.25.3.3.1.2"@), ("edgeCpuUtil"@, "1.3.6.1.4.1.4413.1.1.1.1.4.1.0"@)]);
    r
}

fn ubnt_memory_oids() -> (r: Vec<(&'static str, &'static str)>)
    ensures
        pairs_view(r@) == seq![("edgeMemTotal"@, "1.3.6.1.4.1.4413.1.1.1.1.4.2.0"@), ("edgeMemFree"@, "1.3.6.1.4.1.4413.1.1.1.1.4.3.0"@)],
{
    let r = vec![("edgeMemTotal", "1.3.6.1.4.1.4413.1.1.1.1.4.2.0"), ("edgeMemFree", "1.3.6.1.4.1.4413.1.1.1.1.4.3.0")];
    assert(pairs_view(r@) =~= seq![("edgeMemTotal"@, "1.3.6.1.4.1.4413.1.1.1.1.4.2.0"@), ("edgeMemFree"@, "1.3.6.1.4.1.4413.1.1.1.1.4.3.0"@)]);
    r
}

fn ubnt_disk_oids() -> (r: Vec<(&'static str, &'static str)>)
    ensures
        pairs_view(r@) == hr_storage_columns(),
{
    let r = vec![("hrStorageTable", "1.3.6.1.2.1.25.2.3"), ("hrStorageDescr", "1.3.6.1.2.1.25.2.3.1.3"), ("hrStorageAllocationUnits", "1.3.6.1.2.1.25.2.3.1.4"), ("hrStorageSize", "1.3.6.1.2.1.25.2.3.1.5"), ("hrStorageUsed", "1.3.6.1.2.1.25.2.3.1.6")];
    assert(pairs_view(r@) =~= hr_storage_columns());
    r
}

fn aruba_cpu_oids() -> (r: Vec<(&'static str, &'static str)>)
    ensures
        pairs_view(r@) == seq![("hpSwitchCpuStat"@, "1.3.6.1.4.1.11.2.14.11.5.1.9.6.1.0"@)],
{
    let r = vec![("hpSwitchCpuStat", "1.3.6.1.4.1.11.2.14.11.5.1.9.6.1.0")];
    assert(pairs_view(r@) =~= seq![("hpSwitchCpuStat"@, "1.3.6.1.4.1.11.2.14.11.5.1.9.6.1.0"@)]);
    r
}

fn aruba_memory_oids() -> (r: Vec<(&'static str, &'static str)>)
    ensures
        pairs_view(r@) == seq![("hpLocalMemTotalBytes"@, "1.3.6.1.4.1.11.2.14.11.5.1.1.2.1.1.1.5.1"@), ("hpLocalMemFreeBytes"@, "1.3.6.1.4.1.11.2.14.11.5.1.1.2.1.1.1.6.1"@), ("hpLocalMemAllocBytes"@, "1.3.6.1.4.1.11.2.14.11.5.1.1.2.1.1.1.7.1"@)],
{
    let r = vec![("hpLocalMemTotalBytes", "1.3.6.1.4.1.11.2.14.11.5.1.1.2.1.1.1.5.1"), ("hpLocalMemFreeBytes", "1.3.6.1.4.1.11.2.14.11.5.1.1.2.1.1.1.6.1"), ("hpLocalMemAllocBytes", "1.3.6.1.4.1.11.2.14.11.5.1.1.2.1.1.1.7.1")];
    assert(pairs_view(r@) =~= seq![("hpLocalMemTotalBytes"@, "1.3.6.1.4.1.11.2.14.11.5.1.1.2.1.1.1.5.1"@), ("hpLocalMemFreeBytes"@, "1.3.6.1.4.1.11.2.14.11.5.1.1.2.1.1.1.6.1"@), ("hpLocalMemAllocBytes"@, "1.3.6.1.4.1.11.2.14.11.5.1.1.2.1.1.1.7.1"@)]);
    r
}

fn aruba_disk_oids() -> (r: Vec<(&'static str, &'static str)>)
    ensures
        pairs_view(r@) == Seq::<(Seq<char>, Seq<char>)>::empty(),
{
    let r: Vec<(&'static str, &'static str)> = Vec::new();
    assert(pairs_view(r@) =~= Seq::<(Seq<char>, Seq<char>)>::empty());
    r
}

fn extreme_cpu_oids() -> (r: Vec<(&'static str, &'static str)>)
    ensures
        pairs_view(r@) == seq![("extremeCpuTotal"@, "1.3.6.1.4.1.1916.1.32.1.4.1.5.1"@)],
{
    let r = vec![("extremeCpuTotal", "1.3.6.1.4.1.1916.1.32.1.4.1.5.1")];
    assert(pairs_view(r@) =~= seq![("extremeCpuTotal"@, "1.3.6.1.4.1.1916.1.32.1.4.1.5.1"@)]);
    r
}

fn extreme_memory_oids() -> (r: Vec<(&'static str, &'static str)>)
    ensures
        pairs_view(r@) == seq![("extremeMemTotal"@, "1.3.6.1.4.1.1916.1.32.2.2.1.2.1"@), ("extremeMemFree"@, "1.3.6.1.4.1.1916.1.32.2.2.1.3.1"@), ("extremeMemUsagePct"@, "1.3.6.1.4.1.1916.1.32.2.2.1.4.1"@)],
{
    let r = vec![("extremeMemTotal", "1.3.6.1.4.1.1916.1.32.2.2.1.2.1"), ("extremeMemFree", "1.3.6.1.4.1.1916.1.32.2.2.1.3.1"), ("extremeMemUsagePct", "1.3.6.1.4.1.1916.1.32.2.2.1.4.1")];
    assert(pairs_view(r@) =~= seq![("extremeMemTotal"@, "1.3.6.1.4.1.1916.1.32.2.2.1.2.1"@), ("extremeMemFree"@, "1.3.6.1.4.1.1916.1.32.2.2.1.3.1"@), ("extremeMemUsagePct"@, "1.3.6.1.4.1.1916.1.32.2.2.1.4.1"@)]);
    r
}

fn extreme_disk_oids() -> (r: Vec<(&'static str, &'static str)>)
    ensures
        pairs_view(r@) == Seq::<(Seq<char>, Seq<char>)>::empty(),
{
    let r: Vec<(&'static str, &'static str)> = Vec::new();
    assert(pairs_view(r@) =~= Seq::<(Seq<char>, Seq<char>)>::empty());
    r
}

fn dell_cpu_oids() -> (r: Vec<(&'static str, &'static str)>)
    ensures
        pairs_view(r@) == seq![("cpu_usage"@, ".1.3.6.1.4.1.6027.3.26.1.4.4.1.5"@)],
{
    let r = vec![("cpu_usage", ".1.3.6.1.4.1.6027.3.26.1.4.4.1.5")];
    assert(pairs_view(r@) =~= seq![("cpu_usage"@, ".1.3.6.1.4.1.6027.3.26.1.4.4.1.5"@)]);
    r
}

fn dell_memory_oids() -> (r: Vec<(&'static str, &'static str)>)
    ensures
        pairs_view(r@) == seq![("mem_usage"@, ".1.3.6.1.4.1.6027.3.26.1.4.4.1.6"@)],
{
    let r = vec![("mem_usage", ".1.3.6.1.4.1.6027.3.26.1.4.4.1.6")];
    assert(pairs_view(r@) =~= seq![("mem_usage"@, ".1.3.6.1.4.1.6027.3.26.1.4.4.1.6"@)]);
    r
}

fn dell_disk_oids() -> (r: Vec<(&'static str, &'static str)>)
    ensures
        pairs_view(r@) == Seq::<(Seq<char>, Seq<char>)>::empty(),
{
    let r: Vec<(&'static str, &'static str)> = Vec::new();
    assert(pairs_view(r@) =~= Seq::<(Seq<char>, Seq<char>)>::empty());
    r
}

fn tplink_cpu_oids() -> (r: Vec<(&'static str, &'static str)>)
    ensures
        pairs_view(r@) == seq![("cpu_usage"@, ".1.3.6.1.4.1.11863.6.1.1.1.1.1.0"@)],
{
    let r = vec![("cpu_usage", ".1.3.6.1.4.1.11863.6.1.1.1.1.1.0")];
    assert(pairs_view(r@) =~= seq![("cpu_usage"@, ".1.3.6.1.4.1.11863.6.1.1.1.1.1.0"@)]);
    r
}

fn tplink_memory_oids() -> (r: Vec<(&'static str, &'static str)>)
    ensures
        pairs_view(r@) == seq![("mem_usage"@, ".1.3.6.1.4.1.11863.6.1.1.1.1.2.0"@)],
{
    let r = vec![("mem_usage", ".1.3.6.1.4.1.11863.6.1.1.1.1.2.0")];
    assert(pairs_view(r@) =~= seq![("mem_usage"@, ".1.3.6.1.4.1.11863.6.1.1.1.1.2.0"@)]);
    r
}

fn tplink_disk_oids() -> (r: Vec<(&'static str, &'static str)>)
    ensures
        pairs_view(r@) == Seq::<(Seq<char>, Seq<char>)>::empty(),
{
    let r: Vec<(&'static str, &'static str)> = Vec::new();
    assert(pairs_view(r@) =~= Seq::<(Seq<char>, Seq<char>)>::empty());
    r
}

fn cambium_cpu_oids() -> (r: Vec<(&'static str, &'static str)>)
    ensures
        pairs_view(r@) == seq![("cambiumCpuUsage"@, "1.3.6.1.4.1.17713.22.1.1.1.4.0"@), ("hrProcessorLoad"@, "1.3.6.1.2.1.25.3.3.1.2"@)],
{
    let r = vec![("cambiumCpuUsage", "1.3.6.1.4.1.17713.22.1.1.1.4.0"), ("hrProcessorLoad", "1.3.6.1.2.1.25.3.3.1.2")];
    assert(pairs_view(r@) =~= seq![("cambiumCpuUsage"@, "1.3.6.1.4.1.17713.22.1.1.1.4.0"@), ("hrProcessorLoad"@, "1.3.6.1.2.1.25.3.3.1.2"@)]);
    r
}

fn cambium_memory_oids() -> (r: Vec<(&'static str, &'static str)>)
    ensures
        pairs_view(r@) == seq![("cambiumMemTotal"@, "1.3.6.1.4.1.17713.22.1.1.1.5.0"@), ("cambiumMemFree"@, "1.3.6.1.4.1.17713.22.1.1.1.21.0"@)],
{
    let r = vec![("cambiumMemTotal", "1.3.6.1.4.1.17713.22.1.1.1.5.0"), ("cambiumMemFree", "1.3.6.1.4.1.17713.22.1.1.1.21.0")];
    assert(pairs_view(r@) =~= seq![("cambiumMemTotal"@, "1.3.6.1.4.1.17713.22.1.1.1.5.0"@), ("cambiumMemFree"@, "1.3.6.1.4.1.17713.22.1.1.1.21.0"@)]);
    r
}

fn cambium_disk_oids() -> (r: Vec<(&'static str, &'static str)>)
    ensures
        pairs_view(r@) == hr_storage_columns(),
{
    let r = vec![("hrStorageTable", "1.3.6.1.2.1.25.2.3"), ("hrStorageDescr", "1.3.6.1.2.1.25.2.3.1.3"), ("hrStorageAllocationUnits", "1.3.6.1.2.1.25.2.3.1.4"), ("hrStorageSize", "1.3.6.1.2.1.25.2.3.1.5"), ("hrStorageUsed", "1.3.6.1.2.1.25.2.3.1.6")];
    assert(pairs_view(r@) =~= hr_storage_columns());
    r
}

fn generic_cpu_oids() -> (r: Vec<(&'static str, &'static str)>)
    ensures
        pairs_view(r@) == seq![("hrProcessorLoad"@, "1.3.6.1.2.1.25.3.3.1.2"@)],
{
    let r = vec![("hrProcessorLoad", "1.3.6.1.2.1.25.3.3.1.2")];
    assert(pairs_view(r@) =~= seq![("hrProcessorLoad"@, "1.3.6.1.2.1.25.3.3.1.2"@)]);
    r
}

fn generic_memory_oids() -> (r: Vec<(&'static str, &'static str)>)
    ensures
        pairs_view(r@) == seq![("hrStorageDescr"@, "1.3.6.1.2.1.25.2.3.1.3"@), ("hrStorageAllocationUnits"@, "1.3.6.1.2.1.25.2.3.1.4"@), ("hrStorageSize"@, "1.3.6.1.2.1.25.2.3.1.5"@), ("hrStorageUsed"@, "1.3.6.1.2.1.25.2.3.1.6"@), ("memTotalReal"@, "1.3.6.1.4.1.2021.4.5.0"@), ("memAvailReal"@, "1.3.6.1.4.1.2021.4.6.0"@)],
{
    let r = vec![("hrStorageDescr", "1.3.6.1.2.1.25.2.3.1.3"), ("hrStorageAllocationUnits", "1.3.6.1.2.1.25.2.3.1.4"), ("hrStorageSize", "1.3.6.1.2.1.25.2.3.1.5"), ("hrStorageUsed", "1.3.6.1.2.1.25.2.3.1.6"), ("memTotalReal", "1.3.6.1.4.1.2021.4.5.0"), ("memAvailReal", "1.3.6.1.4.1.2021.4.6.0")];
    assert(pairs_view(r@) =~= seq![("hrStorageDescr"@, "1.3.6.1.2.1.25.2.3.1.3"@), ("hrStorageAllocationUnits"@, "1.3.6.1.2.1.25.2.3.1.4"@), ("hrStorageSize"@, "1.3.6.1.2.1.25.2.3.1.5"@), ("hrStorageUsed"@, "1.3.6.1.2.1.25.2.3.1.6"@), ("memTotalReal"@, "1.3.6.1.4.1.2021.4.5.0"@), ("memAvailReal"@, "1.3.6.1.4.1.2021.4.6.0"@)]);
    r
}

fn generic_disk_oids() -> (r: Vec<(&'static str, &'static str)>)
    ensures
        pairs_view(r@) == hr_storage_columns(),
{
    let r = vec![("hrStorageTable", "1.3.6.1.2.1.25.2.3"), ("hrStorageDescr", "1.3.6.1.2.1.25.2.3.1.3"), ("hrStorageAllocationUnits", "1.3.6.1.2.1.25.2.3.1.4"), ("hrStorageSize", "1.3.6.1.2.1.25.2.3.1.5"), ("hrStorageUsed", "1.3.6.1.2.1.25.2.3.1.6")];
    assert(pairs_view(r@) =~= hr_storage_columns());
    r
}

fn standard_oids(kind: MetricKind) -> (r: Vec<(&'static str, &'static str)>)
    ensures
        pairs_view(r@) == standard_metric_oids(kind),
{
    match kind {
        MetricKind::Cpu => generic_cpu_oids(),
        MetricKind::Memory => generic_memory_oids(),
        MetricKind::Disk => generic_disk_oids(),
    }
}

impl Profile {
    /// The (name, OID) pairs this profile reads for one kind of measure.
    pub fn metric_oids(&self, kind: MetricKind) -> (r: Vec<(&'static str, &'static str)>)
        ensures
            pairs_view(r@) == metric_oids_spec(*self, kind),
    {
        match (self, kind) {
            (Profile::PfSense(_), MetricKind::Cpu) => pfsense_cpu_oids(),
            (Profile::PfSense(_), MetricKind::Memory) => pfsense_memory_oids(),
            (Profile::PfSense(_), MetricKind::Disk) => pfsense_disk_oids(),
            (Profile::Fortinet(_), MetricKind::Cpu) => fortinet_cpu_oids(),
            (Profile::Fortinet(_), MetricKind::Memory) => fortinet_memory_oids(),
            (Profile::Fortinet(_), MetricKind::Disk) => fortinet_disk_oids(),
            (Profile::MikroTikFw(_), MetricKind::Cpu) => mikrotikfw_cpu_oids(),
            (Profile::MikroTikFw(_), MetricKind::Memory) => mikrotikfw_memory_oids(),
            (Profile::MikroTikFw(_), MetricKind::Disk) => mikrotikfw_disk_oids(),
            (Profile::Sophos(_), MetricKind::Cpu) => sophos_cpu_oids(),
            (Profile::Sophos(_), MetricKind::Memory) => sophos_memory_oids(),
            (Profile::Sophos(_), MetricKind::Disk) => sophos_disk_oids(),
            (Profile::Ubnt(_), MetricKind::Cpu) => ubnt_cpu_oids(),
            (Profile::Ubnt(_), MetricKind::Memory) => ubnt_memory_oids(),
            (Profile::Ubnt(_), MetricKind::Disk) => ubnt_disk_oids(),
            (Profile::Aruba(_), MetricKind::Cpu) => aruba_cpu_oids(),
            (Profile::Aruba(_), MetricKind::Memory) => aruba_memory_oids(),
            (Profile::Aruba(_), MetricKind::Disk) => aruba_disk_oids(),
            (Profile::Extreme(_), MetricKind::Cpu) => extreme_cpu_oids(),
            (Profile::Extreme(_), MetricKind::Memory) => extreme_memory_oids(),
            (Profile::Extreme(_), MetricKind::Disk) => extreme_disk_oids(),
            (Profile::Dell(_), MetricKind::Cpu) => dell_cpu_oids(),
            (Profile::Dell(_), MetricKind::Memory) => dell_memory_oids(),
            (Profile::Dell(_), MetricKind::Disk) => dell_disk_oids(),
            (Profile::TpLink(_), MetricKind::Cpu) => tplink_cpu_oids(),
            (Profile::TpLink(_), MetricKind::Memory) => tplink_memory_oids(),
            (Profile::TpLink(_), MetricKind::Disk) => tplink_disk_oids(),
            (Profile::Cambium(_), MetricKind::Cpu) => cambium_cpu_oids(),
            (Profile::Cambium(_), MetricKind::Memory) => cambium_memory_oids(),
            (Profile::Cambium(_), MetricKind::Disk) => cambium_disk_oids(),
            (Profile::Generic(_), MetricKind::Cpu) => generic_cpu_oids(),
            (Profile::Generic(_), MetricKind::Memory) => generic_memory_oids(),
            (Profile::Generic(_), MetricKind::Disk) => generic_disk_oids(),
            (Profile::CheckPoint(_), _) => standard_oids(kind),
            (Profile::PaloAlto(_), _) => standard_oids(kind),
            (Profile::MikroTik(_), _) => standard_oids(kind),
            (Profile::Cisco(_), _) => standard_oids(kind),
            (Profile::JuniperMx(_), _) => standard_oids(kind),
            (Profile::Huawei(_), _) => standard_oids(kind),
            (Profile::Datacom(_), _) => standard_oids(kind),
            (Profile::JuniperEx(_), _) => standard_oids(kind),
        }
    }
}

/// A name that designates a table, walked rather than read once: it
/// contains `table` in any case.
pub open spec fn names_table(name: Seq<char>) -> bool {
    contains_spec(lowercase(name), "table"@)
}

/// Whether a name designates a table.
pub fn is_table_name(name: &str) -> (r: bool)
    ensures
        r == names_table(name@),
{
    let l = to_lowercase(name);
    contains(l.as_str(), "table")
}

/// The pairs whose name designates a table (`tables`) or not, in order.
pub open spec fn split_spec(oids: Seq<(Seq<char>, Seq<char>)>, tables: bool) -> Seq<(Seq<char>, Seq<char>)>
    decreases oids.len(),
{
    if oids.len() == 0 {
        Seq::empty()
    } else if names_table(oids.last().0) == tables {
        split_spec(oids.drop_last(), tables).push(oids.last())
    } else {
        split_spec(oids.drop_last(), tables)
    }
}

/// How a set of OIDs is queried: the pairs read once, and the tables walked.
pub fn split_queries(oids: &Vec<(&'static str, &'static str)>) -> (r: (Vec<(&'static str, &'static str)>, Vec<(&'static str, &'static str)>))
    ensures
        pairs_view(r.0@) == split_spec(pairs_view(oids@), false),
        pairs_view(r.1@) == split_spec(pairs_view(oids@), true),
{
    let ghost all = pairs_view(oids@);
    let mut scalars: Vec<(&'static str, &'static str)> = Vec::new();
    let mut walked: Vec<(&'static str, &'static str)> = Vec::new();
    let mut i: usize = 0;
    while i < oids.len()
        invariant
            i <= oids@.len(),
            all == pairs_view(oids@),
            pairs_view(scalars@) == split_spec(all.take(i as int), false),
            pairs_view(walked@) == split_spec(all.take(i as int), true),
        decreases oids.len() - i,
    {
        assert(all.take(i + 1).drop_last() =~= all.take(i as int));
        assert(all.take(i + 1).last() == (oids@[i as int].0@, oids@[i as int].1@));
        let (name, oid) = oids[i];
        if is_table_name(name) {
            let ghost before = pairs_view(walked@);
            walked.push((name, oid));
            assert(pairs_view(walked@) =~= before.push((name@, oid@)));
        } else {
            let ghost before = pairs_view(scalars@);
            scalars.push((name, oid));
            assert(pairs_view(scalars@) =~= before.push((name@, oid@)));
        }
        i += 1;
    }
    assert(all.take(oids.len() as int) =~= all);
    (scalars, walked)
}

} // verus!
