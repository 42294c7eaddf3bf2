use ness_relay::profiles::base::Profile;
use ness_relay::profiles::firewalls::{MikroTikFwProfile, PfSenseProfile};
use ness_relay::profiles::generic::GenericProfile;
use ness_relay::profiles::oids::{is_table_name, split_queries, MetricKind};
use ness_relay::profiles::routers::CiscoProfile;
use ness_relay::profiles::switches::{ArubaProfile, HuaweiProfile, TpLinkProfile};

#[test]
fn profile_metric_oids() {
    let pf = Profile::PfSense(PfSenseProfile::new());
    let cpu = pf.metric_oids(MetricKind::Cpu);
    assert_eq!(cpu.len(), 8);
    assert_eq!(cpu[0], ("ssUserProc", "1.3.6.1.4.1.2021.11.9.0"));
    assert_eq!(cpu[7], ("laLoad15", "1.3.6.1.4.1.2021.10.1.3.3"));
    assert_eq!(pf.metric_oids(MetricKind::Disk)[0], ("dskTable", "1.3.6.1.4.1.2021.9"));
    let mk = Profile::MikroTikFw(MikroTikFwProfile::new());
    assert!(mk.metric_oids(MetricKind::Memory).is_empty());
    assert_eq!(mk.metric_oids(MetricKind::Disk).len(), 5);
    assert!(Profile::Aruba(ArubaProfile::new()).metric_oids(MetricKind::Disk).is_empty());
    assert_eq!(
        Profile::TpLink(TpLinkProfile).metric_oids(MetricKind::Memory),
        vec![("mem_usage", ".1.3.6.1.4.1.11863.6.1.1.1.1.2.0")]
    );
    assert_eq!(Profile::Generic(GenericProfile::new("generic")).metric_oids(MetricKind::Memory).len(), 6);
}

#[test]
fn table_entries_are_walked() {
    assert!(is_table_name("hrStorageTable"));
    assert!(is_table_name("dskTABLE"));
    assert!(!is_table_name("hrProcessorLoad"));
    let disk = Profile::Generic(GenericProfile::new("generic")).metric_oids(MetricKind::Disk);
    let (scalars, walked) = split_queries(&disk);
    assert_eq!(walked, vec![("hrStorageTable", "1.3.6.1.2.1.25.2.3")]);
    assert_eq!(scalars.len(), 4);
    assert_eq!(scalars[0].0, "hrStorageDescr");
}

#[test]
fn profiles_without_vendor_tables_read_the_standard_mibs() {
    let generic = Profile::Generic(GenericProfile::new("generic"));
    let cisco = Profile::Cisco(CiscoProfile::new());
    for kind in [MetricKind::Cpu, MetricKind::Memory, MetricKind::Disk] {
        assert_eq!(cisco.metric_oids(kind), generic.metric_oids(kind));
    }
    assert_eq!(Profile::Huawei(HuaweiProfile).metric_oids(MetricKind::Cpu), vec![("hrProcessorLoad", "1.3.6.1.2.1.25.3.3.1.2")]);
}
