use axcli::vfio::{
    check_config_region, check_msix_irq_count, find_capability_in_snapshot, find_pci_capability,
    forward_count, keep_ready_command, keep_ready_msix_ctrl, keep_ready_pmcsr, msix_entry_offset,
    msix_entry_vector, msix_from_snapshot, msix_irq_set_payload, msix_sample_count,
    read_snapshot_u16, read_snapshot_u32, MsixInfo, MsixTable, PCI_CAP_ID_MSIX, PCI_CAP_ID_PM,
    forwards_in_software, refresh_route, RouteChange, VfioDue, VfioTimers,
};

/// A config space with a PM capability at 0x40 pointing to an MSI-X
/// capability at 0x50 (table size 8, BIR 2, offset 0x2000).
fn cfg_with_caps() -> Vec<u8> {
    let mut cfg = vec![0u8; 0x100];
    cfg[0x34] = 0x40;
    cfg[0x40] = PCI_CAP_ID_PM;
    cfg[0x41] = 0x50;
    cfg[0x50] = PCI_CAP_ID_MSIX;
    cfg[0x51] = 0x00;
    cfg[0x52] = 7;
    cfg[0x53] = 0;
    let table: u32 = 0x2000 | 2;
    cfg[0x54..0x58].copy_from_slice(&table.to_le_bytes());
    cfg
}

#[test]
fn capability_walk_finds_msix_and_pm() {
    let cfg = cfg_with_caps();
    assert_eq!(find_capability_in_snapshot(&cfg, 0x100, PCI_CAP_ID_MSIX), Some(0x50));
    assert_eq!(find_capability_in_snapshot(&cfg, 0x100, PCI_CAP_ID_PM), Some(0x40));
    assert_eq!(find_capability_in_snapshot(&cfg, 0x100, 0x09), None);
    assert_eq!(find_capability_in_snapshot(&cfg, 0x40, PCI_CAP_ID_MSIX), None);
    assert_eq!(find_pci_capability(&cfg, PCI_CAP_ID_MSIX), Some(0x50));
    assert_eq!(read_snapshot_u16(&cfg, 0x52), Some(7));
    assert_eq!(read_snapshot_u32(&cfg, 0x54), Some(0x2002));
    assert_eq!(read_snapshot_u32(&cfg, 0xfe), None);
}

#[test]
fn msix_metadata_from_snapshot() {
    let cfg = cfg_with_caps();
    assert_eq!(
        msix_from_snapshot(&cfg, 0x100),
        Some(MsixInfo { ctrl_off: 0x52, table: Some(MsixTable { size: 8, bir: 2, offset: 0x2000 }) })
    );
    let mut no_caps = vec![0u8; 0x100];
    no_caps[0x34] = 0;
    assert_eq!(msix_from_snapshot(&no_caps, 0x100), None);
}

#[test]
fn keep_ready_register_values() {
    assert_eq!(keep_ready_command(0x0001), Some(0x0007));
    assert_eq!(keep_ready_command(0x0006), None);
    assert_eq!(keep_ready_pmcsr(0x0003), Some(0));
    assert_eq!(keep_ready_pmcsr(0x0100), None);
    assert_eq!(keep_ready_msix_ctrl(0x4007), Some(0x8007));
    assert_eq!(keep_ready_msix_ctrl(0x8007), None);
}

#[test]
fn msix_vectors_offsets_and_counts() {
    assert_eq!(msix_entry_vector(0x1234, 0), Some(0x34));
    assert_eq!(msix_entry_vector(0x1234, 1), None);
    assert_eq!(msix_entry_vector(0x1200, 0), None);
    assert_eq!(msix_sample_count(8, 100), 8);
    assert_eq!(msix_sample_count(2048, 100), 64);
    assert_eq!(msix_entry_offset(0x2000, 3, 0x4000), Some(0x2030));
    assert_eq!(msix_entry_offset(0x3ff8, 0, 0x4000), None);
    assert_eq!(forward_count(5), 5);
    assert_eq!(forward_count(1000), 128);
    assert_eq!(check_msix_irq_count(4), Ok(4));
    assert_eq!(check_msix_irq_count(0), Err("VFIO MSI-X irq count is zero".to_string()));
    assert_eq!(
        check_msix_irq_count(65),
        Err("VFIO MSI-X vectors 65 exceed supported max 64".to_string())
    );
    assert!(check_config_region(6));
    assert!(!check_config_region(5));
}

#[test]
fn irq_set_payload_layout() {
    let p = msix_irq_set_payload(&vec![7, -1]);
    assert_eq!(p.len(), 28);
    assert_eq!(&p[0..4], &28u32.to_le_bytes());
    assert_eq!(&p[4..8], &0x24u32.to_le_bytes());
    assert_eq!(&p[8..12], &2u32.to_le_bytes());
    assert_eq!(&p[12..16], &0u32.to_le_bytes());
    assert_eq!(&p[16..20], &2u32.to_le_bytes());
    assert_eq!(&p[20..24], &7u32.to_le_bytes());
    assert_eq!(&p[24..28], &[0xff, 0xff, 0xff, 0xff]);
}

#[test]
fn software_forwarding_only_without_posted_route() {
    assert!(forwards_in_software(false, false));
    assert!(!forwards_in_software(true, false));
    assert!(forwards_in_software(true, true));
}

#[test]
fn route_refresh_transitions() {
    assert_eq!(refresh_route(false, Some(true)), (true, RouteChange::Offloaded));
    assert_eq!(refresh_route(true, Some(true)), (true, RouteChange::Unchanged));
    assert_eq!(refresh_route(true, Some(false)), (false, RouteChange::FellBack));
    assert_eq!(refresh_route(false, Some(false)), (false, RouteChange::NotReady));
    assert_eq!(refresh_route(true, None), (true, RouteChange::Unchanged));
}

#[test]
fn daemon_timers_space_periodic_work() {
    let mut t = VfioTimers::new();
    assert_eq!(t.tick(0), VfioDue { sample: true, route_refresh: true, keepalive: true });
    assert_eq!(t.tick(10), VfioDue { sample: false, route_refresh: false, keepalive: false });
    assert_eq!(t.tick(20), VfioDue { sample: false, route_refresh: true, keepalive: false });
    assert_eq!(t.tick(100), VfioDue { sample: true, route_refresh: true, keepalive: false });
    assert_eq!(t.tick(2000), VfioDue { sample: true, route_refresh: true, keepalive: true });
    // After the first 30 s routes are refreshed every 100 ms.
    let mut t = VfioTimers::new();
    t.tick(30_000);
    assert_eq!(t.tick(30_050).route_refresh, false);
    assert_eq!(t.tick(30_100).route_refresh, true);
}
