use axcli::config::{BlockDeviceConfig, BootSourceConfig, MachineConfig};
use axcli::resource::{
    ensure_rootfs_cmdline, validate_block_devices, validate_machine_config, FileStat,
};

fn block_drive(path: String, is_root_device: bool) -> BlockDeviceConfig {
    BlockDeviceConfig {
        drive_id: "rootfs".to_string(),
        path_on_host: path,
        is_root_device,
        is_read_only: false,
        cache_type: None,
        io_engine: None,
    }
}

#[test]
fn rootfs_cmdline_appends_default_root_args() {
    let mut cfg = BootSourceConfig {
        kernel_image_path: "/tmp/vmlinux".to_string(),
        initrd_path: None,
        boot_args: Some("console=hvc0 panic=1".to_string()),
    };

    ensure_rootfs_cmdline(&mut cfg);

    let cmdline = cfg.boot_args.expect("boot args");
    assert!(cmdline.contains("root=/dev/vda"));
    assert!(cmdline.contains(" rw"));
    assert!(cmdline.contains("rootwait"));
}

#[test]
fn rootfs_cmdline_preserves_existing_root_arg() {
    let mut cfg = BootSourceConfig {
        kernel_image_path: "/tmp/vmlinux".to_string(),
        initrd_path: None,
        boot_args: Some("console=hvc0 root=/dev/vdb ro".to_string()),
    };

    ensure_rootfs_cmdline(&mut cfg);

    assert_eq!(
        cfg.boot_args.as_deref(),
        Some("console=hvc0 root=/dev/vdb ro")
    );
}

#[test]
fn rootfs_cmdline_uses_default_line_when_absent() {
    let mut cfg = BootSourceConfig {
        kernel_image_path: "/tmp/vmlinux".to_string(),
        initrd_path: None,
        boot_args: None,
    };
    ensure_rootfs_cmdline(&mut cfg);
    let line = cfg.boot_args.clone().expect("boot args");
    assert!(line.starts_with("reboot=k panic=1"));
    assert!(line.ends_with(" root=/dev/vda rw rootwait"));
    // A second call changes nothing.
    ensure_rootfs_cmdline(&mut cfg);
    assert_eq!(cfg.boot_args, Some(line));
}

#[test]
fn block_device_validation_rejects_multiple_roots() {
    let first = block_drive("/tmp/rootfs.img".to_string(), true);
    let second = BlockDeviceConfig {
        drive_id: "rootfs2".to_string(),
        ..first.clone()
    };
    let files = vec![
        FileStat::Found { is_file: true, len: 512 },
        FileStat::Found { is_file: true, len: 512 },
    ];
    let result = validate_block_devices(Some(vec![first, second]), &files);
    assert!(result.is_err());
}

#[test]
fn block_device_validation_rejects_empty_backing_file() {
    let files = vec![FileStat::Found { is_file: true, len: 0 }];
    let result = validate_block_devices(Some(vec![block_drive("/tmp/empty".to_string(), true)]), &files);
    assert!(result.is_err());
}

#[test]
fn block_device_validation_rejects_unaligned_backing_file() {
    let files = vec![FileStat::Found { is_file: true, len: 513 }];
    let result = validate_block_devices(Some(vec![block_drive("/tmp/unaligned".to_string(), true)]), &files);
    assert_eq!(
        result.err(),
        Some("drive 'rootfs' path_on_host size must be 512-byte aligned: 513 bytes (/tmp/unaligned)".to_string())
    );
}

#[test]
fn block_device_validation_accepts_one_aligned_drive() {
    let files = vec![FileStat::Found { is_file: true, len: 1024 }];
    let result = validate_block_devices(Some(vec![block_drive("/tmp/ok".to_string(), true)]), &files);
    assert_eq!(result.map(|v| v.len()), Ok(1));
    assert_eq!(validate_block_devices(None, &Vec::new()).map(|v| v.len()), Ok(0));
}

#[test]
fn block_device_validation_reports_missing_file_and_blank_id() {
    let files = vec![FileStat::Missing("No such file".to_string())];
    let result = validate_block_devices(Some(vec![block_drive("/nope".to_string(), true)]), &files);
    assert_eq!(
        result.err(),
        Some("Invalid drive path_on_host '/nope' for drive 'rootfs': No such file".to_string())
    );
    let mut d = block_drive("/x".to_string(), true);
    d.drive_id = "  ".to_string();
    let files = vec![FileStat::Found { is_file: true, len: 512 }];
    assert_eq!(
        validate_block_devices(Some(vec![d]), &files).err(),
        Some("drive_id must not be empty".to_string())
    );
    let files = vec![FileStat::Found { is_file: false, len: 512 }];
    assert!(validate_block_devices(Some(vec![block_drive("/dev".to_string(), true)]), &files).is_err());
}

#[test]
fn machine_config_rejects_default_vcpus_above_max() {
    let machine_config = MachineConfig {
        vcpu_count: 2,
        default_vcpu_num: None,
        max_vcpu_count: Some(1),
        max_vcpu_num: None,
        init_mem_size_mib: 512,
        max_mem_size_mib: None,
    };

    assert!(validate_machine_config(&machine_config).is_err());
}

#[test]
fn machine_config_accepts_plain_config_and_reads_fallbacks() {
    let m = MachineConfig {
        vcpu_count: 2,
        default_vcpu_num: None,
        max_vcpu_count: None,
        max_vcpu_num: Some(4),
        init_mem_size_mib: 512,
        max_mem_size_mib: None,
    };
    assert_eq!(validate_machine_config(&m), Ok(()));
    assert_eq!(m.default_vcpu_count(), 2);
    assert_eq!(m.max_vcpu_count(), 4);
    assert_eq!(m.max_mem_size_mib(), 512);
}
