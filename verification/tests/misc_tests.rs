use axcli::text::escape_c_string_style;
use axcli::cli::{ExecuteArgs, InstanceSubCmd, MicroVMCreateArgs, MicroVMRemoveArgs, MicroVMStopArgs, MicroVMSubCmd};
use axcli::config::{parse_iova_mode, parse_pci_bdf, IovaMode, PciBdf};
use axcli::ioctl_code::{
    check_created_instance_id, created_microvm, encode_bdf, io, ioc, iow, MicroVmCreateResult, IOC_WRITE,
};
use axcli::legacy::{PortIODeviceManager, SerialPortDesc};
use axcli::utils::{mib_to_bytes, u64_to_usize, usize_to_u64};

#[test]
fn cli_values() {
    let c = MicroVMSubCmd::Create(MicroVMCreateArgs { config_file: "vm.json".to_string() });
    assert_eq!(c.clone(), c);
    assert_ne!(MicroVMSubCmd::Stop(MicroVMStopArgs { instance_id: 1 }), MicroVMSubCmd::Remove(MicroVMRemoveArgs { instance_id: 1 }));
    let e = InstanceSubCmd::Execute(ExecuteArgs { exec_args: vec!["/bin/true".to_string()] });
    assert!(matches!(e, InstanceSubCmd::Execute(ref a) if a.exec_args.len() == 1));
    assert_eq!(InstanceSubCmd::Remove { instance_id: 3 }, InstanceSubCmd::Remove { instance_id: 3 });
}

#[test]
fn ioctl_codes() {
    assert_eq!(ioc(IOC_WRITE, 0, 1, 8), (1 << 30) | (8 << 16) | 1);
    assert_eq!(io(0xae, 1), 0xae01);
    assert_eq!(iow(0, 0, 0x100), (1 << 30) | (0x100 << 16));
}

#[test]
fn created_instance_results() {
    assert_eq!(check_created_instance_id(7), Ok(7));
    assert!(check_created_instance_id(0).is_err());
    assert_eq!(
        created_microvm(3, 0x1000, 0x2000),
        Ok(MicroVmCreateResult { instance_id: 3, console_ring_gpa: 0x1000, block_notify_ring_gpa: 0x2000 })
    );
    assert_eq!(
        created_microvm(0xdead_beef, 0, 0),
        Err("Instance ID was not assigned by the kernel".to_string())
    );
}

#[test]
fn pci_bdf_parsing_and_encoding() {
    let b = parse_pci_bdf("0000:3b:00.1").unwrap();
    assert_eq!(b, PciBdf { domain: 0, bus: 0x3b, device: 0, function: 1 });
    assert_eq!(encode_bdf(&b), (0x3b << 8) | 1);
    assert_eq!(parse_pci_bdf("3b:1f.7"), Some(PciBdf { domain: 0, bus: 0x3b, device: 0x1f, function: 7 }));
    assert_eq!(parse_pci_bdf("3b:20.0"), None);
    assert_eq!(parse_pci_bdf("garbage"), None);
    assert_eq!(parse_iova_mode("gpa-identity"), Some(IovaMode::GpaIdentity));
    assert_eq!(parse_iova_mode("nope"), None);
}

#[test]
fn legacy_devices() {
    let m = PortIODeviceManager {};
    let ports = m.serial_ports();
    assert_eq!(ports.len(), 4);
    assert_eq!(ports[0], SerialPortDesc { number: 1, gsi: 4, port: 0x3f8, size: 8 });
    assert_eq!(ports[3], SerialPortDesc { number: 4, gsi: 3, port: 0x2e8, size: 8 });
    assert_eq!(m.i8042(), (1, 0x60, 0x64));
}

#[test]
fn unit_conversions() {
    assert_eq!(mib_to_bytes(2), 2 << 20);
    assert_eq!(u64_to_usize(5), 5);
    assert_eq!(usize_to_u64(6), 6);
}

#[test]
fn c_style_escaping() {
    assert_eq!(escape_c_string_style(b"ab c~"), "ab c~");
    assert_eq!(escape_c_string_style(b"a\n\0\xff"), "a\\012\\000\\377");
    assert_eq!(escape_c_string_style(b""), "");
}

#[test]
fn ioctl_fields_decode_back() {
    let code = ioc(2, 0xae, 0x10, 0x20);
    assert_eq!(code, (2 << 30) | (0x20 << 16) | (0xae << 8) | 0x10);
    assert_eq!(code >> 30, 2);
    assert_eq!((code >> 8) & 0xff, 0xae);
    assert_eq!(code & 0xff, 0x10);
    assert_eq!((code >> 16) & 0x3fff, 0x20);
}
