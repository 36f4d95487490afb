//! The legacy port-I/O devices of a microVM, the four serial ports and the
//! i8042 keyboard controller, as the ACPI namespace describes them: each
//! device's name, its interrupt line and the I/O ports it decodes.
use vstd::prelude::*;

verus! {

/// The legacy port-I/O devices of a microVM.
#[derive(Debug, Clone, Copy, PartialEq, Eq, Structural)]
pub struct PortIODeviceManager {}

/// GSI for communication events on serial ports 1 and 3.
pub const COM_EVT_1_3_GSI: u32 = 4;
/// GSI for communication events on serial ports 2 and 4.
pub const COM_EVT_2_4_GSI: u32 = 3;
/// GSI of the keyboard port.
pub const KBD_EVT_GSI: u32 = 1;
/// Size of a legacy serial port's register block.
pub const SERIAL_PORT_SIZE: u64 = 0x8;
/// i8042 keyboard data register address.
pub const I8042_KDB_DATA_REGISTER_ADDRESS: u64 = 0x060;
/// i8042 keyboard data register size.
pub const I8042_KDB_DATA_REGISTER_SIZE: u64 = 0x5;
/// The i8042 command port, described so that Linux finds one.
pub const I8042_COMMAND_PORT: u64 = 0x064;

/// The base port of serial port `com` (0 to 3).
pub open spec fn serial_port_address(com: int) -> u64 {
    if com == 0 {
        0x3f8
    } else if com == 1 {
        0x2f8
    } else if com == 2 {
        0x3e8
    } else {
        0x2e8
    }
}

/// The GSI of serial port `com`: ports 1 and 3 share one, ports 2 and 4
/// the other.
pub open spec fn serial_gsi(com: int) -> u32 {
    if com % 2 == 0 { COM_EVT_1_3_GSI } else { COM_EVT_2_4_GSI }
}

/// One serial port's description: its number (1 to 4), interrupt line
/// and register block.
#[derive(Debug, Clone, Copy, PartialEq, Eq, Structural)]
pub struct SerialPortDesc {
    pub number: u8,
    pub gsi: u32,
    pub port: u64,
    pub size: u64,
}

impl PortIODeviceManager {
    /// The descriptions of the four serial ports, COM1 to COM4.
    pub fn serial_ports(&self) -> (r: Vec<SerialPortDesc>)
        ensures
            r@.len() == 4,
            forall|i: int| 0 <= i < 4 ==> #[trigger] r@[i] == (SerialPortDesc {
                number: (i + 1) as u8,
                gsi: serial_gsi(i),
                port: serial_port_address(i),
                size: SERIAL_PORT_SIZE,
            }),
    {
        let addresses: [u64; 4] = [0x3f8, 0x2f8, 0x3e8, 0x2e8];
        let gsis: [u32; 4] = [COM_EVT_1_3_GSI, COM_EVT_2_4_GSI, COM_EVT_1_3_GSI, COM_EVT_2_4_GSI];
        let mut v: Vec<SerialPortDesc> = Vec::new();
        let mut com: usize = 0;
        while com < 4
            invariant
                com <= 4,
                v@.len() == com,
                addresses@ == seq![0x3f8u64, 0x2f8u64, 0x3e8u64, 0x2e8u64],
                gsis@ == seq![COM_EVT_1_3_GSI, COM_EVT_2_4_GSI, COM_EVT_1_3_GSI, COM_EVT_2_4_GSI],
                forall|i: int| 0 <= i < com ==> #[trigger] v@[i] == (SerialPortDesc {
                    number: (i + 1) as u8,
                    gsi: serial_gsi(i),
                    port: serial_port_address(i),
                    size: SERIAL_PORT_SIZE,
                }),
            decreases 4 - com,
        {
            v.push(SerialPortDesc { number: (com + 1) as u8, gsi: gsis[com], port: addresses[com], size: SERIAL_PORT_SIZE });
            com = com + 1;
        }
        v
    }

    /// The i8042 controller's description: its interrupt line and its
    /// data and command ports, each one byte wide.
    pub fn i8042(&self) -> (r: (u32, u64, u64))
        ensures
            r == (KBD_EVT_GSI, I8042_KDB_DATA_REGISTER_ADDRESS, I8042_COMMAND_PORT),
    {
        (KBD_EVT_GSI, I8042_KDB_DATA_REGISTER_ADDRESS, I8042_COMMAND_PORT)
    }
}

} // verus!
