use ont_control::bus::Transport;
use ont_control::tools::{
    bit_clear, bit_read, bit_set, read_pin, read_register, register_address, set_pin_dir,
    write_pin, write_register, Direction, Error, Pin, Port, Register, MCP23017_ADDRESS,
};

/// An expander simulated in memory: a bank of byte registers and a log of
/// the transactions it saw.
struct FakeExpander {
    regs: [u8; 0x16],
    log: Vec<(u8, Vec<u8>, usize)>,
    fail_after: usize,
}

impl FakeExpander {
    fn new() -> FakeExpander {
        FakeExpander { regs: [0; 0x16], log: Vec::new(), fail_after: usize::MAX }
    }
}

impl Transport for FakeExpander {
    fn write_read(
        &mut self,
        address: u8,
        to_write: &Vec<u8>,
        to_read: &mut Vec<u8>,
    ) -> Result<(), Error> {
        self.log.push((address, to_write.clone(), to_read.len()));
        if self.log.len() > self.fail_after {
            return Err(Error::CommunicationErr);
        }
        let reg = to_write[0] as usize;
        if to_write.len() == 2 {
            self.regs[reg] = to_write[1];
        }
        for (i, b) in to_read.iter_mut().enumerate() {
            *b = self.regs[reg + i];
        }
        Ok(())
    }
}

const ALL_PINS: [Pin; 8] =
    [Pin::Pin0, Pin::Pin1, Pin::Pin2, Pin::Pin3, Pin::Pin4, Pin::Pin5, Pin::Pin6, Pin::Pin7];

#[test]
fn bit_set_sets_one_bit() {
    assert_eq!(bit_set(0x00, Pin::Pin0), 0x01);
    assert_eq!(bit_set(0x00, Pin::Pin3), 0x08);
    assert_eq!(bit_set(0x00, Pin::Pin7), 0x80);
    assert_eq!(bit_set(0x81, Pin::Pin0), 0x81);
}

#[test]
fn bit_clear_clears_one_bit() {
    assert_eq!(bit_clear(0xFF, Pin::Pin3), 0xF7);
    assert_eq!(bit_clear(0x00, Pin::Pin3), 0x00);
    assert_eq!(bit_clear(0x81, Pin::Pin7), 0x01);
}

#[test]
fn bit_read_is_normalised() {
    assert_eq!(bit_read(0x08, Pin::Pin3), 1);
    assert_eq!(bit_read(0xF7, Pin::Pin3), 0);
    assert_eq!(bit_read(0x80, Pin::Pin7), 1);
}

#[test]
fn read_after_set_and_clear_for_every_pin_and_byte() {
    for b in 0..=255u8 {
        for pin in ALL_PINS {
            assert_eq!(bit_read(bit_set(b, pin), pin), 1);
            assert_eq!(bit_read(bit_clear(b, pin), pin), 0);
            assert_eq!(bit_clear(bit_set(b, pin), pin), bit_clear(b, pin));
        }
    }
}

#[test]
fn register_addresses_are_distinct() {
    let regs = [
        Register::Iodir,
        Register::Ipol,
        Register::Gpinten,
        Register::Defval,
        Register::Intcon,
        Register::Iocon,
        Register::Gppu,
        Register::Intf,
        Register::Intcap,
        Register::Gpio,
        Register::Olat,
    ];
    let mut seen = Vec::new();
    for reg in regs {
        for port in [Port::Porta, Port::Portb] {
            let a = register_address(reg, port);
            assert!(!seen.contains(&a));
            seen.push(a);
        }
    }
    assert_eq!(seen.len(), 22);
    assert_eq!(register_address(Register::Iodir, Port::Porta), 0x00);
    assert_eq!(register_address(Register::Gpio, Port::Portb), 0x13);
    assert_eq!(register_address(Register::Olat, Port::Portb), 0x15);
}

#[test]
fn read_and_write_register_frames() {
    let mut dev = FakeExpander::new();
    write_register(&mut dev, Port::Portb, Register::Gppu, 0x5A).unwrap();
    assert_eq!(read_register(&mut dev, Register::Gppu, Port::Portb), Ok(0x5A));
    assert_eq!(dev.log[0], (MCP23017_ADDRESS, vec![0x0D, 0x5A], 0));
    assert_eq!(dev.log[1], (MCP23017_ADDRESS, vec![0x0D], 1));
}

#[test]
fn write_pin_keeps_other_pins() {
    let mut dev = FakeExpander::new();
    dev.regs[0x14] = 0x81;
    write_pin(&mut dev, Port::Porta, Pin::Pin3, 1).unwrap();
    assert_eq!(dev.regs[0x14], 0x89);
    write_pin(&mut dev, Port::Porta, Pin::Pin0, 0).unwrap();
    assert_eq!(dev.regs[0x14], 0x88);
    assert_eq!(dev.log.len(), 4);
    assert_eq!(dev.log[0], (0x20, vec![0x14], 1));
    assert_eq!(dev.log[1], (0x20, vec![0x14, 0x89], 0));
}

#[test]
fn set_pin_dir_output_clears_input_sets() {
    let mut dev = FakeExpander::new();
    dev.regs[0x00] = 0xFF;
    set_pin_dir(&mut dev, Port::Porta, Pin::Pin5, Direction::Output).unwrap();
    assert_eq!(dev.regs[0x00], 0xDF);
    set_pin_dir(&mut dev, Port::Portb, Pin::Pin1, Direction::Input).unwrap();
    assert_eq!(dev.regs[0x01], 0x02);
    assert_eq!(dev.regs[0x00], 0xDF);
}

#[test]
fn read_pin_reads_input_register() {
    let mut dev = FakeExpander::new();
    dev.regs[0x12] = 0x08;
    assert_eq!(read_pin(&mut dev, Port::Porta, Pin::Pin3), Ok(1));
    assert_eq!(read_pin(&mut dev, Port::Porta, Pin::Pin2), Ok(0));
    assert_eq!(dev.log[0], (0x20, vec![0x12], 1));
}

#[test]
fn invalid_pin_is_rejected_without_traffic() {
    let mut dev = FakeExpander::new();
    assert_eq!(read_pin(&mut dev, Port::Porta, Pin::Invalid), Err(Error::InvalidParameter));
    assert_eq!(write_pin(&mut dev, Port::Porta, Pin::Invalid, 1), Err(Error::InvalidParameter));
    assert_eq!(
        set_pin_dir(&mut dev, Port::Porta, Pin::Invalid, Direction::Input),
        Err(Error::InvalidParameter)
    );
    assert!(dev.log.is_empty());
}

#[test]
fn failed_read_stops_read_modify_write() {
    let mut dev = FakeExpander::new();
    dev.fail_after = 0;
    assert_eq!(write_pin(&mut dev, Port::Porta, Pin::Pin3, 1), Err(Error::CommunicationErr));
    assert_eq!(dev.log.len(), 1);
}

#[test]
fn failed_write_is_reported() {
    let mut dev = FakeExpander::new();
    dev.fail_after = 1;
    assert_eq!(
        set_pin_dir(&mut dev, Port::Porta, Pin::Pin3, Direction::Input),
        Err(Error::CommunicationErr)
    );
    assert_eq!(dev.log.len(), 2);
}

#[test]
fn direction_tags_and_error_messages() {
    assert_eq!(Direction::Output.tag(), 0x00);
    assert_eq!(Direction::Input.tag(), 0xFF);
    assert_eq!(Pin::Invalid.mask(), 0x00);
    assert_eq!(Pin::Pin6.mask(), 0x40);
    assert_eq!(Error::InvalidDie.message(), "Invalid Die Number");
    assert_eq!(Error::CommunicationErr.message(), "Not found on address");
    assert_eq!(Error::MissingI2C.message(), "Missing I2C Bus");
}
