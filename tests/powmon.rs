use ont_control::bus::Transport;
use ont_control::powmon::{
    apply_configuration, bus_microvolts, calibrate, calibration_value, check_identity,
    config_hardware, configure, current_milliamps, power_milliwatts, read_amps,
    read_configuration, read_power, read_register_u16, read_shunt, read_volts, reset,
    shunt_nanovolts, verify_hardware, write_register_u16, InaAverage, InaMode, InaVbusct,
    InaVshct, MaskEnable, Register,
};
use ont_control::tools::Error;

/// A power monitor simulated in memory: 16-bit registers, sent high byte first.
struct FakeMonitor {
    regs: [u16; 256],
    log: Vec<(u8, Vec<u8>, usize)>,
    fail_after: usize,
}

impl FakeMonitor {
    fn new() -> FakeMonitor {
        let mut regs = [0u16; 256];
        regs[0x00] = 0x4127;
        regs[0xFE] = 0x5449;
        regs[0xFF] = 0x2260;
        FakeMonitor { regs, log: Vec::new(), fail_after: usize::MAX }
    }
}

impl Transport for FakeMonitor {
    fn write_read(
        &mut self,
        address: u8,
        to_write: &Vec<u8>,
        to_read: &mut Vec<u8>,
    ) -> Result<(), Error> {
        self.log.push((address, to_write.clone(), to_read.len()));
        if self.log.len() > self.fail_after {
            return Err(Error::CommunicationErr);
        }
        let reg = to_write[0] as usize;
        if to_write.len() == 3 {
            let value = ((to_write[1] as u16) << 8) | to_write[2] as u16;
            if reg == 0x00 && value & 0x8000 != 0 {
                // A reset brings back the power-on values.
                self.regs[0x00] = 0x4127;
                self.regs[0x05] = 0;
            } else {
                self.regs[reg] = value;
            }
        }
        if to_read.len() == 2 {
            to_read[0] = (self.regs[reg] >> 8) as u8;
            to_read[1] = (self.regs[reg] & 0xFF) as u8;
        }
        Ok(())
    }
}

fn field(word: u16, shift: u16) -> u16 {
    (word >> shift) & 7
}

#[test]
fn calibration_for_five_amps() {
    assert_eq!(calibration_value(5000), 16777);
}

#[test]
fn calibration_edges() {
    assert_eq!(calibration_value(0), 0xFFFF);
    assert_eq!(calibration_value(1), 0xFFFF);
    assert_eq!(calibration_value(2560), 32768);
    assert_eq!(calibration_value(u32::MAX), 0);
}

#[test]
fn bus_voltage_conversion() {
    // 3000 steps of 1.25 mV are 3.75 V.
    assert_eq!(bus_microvolts(0x0BB8), 3_750_000);
    assert_eq!(bus_microvolts(0), 0);
    assert_eq!(bus_microvolts(0xFFFF), 81_918_750);
}

#[test]
fn signed_conversions() {
    assert_eq!(shunt_nanovolts(0x0001), 2500);
    assert_eq!(shunt_nanovolts(0xFFFF), -2500);
    assert_eq!(shunt_nanovolts(0x8000), -81_920_000);
    assert_eq!(current_milliamps(0x1388), 5000);
    assert_eq!(current_milliamps(0xEC78), -5000);
    assert_eq!(power_milliwatts(40), 1000);
}

#[test]
fn identity_check() {
    assert_eq!(check_identity(0x5449, 0x2260), Ok(()));
    assert_eq!(check_identity(0x5448, 0x2260), Err(Error::InvalidManufacturer));
    assert_eq!(check_identity(0x0000, 0x0000), Err(Error::InvalidManufacturer));
    assert_eq!(check_identity(0x5449, 0x2261), Err(Error::InvalidDie));
}

#[test]
fn verify_hardware_reads_both_identifiers() {
    let mut dev = FakeMonitor::new();
    assert_eq!(verify_hardware(&mut dev, 0x4A), Ok(()));
    assert_eq!(dev.log, vec![(0x4A, vec![0xFE], 2), (0x4A, vec![0xFF], 2)]);
    dev.regs[0xFE] = 0x1234;
    assert_eq!(verify_hardware(&mut dev, 0x4A), Err(Error::InvalidManufacturer));
    dev.regs[0xFE] = 0x5449;
    dev.regs[0xFF] = 0x2261;
    assert_eq!(verify_hardware(&mut dev, 0x4A), Err(Error::InvalidDie));
}

#[test]
fn absent_device_is_a_communication_error() {
    let mut dev = FakeMonitor::new();
    dev.fail_after = 0;
    assert_eq!(verify_hardware(&mut dev, 0x40), Err(Error::CommunicationErr));
    assert_eq!(dev.log.len(), 1);
    assert_eq!(read_volts(&mut dev, 0x40), Err(Error::CommunicationErr));
}

#[test]
fn configuration_round_trip() {
    let word = 0xF000u16;
    let w = apply_configuration(
        word,
        InaMode::ShuntAndBusContinuous,
        InaVshct::_332_us,
        InaVbusct::_8_244_ms,
        InaAverage::_64,
    );
    assert_eq!(field(w, 0), 7);
    assert_eq!(field(w, 3), 2);
    assert_eq!(field(w, 6), 7);
    assert_eq!(field(w, 9), 3);
    assert_eq!(w & 0xF000, 0xF000);
    let w2 = apply_configuration(0xFFFF, InaMode::PowerDown, InaVshct::_140_us, InaVbusct::_140_us, InaAverage::_1);
    assert_eq!(w2, 0xF000);
}

#[test]
fn config_hardware_writes_defaults() {
    let mut dev = FakeMonitor::new();
    config_hardware(&mut dev, 0x4A).unwrap();
    // Average 16 (2), 1.1 ms conversions (4, 4), bus voltage continuous (6).
    assert_eq!(dev.regs[0x00], 0x4000 | (2 << 9) | (4 << 6) | (4 << 3) | 6);
    assert_eq!(dev.log[0], (0x4A, vec![0x00], 2));
    assert_eq!(dev.log[1], (0x4A, vec![0x00, 0x45, 0x26], 0));
    assert_eq!(read_configuration(&mut dev, 0x4A), Ok(0x4526));
}

#[test]
fn configure_keeps_reserved_bits() {
    let mut dev = FakeMonitor::new();
    dev.regs[0x00] = 0x7FFF;
    configure(&mut dev, 0x4A, InaMode::PowerDown, InaVshct::_204_us, InaVbusct::_588_us, InaAverage::_1024)
        .unwrap();
    assert_eq!(dev.regs[0x00], 0x7000 | (7 << 9) | (3 << 6) | (1 << 3));
}

#[test]
fn calibrate_writes_high_byte_first() {
    let mut dev = FakeMonitor::new();
    calibrate(&mut dev, 0x4A, 5000).unwrap();
    assert_eq!(dev.log[0], (0x4A, vec![0x05, 0x41, 0x89], 0));
    assert_eq!(dev.regs[0x05], 16777);
}

#[test]
fn reset_sets_top_bit_and_clears_calibration() {
    let mut dev = FakeMonitor::new();
    calibrate(&mut dev, 0x4A, 5000).unwrap();
    reset(&mut dev, 0x4A).unwrap();
    assert_eq!(dev.log[2], (0x4A, vec![0x00, 0xC1, 0x27], 0));
    assert_eq!(read_register_u16(&mut dev, 0x4A, 0x05), Ok(0));
}

#[test]
fn readings_are_scaled() {
    let mut dev = FakeMonitor::new();
    dev.regs[0x02] = 0x0BB8;
    dev.regs[0x01] = 0xFFF6;
    dev.regs[0x04] = 0x03E8;
    dev.regs[0x03] = 0x0028;
    assert_eq!(read_volts(&mut dev, 0x4A), Ok(3_750_000));
    assert_eq!(read_shunt(&mut dev, 0x4A), Ok(-25_000));
    assert_eq!(read_amps(&mut dev, 0x4A), Ok(1000));
    assert_eq!(read_power(&mut dev, 0x4A), Ok(1000));
    assert_eq!(dev.log[0], (0x4A, vec![0x02], 2));
}

#[test]
fn word_register_round_trip() {
    let mut dev = FakeMonitor::new();
    write_register_u16(&mut dev, 0x4A, 0x07, 0xABCD).unwrap();
    assert_eq!(dev.log[0], (0x4A, vec![0x07, 0xAB, 0xCD], 0));
    assert_eq!(read_register_u16(&mut dev, 0x4A, 0x07), Ok(0xABCD));
}

#[test]
fn register_and_flag_values() {
    assert_eq!(Register::Manufacturer.address(), 0xFE);
    assert_eq!(Register::Calibration.address(), 0x05);
    assert_eq!(MaskEnable::ShuntOverVoltage.bits(), 0x8000);
    assert_eq!(MaskEnable::AlertLatchEnable.bits(), 0x0001);
    assert_eq!(InaAverage::_1024.bits(), 7);
    assert_eq!(InaMode::BusVoltageContinuous.bits(), 6);
}
