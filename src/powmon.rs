use vstd::prelude::*;

use crate::bus::{be_value, read_be_u16, write_be_u16, Transfer, Transport};
use crate::tools::Error;

verus! {

/// The manufacturer identifier the monitor reports.
pub const MANUFACTURER: u16 = 0x5449;

/// The die identifier the monitor reports.
pub const DIE_ID: u16 = 0x2260;

/// The registers of the power monitor, each 16 bits wide.
#[derive(Copy, Clone, PartialEq, Eq, Debug, Structural)]
pub enum Register {
    Configuration,
    ShuntVoltage,
    BusVoltage,
    Power,
    Current,
    Calibration,
    MaskEnable,
    Alert,
    Manufacturer,
    DieId,
}

/// The address byte of a power-monitor register.
pub open spec fn monitor_register(reg: Register) -> u8 {
    match reg {
        Register::Configuration => 0x00,
        Register::ShuntVoltage => 0x01,
        Register::BusVoltage => 0x02,
        Register::Power => 0x03,
        Register::Current => 0x04,
        Register::Calibration => 0x05,
        Register::MaskEnable => 0x06,
        Register::Alert => 0x07,
        Register::Manufacturer => 0xFE,
        Register::DieId => 0xFF,
    }
}

impl Register {
    /// The register's address byte.
    pub fn address(self) -> (r: u8)
        ensures
            r == monitor_register(self),
    {
        match self {
            Register::Configuration => 0x00,
            Register::ShuntVoltage => 0x01,
            Register::BusVoltage => 0x02,
            Register::Power => 0x03,
            Register::Current => 0x04,
            Register::Calibration => 0x05,
            Register::MaskEnable => 0x06,
            Register::Alert => 0x07,
            Register::Manufacturer => 0xFE,
            Register::DieId => 0xFF,
        }
    }
}

/// The number of samples averaged into one reading.
#[derive(Copy, Clone, PartialEq, Eq, Debug, Structural)]
pub enum InaAverage {
    _1,
    _4,
    _16,
    _64,
    _128,
    _256,
    _512,
    _1024,
}

/// The averaging field's value.
pub open spec fn average_bits(v: InaAverage) -> u16 {
    match v {
        InaAverage::_1 => 0x00,
        InaAverage::_4 => 0x01,
        InaAverage::_16 => 0x02,
        InaAverage::_64 => 0x03,
        InaAverage::_128 => 0x04,
        InaAverage::_256 => 0x05,
        InaAverage::_512 => 0x06,
        InaAverage::_1024 => 0x07,
    }
}

impl InaAverage {
    /// The field's value in the configuration word, before shifting.
    pub fn bits(self) -> (r: u16)
        ensures
            r == average_bits(self),
            r < 8,
    {
        match self {
            InaAverage::_1 => 0x00,
            InaAverage::_4 => 0x01,
            InaAverage::_16 => 0x02,
            InaAverage::_64 => 0x03,
            InaAverage::_128 => 0x04,
            InaAverage::_256 => 0x05,
            InaAverage::_512 => 0x06,
            InaAverage::_1024 => 0x07,
        }
    }
}

/// The conversion time of a bus-voltage measurement.
#[derive(Copy, Clone, PartialEq, Eq, Debug, Structural)]
pub enum InaVbusct {
    _140_us,
    _204_us,
    _332_us,
    _588_us,
    _1_1_ms,
    _2_116_ms,
    _4_156_ms,
    _8_244_ms,
}

/// The bus conversion-time field's value.
pub open spec fn vbusct_bits(v: InaVbusct) -> u16 {
    match v {
        InaVbusct::_140_us => 0x00,
        InaVbusct::_204_us => 0x01,
        InaVbusct::_332_us => 0x02,
        InaVbusct::_588_us => 0x03,
        InaVbusct::_1_1_ms => 0x04,
        InaVbusct::_2_116_ms => 0x05,
        InaVbusct::_4_156_ms => 0x06,
        InaVbusct::_8_244_ms => 0x07,
    }
}

impl InaVbusct {
    /// The field's value in the configuration word, before shifting.
    pub fn bits(self) -> (r: u16)
        ensures
            r == vbusct_bits(self),
            r < 8,
    {
        match self {
            InaVbusct::_140_us => 0x00,
            InaVbusct::_204_us => 0x01,
            InaVbusct::_332_us => 0x02,
            InaVbusct::_588_us => 0x03,
            InaVbusct::_1_1_ms => 0x04,
            InaVbusct::_2_116_ms => 0x05,
            InaVbusct::_4_156_ms => 0x06,
            InaVbusct::_8_244_ms => 0x07,
        }
    }
}

/// The conversion time of a shunt-voltage measurement.
#[derive(Copy, Clone, PartialEq, Eq, Debug, Structural)]
pub enum InaVshct {
    _140_us,
    _204_us,
    _332_us,
    _588_us,
    _1_1_ms,
    _2_116_ms,
    _4_156_ms,
    _8_244_ms,
}

/// The shunt conversion-time field's value.
pub open spec fn vshct_bits(v: InaVshct) -> u16 {
    match v {
        InaVshct::_140_us => 0x00,
        InaVshct::_204_us => 0x01,
        InaVshct::_332_us => 0x02,
        InaVshct::_588_us => 0x03,
        InaVshct::_1_1_ms => 0x04,
        InaVshct::_2_116_ms => 0x05,
        InaVshct::_4_156_ms => 0x06,
        InaVshct::_8_244_ms => 0x07,
    }
}

impl InaVshct {
    /// The field's value in the configuration word, before shifting.
    pub fn bits(self) -> (r: u16)
        ensures
            r == vshct_bits(self),
            r < 8,
    {
        match self {
            InaVshct::_140_us => 0x00,
            InaVshct::_204_us => 0x01,
            InaVshct::_332_us => 0x02,
            InaVshct::_588_us => 0x03,
            InaVshct::_1_1_ms => 0x04,
            InaVshct::_2_116_ms => 0x05,
            InaVshct::_4_156_ms => 0x06,
            InaVshct::_8_244_ms => 0x07,
        }
    }
}

/// The operating mode of the monitor.
#[derive(Copy, Clone, PartialEq, Eq, Debug, Structural)]
pub enum InaMode {
    PowerDown,
    ShuntVoltageTriggered,
    BusVoltageTriggered,
    ShuntAndBusTriggered,
    PowerDown2,
    ShuntVoltageContinuous,
    BusVoltageContinuous,
    ShuntAndBusContinuous,
}

/// The mode field's value.
pub open spec fn mode_bits(v: InaMode) -> u16 {
    match v {
        InaMode::PowerDown => 0x00,
        InaMode::ShuntVoltageTriggered => 0x01,
        InaMode::BusVoltageTriggered => 0x02,
        InaMode::ShuntAndBusTriggered => 0x03,
        InaMode::PowerDown2 => 0x04,
        InaMode::ShuntVoltageContinuous => 0x05,
        InaMode::BusVoltageContinuous => 0x06,
        InaMode::ShuntAndBusContinuous => 0x07,
    }
}

impl InaMode {
    /// The field's value in the configuration word, before shifting.
    pub fn bits(self) -> (r: u16)
        ensures
            r == mode_bits(self),
            r < 8,
    {
        match self {
            InaMode::PowerDown => 0x00,
            InaMode::ShuntVoltageTriggered => 0x01,
            InaMode::BusVoltageTriggered => 0x02,
            InaMode::ShuntAndBusTriggered => 0x03,
            InaMode::PowerDown2 => 0x04,
            InaMode::ShuntVoltageContinuous => 0x05,
            InaMode::BusVoltageContinuous => 0x06,
            InaMode::ShuntAndBusContinuous => 0x07,
        }
    }
}

/// The bits of the mask/enable register, which choose what the alert pin reports.
#[derive(Copy, Clone, PartialEq, Eq, Debug, Structural)]
pub enum MaskEnable {
    ShuntOverVoltage,
    ShuntUnderVoltage,
    BusOverVoltage,
    BusUnderVoltage,
    PowerOverLimit,
    ConversionReady,
    AlertFunctionFlag,
    ConversionReadyFlag,
    MathOverflowFlag,
    AlertPolarityBit,
    AlertLatchEnable,
}

/// The bit of the mask/enable register that a flag occupies.
pub open spec fn mask_enable_bit(f: MaskEnable) -> u16 {
    match f {
        MaskEnable::ShuntOverVoltage => 0x8000,
        MaskEnable::ShuntUnderVoltage => 0x4000,
        MaskEnable::BusOverVoltage => 0x2000,
        MaskEnable::BusUnderVoltage => 0x1000,
        MaskEnable::PowerOverLimit => 0x0800,
        MaskEnable::ConversionReady => 0x0400,
        MaskEnable::AlertFunctionFlag => 0x0010,
        MaskEnable::ConversionReadyFlag => 0x0008,
        MaskEnable::MathOverflowFlag => 0x0004,
        MaskEnable::AlertPolarityBit => 0x0002,
        MaskEnable::AlertLatchEnable => 0x0001,
    }
}

impl MaskEnable {
    /// The flag's bit in the mask/enable register.
    pub fn bits(self) -> (r: u16)
        ensures
            r == mask_enable_bit(self),
    {
        match self {
            MaskEnable::ShuntOverVoltage => 0x8000,
            MaskEnable::ShuntUnderVoltage => 0x4000,
            MaskEnable::BusOverVoltage => 0x2000,
            MaskEnable::BusUnderVoltage => 0x1000,
            MaskEnable::PowerOverLimit => 0x0800,
            MaskEnable::ConversionReady => 0x0400,
            MaskEnable::AlertFunctionFlag => 0x0010,
            MaskEnable::ConversionReadyFlag => 0x0008,
            MaskEnable::MathOverflowFlag => 0x0004,
            MaskEnable::AlertPolarityBit => 0x0002,
            MaskEnable::AlertLatchEnable => 0x0001,
        }
    }
}

/// The value a 16-bit register read carried, most significant byte first.
pub open spec fn reply_value(t: Transfer) -> u16 {
    be_value(t.2[0], t.2[1])
}

/// The transaction that writes `value`, high byte first, to register `reg`
/// of the device at `address`; `ok` tells whether it completed.
pub open spec fn word_write(address: u8, reg: u8, value: u16, ok: bool) -> Transfer {
    (address, seq![reg, (value / 256) as u8, (value % 256) as u8], Seq::empty(), ok)
}

/// `after` is `before` followed by one read of the 16-bit register `reg` of
/// the device at `address`.
pub open spec fn one_word_read(before: Seq<Transfer>, after: Seq<Transfer>, address: u8, reg: u8) -> bool {
    &&& after.drop_last() == before
    &&& after.len() == before.len() + 1
    &&& crate::tools::is_read_of(after.last(), address, reg, 2)
}

/// `after` is `before` followed by one read of the 16-bit register `reg` of
/// the device at `address`; `r` is `Ok` with its value exactly when it completed.
pub open spec fn word_read(
    before: Seq<Transfer>,
    after: Seq<Transfer>,
    address: u8,
    reg: u8,
    r: Result<u16, Error>,
) -> bool {
    &&& one_word_read(before, after, address, reg)
    &&& r is Ok <==> after.last().3
    &&& match r {
        Ok(v) => v == reply_value(after.last()),
        Err(e) => e == Error::CommunicationErr,
    }
}

/// `after` is `before` followed by a read of the 16-bit register `reg` of the
/// device at `address` and, when that read completed, a write of
/// `update(value read)` back to it; `r` is `Ok` exactly when both completed.
pub open spec fn word_read_modify_write(
    before: Seq<Transfer>,
    after: Seq<Transfer>,
    address: u8,
    reg: u8,
    update: spec_fn(u16) -> u16,
    r: Result<(), Error>,
) -> bool {
    let n = before.len() as int;
    &&& n < after.len() <= n + 2
    &&& after.subrange(0, n) == before
    &&& crate::tools::is_read_of(after[n], address, reg, 2)
    &&& after.len() == n + 2 <==> after[n].3
    &&& after.len() == n + 2 ==> after[n + 1] == word_write(
        address,
        reg,
        update(reply_value(after[n])),
        r is Ok,
    )
    &&& r is Ok ==> after.len() == n + 2
    &&& r is Err ==> r == Err::<(), Error>(Error::CommunicationErr)
}

/// Reads the 16-bit register `reg` of the device at `address`, most
/// significant byte first.
pub fn read_register_u16<T: Transport>(dev: &mut T, address: u8, reg: u8) -> (r: Result<
    u16,
    Error,
>)
    ensures
        word_read(old(dev).transfers(), final(dev).transfers(), address, reg, r),
{
    let to_write: Vec<u8> = vec![reg];
    let mut to_read: Vec<u8> = vec![0u8, 0u8];
    proof {
        assert(to_write@ =~= seq![reg]);
    }
    let res = dev.write_read(address, &to_write, &mut to_read);
    proof {
        assert(dev.transfers().drop_last() =~= old(dev).transfers());
    }
    match res {
        Ok(()) => {
            let bytes: [u8; 2] = [to_read[0], to_read[1]];
            proof {
                assert(bytes@[0] == to_read@[0] && bytes@[1] == to_read@[1]);
            }
            Ok(read_be_u16(&bytes))
        },
        Err(_) => Err(Error::CommunicationErr),
    }
}

/// Writes `value` to the 16-bit register `reg` of the device at `address`,
/// most significant byte first, in a single transaction.
pub fn write_register_u16<T: Transport>(dev: &mut T, address: u8, reg: u8, value: u16) -> (r:
    Result<(), Error>)
    ensures
        final(dev).transfers() == old(dev).transfers().push(
            word_write(address, reg, value, r is Ok),
        ),
        r is Err ==> r == Err::<(), Error>(Error::CommunicationErr),
{
    let mut bytes: [u8; 2] = [0u8; 2];
    write_be_u16(&mut bytes, value);
    let to_write: Vec<u8> = vec![reg, bytes[0], bytes[1]];
    let mut to_read: Vec<u8> = Vec::new();
    proof {
        assert(to_write@ =~= seq![reg, (value / 256) as u8, (value % 256) as u8]);
    }
    let res = dev.write_read(address, &to_write, &mut to_read);
    proof {
        assert(to_read@ =~= Seq::<u8>::empty());
    }
    match res {
        Ok(()) => Ok(()),
        Err(_) => Err(Error::CommunicationErr),
    }
}

/// The averaging that `config_hardware` sets.
pub const DEFAULT_AVERAGE: InaAverage = InaAverage::_16;

/// The shunt conversion time that `config_hardware` sets.
pub const DEFAULT_VSHCT: InaVshct = InaVshct::_1_1_ms;

/// The bus conversion time that `config_hardware` sets.
pub const DEFAULT_VBUSCT: InaVbusct = InaVbusct::_1_1_ms;

/// The mode that `config_hardware` sets.
pub const DEFAULT_MODE: InaMode = InaMode::BusVoltageContinuous;

/// The configuration word `word` with mode (bits 2..0), shunt conversion time
/// (5..3), bus conversion time (8..6) and averaging (11..9) replaced, and its
/// top four bits kept.
pub open spec fn configured(word: u16, mode: u16, vshct: u16, vbusct: u16, average: u16) -> u16 {
    (word & 0xF000) | (average << 9u16) | (vbusct << 6u16) | (vshct << 3u16) | mode
}

/// The 3-bit field of `word` that starts at bit `shift`.
pub open spec fn config_field(word: u16, shift: u16) -> u16 {
    (word >> shift) & 7
}

/// Replaces the four fields of a configuration word, one 3-bit span at a
/// time, leaving the reserved and reset bits as they were.
pub fn apply_configuration(
    word: u16,
    mode: InaMode,
    vshct: InaVshct,
    vbusct: InaVbusct,
    average: InaAverage,
) -> (r: u16)
    ensures
        r == configured(word, mode_bits(mode), vshct_bits(vshct), vbusct_bits(vbusct), average_bits(average)),
{
    let m = mode.bits();
    let s = vshct.bits();
    let b = vbusct.bits();
    let a = average.bits();
    let mut w = word;
    w = w & 0xFFF8;
    w = w | m;
    w = w & 0xFFC7;
    w = w | (s << 3u16);
    w = w & 0xFE3F;
    w = w | (b << 6u16);
    w = w & 0xF1FF;
    w = w | (a << 9u16);
    assert(w == (word & 0xF000) | (a << 9u16) | (b << 6u16) | (s << 3u16) | m) by (bit_vector)
        requires
            m < 8 && s < 8 && b < 8 && a < 8,
            w == ((((((((word & 0xFFF8) | m) & 0xFFC7) | (s << 3u16)) & 0xFE3F) | (b << 6u16)) & 0xF1FF) | (a << 9u16)),
    ;
    w
}

/// Writing the four fields into any word and decoding them again gives back
/// exactly what was written, and the bits outside the fields are unchanged.
pub proof fn lemma_configuration_round_trip(word: u16, mode: u16, vshct: u16, vbusct: u16, average: u16)
    requires
        mode < 8,
        vshct < 8,
        vbusct < 8,
        average < 8,
    ensures
        config_field(configured(word, mode, vshct, vbusct, average), 0) == mode,
        config_field(configured(word, mode, vshct, vbusct, average), 3) == vshct,
        config_field(configured(word, mode, vshct, vbusct, average), 6) == vbusct,
        config_field(configured(word, mode, vshct, vbusct, average), 9) == average,
        configured(word, mode, vshct, vbusct, average) & 0xF000 == word & 0xF000,
{
    let w = configured(word, mode, vshct, vbusct, average);
    assert(((w >> 0u16) & 7 == mode) && ((w >> 3u16) & 7 == vshct) && ((w >> 6u16) & 7 == vbusct) && ((w >> 9u16) & 7 == average) && (w & 0xF000 == word & 0xF000)) by (bit_vector)
        requires
            mode < 8 && vshct < 8 && vbusct < 8 && average < 8,
            w == (word & 0xF000) | (average << 9u16) | (vbusct << 6u16) | (vshct << 3u16) | mode,
    ;
}

/// The configuration word with the reset bit (15) set.
pub open spec fn reset_word(word: u16) -> u16 {
    word | 0x8000
}

/// The outcome of the identity check on the identifiers a device reported: a
/// wrong manufacturer is reported before a wrong die.
pub open spec fn identity_result(manufacturer: u16, die: u16) -> Result<(), Error> {
    if manufacturer != MANUFACTURER {
        Err(Error::InvalidManufacturer)
    } else if die != DIE_ID {
        Err(Error::InvalidDie)
    } else {
        Ok(())
    }
}

/// Checks the identifiers a device reported against the expected part.
pub fn check_identity(manufacturer: u16, die: u16) -> (r: Result<(), Error>)
    ensures
        r == identity_result(manufacturer, die),
{
    if manufacturer != MANUFACTURER {
        Err(Error::InvalidManufacturer)
    } else if die != DIE_ID {
        Err(Error::InvalidDie)
    } else {
        Ok(())
    }
}

/// The monitor's internal scaling constant, 0.00512, in billionths.
pub const INTERNAL_SCALING_NANO: u64 = 5_120_000;

/// The resistance of the sense resistor, 0.002 ohm, in micro-ohms.
pub const SHUNT_MICRO_OHMS: u64 = 2000;

/// The number of current steps over the full range (the current LSB is the
/// expected maximum current divided by this).
pub const CURRENT_STEPS: u64 = 32768;

/// The calibration register value for an expected maximum current of
/// `max_milliamps`: `0.00512 / (current_lsb * shunt)` with
/// `current_lsb = max / 32768`, truncated, and held to the register's range
/// (a zero maximum gives the largest value).
pub open spec fn calibration_for(max_milliamps: u32) -> u16 {
    let denominator = max_milliamps as int * SHUNT_MICRO_OHMS;
    let q = if denominator == 0 {
        0xFFFF
    } else {
        INTERNAL_SCALING_NANO * CURRENT_STEPS / denominator
    };
    if q > 0xFFFF {
        0xFFFF
    } else {
        q as u16
    }
}

/// Computes the calibration register value for an expected maximum current.
pub fn calibration_value(max_milliamps: u32) -> (r: u16)
    ensures
        r == calibration_for(max_milliamps),
{
    let denominator: u64 = max_milliamps as u64 * SHUNT_MICRO_OHMS;
    if denominator == 0 {
        return 0xFFFF;
    }
    let q: u64 = INTERNAL_SCALING_NANO * CURRENT_STEPS / denominator;
    if q > 0xFFFF {
        0xFFFF
    } else {
        q as u16
    }
}

/// The size of one bus-voltage step, 1.25 mV, in microvolts.
pub const VOLTAGE_LSB_MICROVOLTS: u32 = 1250;

/// The size of one shunt-voltage step, 2.5 uV, in nanovolts.
pub const SHUNT_LSB_NANOVOLTS: i32 = 2500;

/// The size of one current step, in milliamps.
pub const CURRENT_LSB_MILLIAMPS: i32 = 1;

/// The size of one power step, 25 mW, in milliwatts.
pub const POWER_LSB_MILLIWATTS: u32 = 25;

/// A register value read as a two's-complement number.
pub open spec fn signed_value(raw: u16) -> int {
    if raw < 0x8000 {
        raw as int
    } else {
        raw as int - 0x10000
    }
}

/// Reads a register value as a two's-complement number.
pub fn to_signed(raw: u16) -> (r: i32)
    ensures
        r == signed_value(raw),
{
    if raw < 0x8000 {
        raw as i32
    } else {
        raw as i32 - 0x10000
    }
}

/// The bus voltage, in microvolts, that an (unsigned) register value stands for.
pub fn bus_microvolts(raw: u16) -> (r: u32)
    ensures
        r == raw as int * VOLTAGE_LSB_MICROVOLTS,
{
    raw as u32 * VOLTAGE_LSB_MICROVOLTS
}

/// The shunt voltage, in nanovolts, that a (signed) register value stands for.
pub fn shunt_nanovolts(raw: u16) -> (r: i32)
    ensures
        r == signed_value(raw) * SHUNT_LSB_NANOVOLTS,
{
    to_signed(raw) * SHUNT_LSB_NANOVOLTS
}

/// The current, in milliamps, that a (signed) register value stands for.
pub fn current_milliamps(raw: u16) -> (r: i32)
    ensures
        r == signed_value(raw) * CURRENT_LSB_MILLIAMPS,
{
    to_signed(raw) * CURRENT_LSB_MILLIAMPS
}

/// The power, in milliwatts, that an (unsigned) register value stands for.
pub fn power_milliwatts(raw: u16) -> (r: u32)
    ensures
        r == raw as int * POWER_LSB_MILLIWATTS,
{
    raw as u32 * POWER_LSB_MILLIWATTS
}

/// Reads the manufacturer and die identifiers of the device at `address` and
/// checks them against the expected part. A failed transfer is a
/// `CommunicationErr`, which cannot be told apart from an empty address.
pub fn verify_hardware<T: Transport>(dev: &mut T, address: u8) -> (r: Result<(), Error>)
    ensures
        ({
            let before = old(dev).transfers();
            let after = final(dev).transfers();
            let n = before.len() as int;
            &&& n < after.len() <= n + 2
            &&& after.subrange(0, n) == before
            &&& crate::tools::is_read_of(after[n], address, 0xFE, 2)
            &&& after.len() == n + 2 <==> after[n].3
            &&& after.len() == n + 2 ==> crate::tools::is_read_of(after[n + 1], address, 0xFF, 2)
            &&& if after.len() == n + 2 && after[n + 1].3 {
                r == identity_result(reply_value(after[n]), reply_value(after[n + 1]))
            } else {
                r == Err::<(), Error>(Error::CommunicationErr)
            }
        }),
{
    let manufacturer = match read_register_u16(dev, address, Register::Manufacturer.address()) {
        Ok(v) => v,
        Err(e) => {
            proof {
                assert(dev.transfers().subrange(0, old(dev).transfers().len() as int)
                    =~= old(dev).transfers());
            }
            return Err(e);
        },
    };
    let ghost mid = dev.transfers();
    let die = read_register_u16(dev, address, Register::DieId.address());
    proof {
        let n = old(dev).transfers().len();
        assert(dev.transfers()[n as int] == mid[n as int]);
        assert(dev.transfers().subrange(0, n as int) =~= old(dev).transfers());
    }
    match die {
        Ok(d) => check_identity(manufacturer, d),
        Err(e) => Err(e),
    }
}

/// Reads the configuration word of the monitor at `address`.
pub fn read_configuration<T: Transport>(dev: &mut T, address: u8) -> (r: Result<u16, Error>)
    ensures
        word_read(old(dev).transfers(), final(dev).transfers(), address, 0x00, r),
{
    read_register_u16(dev, address, Register::Configuration.address())
}

/// Sets the four fields of the configuration word of the monitor at
/// `address`: the word is read, its fields replaced, and written back, so a
/// writer in between would be overwritten.
pub fn configure<T: Transport>(
    dev: &mut T,
    address: u8,
    mode: InaMode,
    vshct: InaVshct,
    vbusct: InaVbusct,
    average: InaAverage,
) -> (r: Result<(), Error>)
    ensures
        word_read_modify_write(
            old(dev).transfers(),
            final(dev).transfers(),
            address,
            0x00,
            (|w: u16|
                configured(
                    w,
                    mode_bits(mode),
                    vshct_bits(vshct),
                    vbusct_bits(vbusct),
                    average_bits(average),
                )),
            r,
        ),
{
    let word = match read_configuration(dev, address) {
        Ok(v) => v,
        Err(e) => {
            proof {
                assert(dev.transfers().subrange(0, old(dev).transfers().len() as int)
                    =~= old(dev).transfers());
            }
            return Err(e);
        },
    };
    let ghost mid = dev.transfers();
    let updated = apply_configuration(word, mode, vshct, vbusct, average);
    let r = write_register_u16(dev, address, Register::Configuration.address(), updated);
    proof {
        let n = old(dev).transfers().len();
        assert(dev.transfers()[n as int] == mid[n as int]);
        assert(dev.transfers().subrange(0, n as int) =~= old(dev).transfers());
    }
    r
}

/// Configures the monitor at `address` with the default settings.
pub fn config_hardware<T: Transport>(dev: &mut T, address: u8) -> (r: Result<(), Error>)
    ensures
        word_read_modify_write(
            old(dev).transfers(),
            final(dev).transfers(),
            address,
            0x00,
            (|w: u16|
                configured(
                    w,
                    mode_bits(DEFAULT_MODE),
                    vshct_bits(DEFAULT_VSHCT),
                    vbusct_bits(DEFAULT_VBUSCT),
                    average_bits(DEFAULT_AVERAGE),
                )),
            r,
        ),
{
    configure(dev, address, DEFAULT_MODE, DEFAULT_VSHCT, DEFAULT_VBUSCT, DEFAULT_AVERAGE)
}

/// Sets the reset bit of the configuration word of the monitor at `address`.
/// The chip then returns every register, calibration included, to its
/// power-on value: `configure` and `calibrate` must be issued again.
pub fn reset<T: Transport>(dev: &mut T, address: u8) -> (r: Result<(), Error>)
    ensures
        word_read_modify_write(
            old(dev).transfers(),
            final(dev).transfers(),
            address,
            0x00,
            (|w: u16| reset_word(w)),
            r,
        ),
{
    let word = match read_configuration(dev, address) {
        Ok(v) => v,
        Err(e) => {
            proof {
                assert(dev.transfers().subrange(0, old(dev).transfers().len() as int)
                    =~= old(dev).transfers());
            }
            return Err(e);
        },
    };
    let ghost mid = dev.transfers();
    let r = write_register_u16(dev, address, Register::Configuration.address(), word | 0x8000);
    proof {
        let n = old(dev).transfers().len();
        assert(dev.transfers()[n as int] == mid[n as int]);
        assert(dev.transfers().subrange(0, n as int) =~= old(dev).transfers());
    }
    r
}

/// Writes the calibration for an expected maximum current of
/// `max_milliamps` to the monitor at `address`.
pub fn calibrate<T: Transport>(dev: &mut T, address: u8, max_milliamps: u32) -> (r: Result<
    (),
    Error,
>)
    ensures
        final(dev).transfers() == old(dev).transfers().push(
            word_write(address, 0x05, calibration_for(max_milliamps), r is Ok),
        ),
        r is Err ==> r == Err::<(), Error>(Error::CommunicationErr),
{
    let cal = calibration_value(max_milliamps);
    write_register_u16(dev, address, Register::Calibration.address(), cal)
}

/// Reads the bus voltage of the monitor at `address`, in microvolts.
pub fn read_volts<T: Transport>(dev: &mut T, address: u8) -> (r: Result<u32, Error>)
    ensures
        one_word_read(old(dev).transfers(), final(dev).transfers(), address, 0x02),
        r is Ok <==> final(dev).transfers().last().3,
        match r {
            Ok(v) => v == reply_value(final(dev).transfers().last()) as int * VOLTAGE_LSB_MICROVOLTS,
            Err(e) => e == Error::CommunicationErr,
        },
{
    match read_register_u16(dev, address, Register::BusVoltage.address()) {
        Ok(raw) => Ok(bus_microvolts(raw)),
        Err(e) => Err(e),
    }
}

/// Reads the shunt voltage of the monitor at `address`, in nanovolts.
pub fn read_shunt<T: Transport>(dev: &mut T, address: u8) -> (r: Result<i32, Error>)
    ensures
        one_word_read(old(dev).transfers(), final(dev).transfers(), address, 0x01),
        r is Ok <==> final(dev).transfers().last().3,
        match r {
            Ok(v) => v == signed_value(reply_value(final(dev).transfers().last()))
                * SHUNT_LSB_NANOVOLTS,
            Err(e) => e == Error::CommunicationErr,
        },
{
    match read_register_u16(dev, address, Register::ShuntVoltage.address()) {
        Ok(raw) => Ok(shunt_nanovolts(raw)),
        Err(e) => Err(e),
    }
}

/// Reads the current through the shunt of the monitor at `address`, in milliamps.
pub fn read_amps<T: Transport>(dev: &mut T, address: u8) -> (r: Result<i32, Error>)
    ensures
        one_word_read(old(dev).transfers(), final(dev).transfers(), address, 0x04),
        r is Ok <==> final(dev).transfers().last().3,
        match r {
            Ok(v) => v == signed_value(reply_value(final(dev).transfers().last()))
                * CURRENT_LSB_MILLIAMPS,
            Err(e) => e == Error::CommunicationErr,
        },
{
    match read_register_u16(dev, address, Register::Current.address()) {
        Ok(raw) => Ok(current_milliamps(raw)),
        Err(e) => Err(e),
    }
}

/// Reads the power of the monitor at `address`, in milliwatts.
pub fn read_power<T: Transport>(dev: &mut T, address: u8) -> (r: Result<u32, Error>)
    ensures
        one_word_read(old(dev).transfers(), final(dev).transfers(), address, 0x03),
        r is Ok <==> final(dev).transfers().last().3,
        match r {
            Ok(v) => v == reply_value(final(dev).transfers().last()) as int * POWER_LSB_MILLIWATTS,
            Err(e) => e == Error::CommunicationErr,
        },
{
    match read_register_u16(dev, address, Register::Power.address()) {
        Ok(raw) => Ok(power_milliwatts(raw)),
        Err(e) => Err(e),
    }
}

} // verus!
