use vstd::prelude::*;

use crate::bus::{Transfer, Transport};

verus! {

/// The pins of one 8-pin port of the expander, each named by its one-hot mask.
#[derive(Copy, Clone, PartialEq, Eq, Debug, Structural)]
pub enum Pin {
    Pin0,
    Pin1,
    Pin2,
    Pin3,
    Pin4,
    Pin5,
    Pin6,
    Pin7,
    /// Names no pin; rejected by every pin operation.
    Invalid,
}

/// The one-hot mask of a pin; `0` for `Pin::Invalid`.
pub open spec fn pin_mask(pin: Pin) -> u8 {
    match pin {
        Pin::Pin0 => 0x01,
        Pin::Pin1 => 0x02,
        Pin::Pin2 => 0x04,
        Pin::Pin3 => 0x08,
        Pin::Pin4 => 0x10,
        Pin::Pin5 => 0x20,
        Pin::Pin6 => 0x40,
        Pin::Pin7 => 0x80,
        Pin::Invalid => 0x00,
    }
}

/// A mask with exactly one bit set.
pub open spec fn is_one_hot(m: u8) -> bool {
    m == 0x01 || m == 0x02 || m == 0x04 || m == 0x08 || m == 0x10 || m == 0x20 || m == 0x40
        || m == 0x80
}

impl Pin {
    /// The pin's one-hot mask.
    pub fn mask(self) -> (r: u8)
        ensures
            r == pin_mask(self),
    {
        match self {
            Pin::Pin0 => 0x01,
            Pin::Pin1 => 0x02,
            Pin::Pin2 => 0x04,
            Pin::Pin3 => 0x08,
            Pin::Pin4 => 0x10,
            Pin::Pin5 => 0x20,
            Pin::Pin6 => 0x40,
            Pin::Pin7 => 0x80,
            Pin::Invalid => 0x00,
        }
    }
}

/// `byte` with the bits of `mask` set.
pub open spec fn set_bits(byte: u8, mask: u8) -> u8 {
    byte | mask
}

/// `byte` with the bits of `mask` cleared.
pub open spec fn clear_bits(byte: u8, mask: u8) -> u8 {
    byte & !mask
}

/// `1` when some bit of `mask` is set in `byte`, else `0`.
pub open spec fn read_bits(byte: u8, mask: u8) -> u8 {
    if byte & mask != 0 {
        1
    } else {
        0
    }
}

/// Sets the bit of `pin` in `byte`.
pub fn bit_set(byte: u8, pin: Pin) -> (r: u8)
    requires
        pin != Pin::Invalid,
    ensures
        r == set_bits(byte, pin_mask(pin)),
{
    byte | pin.mask()
}

/// Clears the bit of `pin` in `byte`.
pub fn bit_clear(byte: u8, pin: Pin) -> (r: u8)
    requires
        pin != Pin::Invalid,
    ensures
        r == clear_bits(byte, pin_mask(pin)),
{
    byte & !pin.mask()
}

/// Reads the bit of `pin` in `byte`, as `0` or `1`.
pub fn bit_read(byte: u8, pin: Pin) -> (r: u8)
    requires
        pin != Pin::Invalid,
    ensures
        r == read_bits(byte, pin_mask(pin)),
        r <= 1,
{
    if byte & pin.mask() != 0 {
        1
    } else {
        0
    }
}

/// Every valid pin has a one-hot mask.
pub proof fn lemma_pin_mask_one_hot(pin: Pin)
    requires
        pin != Pin::Invalid,
    ensures
        is_one_hot(pin_mask(pin)),
{
}

/// A bit that was just set reads as `1`; one that was just cleared reads as `0`.
pub proof fn lemma_read_after_set_clear(b: u8, m: u8)
    requires
        is_one_hot(m),
    ensures
        read_bits(set_bits(b, m), m) == 1,
        read_bits(clear_bits(b, m), m) == 0,
{
    assert((b | m) & m == m) by (bit_vector);
    assert((b & !m) & m == 0) by (bit_vector);
}

/// Clearing after setting gives the same byte as clearing alone.
pub proof fn lemma_clear_after_set(b: u8, m: u8)
    ensures
        clear_bits(set_bits(b, m), m) == clear_bits(b, m),
{
    assert((b | m) & !m == b & !m) by (bit_vector);
}

/// The registers of the expander's bank, one per port.
#[derive(Copy, Clone, PartialEq, Eq, Debug, Structural)]
pub enum Register {
    Iodir,
    Ipol,
    Gpinten,
    Defval,
    Intcon,
    Iocon,
    Gppu,
    Intf,
    Intcap,
    Gpio,
    Olat,
}

/// The offset of a register in the expander's address space (port A).
pub open spec fn register_offset(reg: Register) -> u8 {
    match reg {
        Register::Iodir => 0x00,
        Register::Ipol => 0x02,
        Register::Gpinten => 0x04,
        Register::Defval => 0x06,
        Register::Intcon => 0x08,
        Register::Iocon => 0x0A,
        Register::Gppu => 0x0C,
        Register::Intf => 0x0E,
        Register::Intcap => 0x10,
        Register::Gpio => 0x12,
        Register::Olat => 0x14,
    }
}

impl Register {
    /// The register's offset.
    pub fn offset(self) -> (r: u8)
        ensures
            r == register_offset(self),
    {
        match self {
            Register::Iodir => 0x00,
            Register::Ipol => 0x02,
            Register::Gpinten => 0x04,
            Register::Defval => 0x06,
            Register::Intcon => 0x08,
            Register::Iocon => 0x0A,
            Register::Gppu => 0x0C,
            Register::Intf => 0x0E,
            Register::Intcap => 0x10,
            Register::Gpio => 0x12,
            Register::Olat => 0x14,
        }
    }
}

/// The two 8-pin ports of the expander.
#[derive(Copy, Clone, PartialEq, Eq, Debug, Structural)]
pub enum Port {
    Porta,
    Portb,
}

/// The bit that selects a port in a register address.
pub open spec fn port_selector(port: Port) -> u8 {
    match port {
        Port::Porta => 0x00,
        Port::Portb => 0x01,
    }
}

impl Port {
    /// The port's selector bit.
    pub fn selector(self) -> (r: u8)
        ensures
            r == port_selector(self),
    {
        match self {
            Port::Porta => 0x00,
            Port::Portb => 0x01,
        }
    }
}

/// The direction of a pin: an output drives the line, an input reads it.
#[derive(Copy, Clone, PartialEq, Eq, Debug, Structural)]
pub enum Direction {
    Output,
    Input,
}

/// The byte-wide tag of a direction: all pins of a port set that way.
pub open spec fn direction_tag(dir: Direction) -> u8 {
    match dir {
        Direction::Output => 0x00,
        Direction::Input => 0xFF,
    }
}

impl Direction {
    /// The direction register's value with every pin of a port set this way.
    pub fn tag(self) -> (r: u8)
        ensures
            r == direction_tag(self),
    {
        match self {
            Direction::Output => 0x00,
            Direction::Input => 0xFF,
        }
    }
}

/// The I2C address of the expander.
pub const MCP23017_ADDRESS: u8 = 0x20;

/// The failures of the register layer.
#[derive(Copy, Clone, PartialEq, Eq, Debug, Structural)]
pub enum Error {
    /// The bridge could not complete a transfer.
    CommunicationErr,
    /// A pin or port argument names nothing.
    InvalidParameter,
    /// The device's die identifier is not the expected one.
    InvalidDie,
    /// The device's manufacturer identifier is not the expected one.
    InvalidManufacturer,
    /// No device address was given.
    MissingAddress,
    /// No bridge is open.
    MissingI2C,
}

/// The text that describes an error.
pub open spec fn error_text(e: Error) -> Seq<char> {
    match e {
        Error::InvalidDie => "Invalid Die Number"@,
        Error::CommunicationErr => "Not found on address"@,
        Error::InvalidManufacturer => "Invalid Manufacturer"@,
        Error::InvalidParameter => "Invalid Parameter"@,
        Error::MissingAddress => "Missing Device Address"@,
        Error::MissingI2C => "Missing I2C Bus"@,
    }
}

impl Error {
    /// A short description of the error, for people.
    pub fn message(&self) -> (r: &'static str)
        ensures
            r@ == error_text(*self),
    {
        match self {
            Error::InvalidDie => "Invalid Die Number",
            Error::CommunicationErr => "Not found on address",
            Error::InvalidManufacturer => "Invalid Manufacturer",
            Error::InvalidParameter => "Invalid Parameter",
            Error::MissingAddress => "Missing Device Address",
            Error::MissingI2C => "Missing I2C Bus",
        }
    }
}

/// The address byte of a register of a port: offset and selector, combined.
pub open spec fn address_of(reg: Register, port: Port) -> u8 {
    register_offset(reg) | port_selector(port)
}

/// The address byte sent on the wire for `reg` of `port`.
pub fn register_address(reg: Register, port: Port) -> (r: u8)
    ensures
        r == address_of(reg, port),
{
    reg.offset() | port.selector()
}

proof fn lemma_split_address(o: u8, s: u8)
    requires
        o & 1 == 0,
        s <= 1,
    ensures
        (o | s) & 0xFE == o,
        (o | s) & 1 == s,
{
    assert((o | s) & 0xFE == o && (o | s) & 1 == s) by (bit_vector)
        requires
            o & 1 == 0,
            s <= 1,
    ;
}

proof fn lemma_offset_even(reg: Register)
    ensures
        register_offset(reg) & 1 == 0,
{
    let o = register_offset(reg);
    assert(o & 1 == 0) by (bit_vector)
        requires
            o == 0x00 || o == 0x02 || o == 0x04 || o == 0x06 || o == 0x08 || o == 0x0A || o == 0x0C
                || o == 0x0E || o == 0x10 || o == 0x12 || o == 0x14,
    ;
}

/// No two distinct (register, port) pairs share an address byte, and the
/// offset and the selector can each be read back from the address.
pub proof fn lemma_address_injective(r1: Register, p1: Port, r2: Register, p2: Port)
    ensures
        address_of(r1, p1) & 0xFE == register_offset(r1),
        address_of(r1, p1) & 1 == port_selector(p1),
        address_of(r1, p1) == address_of(r2, p2) ==> r1 == r2 && p1 == p2,
{
    lemma_offset_even(r1);
    lemma_offset_even(r2);
    lemma_split_address(register_offset(r1), port_selector(p1));
    lemma_split_address(register_offset(r2), port_selector(p2));
}

/// A transaction that writes the address byte `reg_addr` to `device` and reads
/// `n` bytes back, whether or not it completed.
pub open spec fn is_read_of(t: Transfer, device: u8, reg_addr: u8, n: nat) -> bool {
    t.0 == device && t.1 == seq![reg_addr] && t.2.len() == n
}

/// The transaction that writes `value` to the expander register at `reg_addr`.
/// `ok` tells whether it completed.
pub open spec fn expander_write(reg_addr: u8, value: u8, ok: bool) -> Transfer {
    (MCP23017_ADDRESS, seq![reg_addr, value], Seq::empty(), ok)
}

/// The pin byte after a read-modify-write: the pin's bit set when `set`, else cleared.
pub open spec fn pin_update(byte: u8, pin: Pin, set: bool) -> u8 {
    if set {
        set_bits(byte, pin_mask(pin))
    } else {
        clear_bits(byte, pin_mask(pin))
    }
}

/// `after` is `before` followed by a read of the expander register at
/// `reg_addr` and, when the read succeeded, a write of that byte with the bit
/// of `pin` set (`set`) or cleared; `r` is `Ok` exactly when both completed.
pub open spec fn pin_read_modify_write(
    before: Seq<Transfer>,
    after: Seq<Transfer>,
    reg_addr: u8,
    pin: Pin,
    set: bool,
    r: Result<(), Error>,
) -> bool {
    let n = before.len() as int;
    &&& n < after.len() <= n + 2
    &&& after.subrange(0, n) == before
    &&& is_read_of(after[n], MCP23017_ADDRESS, reg_addr, 1)
    &&& after.len() == n + 2 <==> after[n].3
    &&& after.len() == n + 2 ==> after[n + 1] == expander_write(
        reg_addr,
        pin_update(after[n].2[0], pin, set),
        r is Ok,
    )
    &&& r is Ok ==> after.len() == n + 2
    &&& r is Err ==> r == Err::<(), Error>(Error::CommunicationErr)
}

/// Reads one register of one port of the expander.
pub fn read_register<T: Transport>(dev: &mut T, reg: Register, port: Port) -> (r: Result<u8, Error>)
    ensures
        final(dev).transfers().drop_last() == old(dev).transfers(),
        final(dev).transfers().len() == old(dev).transfers().len() + 1,
        is_read_of(final(dev).transfers().last(), MCP23017_ADDRESS, address_of(reg, port), 1),
        r is Ok <==> final(dev).transfers().last().3,
        match r {
            Ok(v) => final(dev).transfers().last().2 == seq![v],
            Err(e) => e == Error::CommunicationErr,
        },
{
    let to_write: Vec<u8> = vec![register_address(reg, port)];
    let mut to_read: Vec<u8> = vec![0u8];
    proof {
        assert(to_write@ =~= seq![address_of(reg, port)]);
    }
    match dev.write_read(MCP23017_ADDRESS, &to_write, &mut to_read) {
        Ok(()) => {
            let v = to_read[0];
            proof {
                assert(to_read@ =~= seq![v]);
            }
            Ok(v)
        },
        Err(_) => Err(Error::CommunicationErr),
    }
}

/// Writes one register of one port of the expander, in a single transaction.
pub fn write_register<T: Transport>(dev: &mut T, port: Port, reg: Register, value: u8) -> (r:
    Result<(), Error>)
    ensures
        final(dev).transfers() == old(dev).transfers().push(
            expander_write(address_of(reg, port), value, r is Ok),
        ),
        r is Err ==> r == Err::<(), Error>(Error::CommunicationErr),
{
    let to_write: Vec<u8> = vec![register_address(reg, port), value];
    let mut to_read: Vec<u8> = Vec::new();
    proof {
        assert(to_write@ =~= seq![address_of(reg, port), value]);
    }
    let res = dev.write_read(MCP23017_ADDRESS, &to_write, &mut to_read);
    proof {
        assert(to_read@ =~= Seq::<u8>::empty());
    }
    match res {
        Ok(()) => Ok(()),
        Err(_) => Err(Error::CommunicationErr),
    }
}

/// Sets or clears the bit of `pin` in register `reg` of `port`, keeping the others.
fn update_pin<T: Transport>(dev: &mut T, reg: Register, port: Port, pin: Pin, set: bool) -> (r:
    Result<(), Error>)
    requires
        pin != Pin::Invalid,
    ensures
        pin_read_modify_write(
            old(dev).transfers(),
            final(dev).transfers(),
            address_of(reg, port),
            pin,
            set,
            r,
        ),
{
    let current = match read_register(dev, reg, port) {
        Ok(v) => v,
        Err(e) => {
            proof {
                assert(final(dev).transfers().subrange(0, old(dev).transfers().len() as int)
                    =~= old(dev).transfers());
            }
            return Err(e);
        },
    };
    let ghost mid = dev.transfers();
    let updated = if set {
        bit_set(current, pin)
    } else {
        bit_clear(current, pin)
    };
    let r = write_register(dev, port, reg, updated);
    proof {
        let n = old(dev).transfers().len();
        assert(dev.transfers()[n as int] == mid[n as int]);
        assert(dev.transfers().subrange(0, n as int) =~= old(dev).transfers());
    }
    r
}

/// Makes `pin` of `port` an output (its direction bit cleared) or an input
/// (set), leaving the other pins of the port as they were. The register is
/// read, then written: another writer in between would be overwritten.
pub fn set_pin_dir<T: Transport>(dev: &mut T, port: Port, pin: Pin, dir: Direction) -> (r: Result<
    (),
    Error,
>)
    ensures
        pin == Pin::Invalid ==> r == Err::<(), Error>(Error::InvalidParameter)
            && final(dev).transfers() == old(dev).transfers(),
        pin != Pin::Invalid ==> pin_read_modify_write(
            old(dev).transfers(),
            final(dev).transfers(),
            address_of(Register::Iodir, port),
            pin,
            dir == Direction::Input,
            r,
        ),
{
    if pin == Pin::Invalid {
        return Err(Error::InvalidParameter);
    }
    update_pin(dev, Register::Iodir, port, pin, dir == Direction::Input)
}

/// Drives `pin` of `port` high when `value` is `1` and low otherwise, through
/// the output latch, leaving the other pins of the port as they were.
pub fn write_pin<T: Transport>(dev: &mut T, port: Port, pin: Pin, value: u8) -> (r: Result<
    (),
    Error,
>)
    ensures
        pin == Pin::Invalid ==> r == Err::<(), Error>(Error::InvalidParameter)
            && final(dev).transfers() == old(dev).transfers(),
        pin != Pin::Invalid ==> pin_read_modify_write(
            old(dev).transfers(),
            final(dev).transfers(),
            address_of(Register::Olat, port),
            pin,
            value == 1,
            r,
        ),
{
    if pin == Pin::Invalid {
        return Err(Error::InvalidParameter);
    }
    update_pin(dev, Register::Olat, port, pin, value == 1)
}

/// Reads the level of `pin` of `port` from the input register, as `0` or `1`.
pub fn read_pin<T: Transport>(dev: &mut T, port: Port, pin: Pin) -> (r: Result<u8, Error>)
    ensures
        pin == Pin::Invalid ==> r == Err::<u8, Error>(Error::InvalidParameter)
            && final(dev).transfers() == old(dev).transfers(),
        pin != Pin::Invalid ==> {
            &&& final(dev).transfers().drop_last() == old(dev).transfers()
            &&& final(dev).transfers().len() == old(dev).transfers().len() + 1
            &&& is_read_of(
                final(dev).transfers().last(),
                MCP23017_ADDRESS,
                address_of(Register::Gpio, port),
                1,
            )
            &&& r is Ok <==> final(dev).transfers().last().3
            &&& match r {
                Ok(v) => v == read_bits(final(dev).transfers().last().2[0], pin_mask(pin)),
                Err(e) => e == Error::CommunicationErr,
            }
        },
{
    if pin == Pin::Invalid {
        return Err(Error::InvalidParameter);
    }
    match read_register(dev, Register::Gpio, port) {
        Ok(v) => Ok(bit_read(v, pin)),
        Err(e) => Err(e),
    }
}

} // verus!
