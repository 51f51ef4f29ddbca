use vstd::prelude::*;

use byteorder::ByteOrder;
use mcp2221::Error as McpError;

verus! {

/// One I2C transaction: device address, bytes written, bytes read back, and
/// whether the bridge reported it complete.
pub type Transfer = (u8, Seq<u8>, Seq<u8>, bool);

/// A bridge that runs I2C transactions: the one primitive the register maps use.
pub trait Transport {
    /// Every transaction issued so far, oldest first. An implementation whose
    /// `write_read` is verified keeps this record; the default holds nothing.
    open spec fn transfers(&self) -> Seq<Transfer> {
        Seq::empty()
    }

    /// Writes `to_write` to the device at `address`, then reads as many bytes
    /// as `to_read` holds back into it. A failed or short transfer is an `Err`.
    fn write_read(&mut self, address: u8, to_write: &Vec<u8>, to_read: &mut Vec<u8>) -> (r: Result<
        (),
        crate::tools::Error,
    >)
        ensures
            final(to_read)@.len() == old(to_read)@.len(),
            final(self).transfers() == old(self).transfers().push(
                (address, to_write@, final(to_read)@, r is Ok),
            ),
            r is Err ==> r == Err::<(), crate::tools::Error>(crate::tools::Error::CommunicationErr),
    ;
}

/// mcp2221's handle on an open bridge, carried through unopened.
#[verifier::external_type_specification]
#[verifier::external_body]
pub struct ExHandle(mcp2221::Handle);

/// mcp2221's transfer error; only its presence is looked at.
#[verifier::external_type_specification]
#[verifier::external_body]
pub struct ExMcpError(McpError);

/// Relies on mcp2221's `Handle::write_read_address`: it writes `to_write` to
/// the device, then fills `to_read` in place, and never resizes it. Whether it
/// succeeds, and what is read, is up to the bus; the bridge itself panics
/// only on a reply that reports more bytes than were asked for or than one
/// packet holds.
#[verifier::external_body]
fn handle_write_read(
    dev: &mut mcp2221::Handle,
    address: u8,
    to_write: &Vec<u8>,
    to_read: &mut Vec<u8>,
) -> (r: Result<(), McpError>)
    ensures
        final(to_read)@.len() == old(to_read)@.len(),
{
    dev.write_read_address(address, to_write.as_slice(), to_read.as_mut_slice())
}

/// An open USB-to-I2C bridge, with the record of the transactions run on it.
pub struct Bridge {
    dev: mcp2221::Handle,
    history: Ghost<Seq<Transfer>>,
}

impl Bridge {
    /// Takes over an open bridge; nothing has been run on it yet.
    pub fn new(dev: mcp2221::Handle) -> (r: Bridge)
        ensures
            r.transfers() == Seq::<Transfer>::empty(),
    {
        Bridge { dev, history: Ghost(Seq::empty()) }
    }

    /// Gives the bridge back.
    pub fn into_handle(self) -> mcp2221::Handle {
        self.dev
    }
}

impl Transport for Bridge {
    closed spec fn transfers(&self) -> Seq<Transfer> {
        self.history@
    }

    fn write_read(&mut self, address: u8, to_write: &Vec<u8>, to_read: &mut Vec<u8>) -> (r: Result<
        (),
        crate::tools::Error,
    >) {
        match handle_write_read(&mut self.dev, address, to_write, to_read) {
            Ok(()) => {
                self.history = Ghost(self.history@.push((address, to_write@, to_read@, true)));
                Ok(())
            },
            Err(_) => {
                self.history = Ghost(self.history@.push((address, to_write@, to_read@, false)));
                Err(crate::tools::Error::CommunicationErr)
            },
        }
    }
}

/// The value of two bytes read most significant first.
pub open spec fn be_value(hi: u8, lo: u8) -> u16 {
    (hi as int * 256 + lo as int) as u16
}

/// Relies on byteorder's `BigEndian::read_u16`: the first byte is the high one.
#[verifier::external_body]
pub(crate) fn read_be_u16(buf: &[u8; 2]) -> (r: u16)
    ensures
        r == be_value(buf@[0], buf@[1]),
{
    byteorder::BigEndian::read_u16(buf)
}

/// Relies on byteorder's `BigEndian::write_u16`: the high byte goes first.
#[verifier::external_body]
pub(crate) fn write_be_u16(buf: &mut [u8; 2], n: u16)
    ensures
        final(buf)@[0] == (n / 256) as u8,
        final(buf)@[1] == (n % 256) as u8,
{
    byteorder::BigEndian::write_u16(buf, n)
}

} // verus!
