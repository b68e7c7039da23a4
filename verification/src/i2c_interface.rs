//! I2C transport adapter.

use crate::bus::{chunks_of, push_range, BusOp, BusOpModel};
use crate::{DataFormat, DisplayError, WriteOnlyDataCommand};
use vstd::prelude::*;

verus! {

/// The transactions of an I2C command write: one transaction holding the
/// command control byte `0x00` followed by the whole payload.  An empty
/// payload still produces the control-byte-only transaction.
pub open spec fn i2c_cmd_ops(addr: u8, payload: Seq<u8>) -> Seq<BusOpModel> {
    seq![BusOpModel::I2cWrite { addr, bytes: seq![0u8] + payload }]
}

/// The transactions of an I2C data write: the payload in chunks of sixteen
/// bytes, each prefixed with the data control byte.
pub open spec fn i2c_data_ops(addr: u8, control: u8, payload: Seq<u8>) -> Seq<BusOpModel> {
    chunks_of(payload, 16).map_values(
        |c: Seq<u8>| BusOpModel::I2cWrite { addr, bytes: seq![control] + c },
    )
}

/// Helper struct to create preconfigured I2C interfaces for the display.
#[derive(Debug, Copy, Clone)]
pub struct I2CDisplayInterface;

impl I2CDisplayInterface {
    /// Create a new interface with the default I2C address of 0x3C.
    pub fn new<I>(i2c: I) -> (r: I2CInterface<I>)
        ensures
            r.spec_addr() == 0x3c,
            r.spec_data_byte() == 0x40,
    {
        Self::new_custom_address(i2c, 0x3c)
    }

    /// Create a new interface with the alternate I2C address 0x3D, as
    /// specified in the datasheet.
    pub fn new_alternate_address<I>(i2c: I) -> (r: I2CInterface<I>)
        ensures
            r.spec_addr() == 0x3d,
            r.spec_data_byte() == 0x40,
    {
        Self::new_custom_address(i2c, 0x3d)
    }

    /// Create a new interface with a custom I2C address.
    pub fn new_custom_address<I>(i2c: I, address: u8) -> (r: I2CInterface<I>)
        ensures
            r.spec_addr() == address,
            r.spec_data_byte() == 0x40,
    {
        I2CInterface::new(i2c, address, 0x40)
    }
}

/// I2C communication interface.
///
/// Since the bus has no separate data/command line, every transaction is
/// prefixed with a control byte: `0x00` before commands, the configured data
/// byte (0x40 by convention) before data.
pub struct I2CInterface<I2C> {
    i2c: I2C,
    addr: u8,
    data_byte: u8,
}

impl<I2C> I2CInterface<I2C> {
    /// The device address the interface writes to.
    pub closed spec fn spec_addr(&self) -> u8 {
        self.addr
    }

    /// The control byte prefixed to data transactions.
    pub closed spec fn spec_data_byte(&self) -> u8 {
        self.data_byte
    }

    /// The peripheral the interface holds for its owner.
    pub closed spec fn spec_peripheral(&self) -> I2C {
        self.i2c
    }

    /// Create a new I2C interface for communication with a display driver.
    pub fn new(i2c: I2C, addr: u8, data_byte: u8) -> (r: Self)
        ensures
            r.spec_addr() == addr,
            r.spec_data_byte() == data_byte,
            r.spec_peripheral() == i2c,
    {
        Self { i2c, addr, data_byte }
    }

    /// Consume the interface and return the underlying peripheral: the one
    /// it was created with.
    pub fn release(self) -> (r: I2C)
        ensures
            r == self.spec_peripheral(),
    {
        self.i2c
    }

    /// Chunk a data payload into prefixed transactions.
    fn chunk_data(&self, payload: &Vec<u8>) -> (ops: Vec<BusOp>)
        ensures
            ops.deep_view() == i2c_data_ops(self.spec_addr(), self.spec_data_byte(), payload@),
    {
        let n = payload.len();
        let mut ops: Vec<BusOp> = Vec::new();
        let mut i: usize = 0;
        proof {
            assert(payload@.skip(0) =~= payload@);
            assert(ops.deep_view() =~= Seq::<BusOpModel>::empty());
        }
        while i < n
            invariant
                i <= n,
                n == payload@.len(),
                i2c_data_ops(self.spec_addr(), self.spec_data_byte(), payload@)
                    =~= ops.deep_view() + i2c_data_ops(
                    self.spec_addr(),
                    self.spec_data_byte(),
                    payload@.skip(i as int),
                ),
            decreases n - i,
        {
            let c: usize = if n - i < 16 { n - i } else { 16 };
            let mut bytes: Vec<u8> = Vec::new();
            bytes.push(self.data_byte);
            push_range(&mut bytes, payload.as_slice(), i, i + c);
            let ghost prev_ops = ops.deep_view();
            let op = BusOp::I2cWrite { addr: self.addr, bytes };
            proof {
                let s = payload@.skip(i as int);
                assert(s.take(c as int) =~= payload@.subrange(i as int, i + c));
                assert(s.skip(c as int) =~= payload@.skip(i + c));
                assert(chunks_of(s, 16) =~= seq![s.take(c as int)] + chunks_of(
                    s.skip(c as int),
                    16,
                ));
                assert(i2c_data_ops(self.spec_addr(), self.spec_data_byte(), s) =~= seq![op@]
                    + i2c_data_ops(
                    self.spec_addr(),
                    self.spec_data_byte(),
                    payload@.skip(i + c),
                ));
            }
            ops.push(op);
            proof {
                assert(ops.deep_view() =~= prev_ops.push(op@));
                assert(prev_ops.push(op@) =~= prev_ops + seq![op@]);
            }
            i = i + c;
        }
        proof {
            assert(payload@.skip(n as int) =~= Seq::<u8>::empty());
            assert(i2c_data_ops(self.spec_addr(), self.spec_data_byte(), payload@.skip(n as int))
                =~= Seq::<BusOpModel>::empty());
        }
        ops
    }
}

impl<I2C> WriteOnlyDataCommand for I2CInterface<I2C> {
    open spec fn cmd_ops(&self, payload: Seq<u8>) -> Seq<BusOpModel> {
        i2c_cmd_ops(self.spec_addr(), payload)
    }

    open spec fn data_ops(&self, payload: Seq<u8>) -> Seq<BusOpModel> {
        i2c_data_ops(self.spec_addr(), self.spec_data_byte(), payload)
    }

    open spec fn cmd_format_ok(&self, fmt: DataFormat) -> bool {
        fmt is U8
    }

    open spec fn data_format_ok(&self, fmt: DataFormat) -> bool {
        fmt is U8 || fmt is U8Iter
    }

    open spec fn cmd_cap_ok(&self, fmt: DataFormat) -> bool {
        match fmt {
            DataFormat::U8(payload) => payload@.len() <= 7,
            _ => true,
        }
    }

    open spec fn cmd_sent_ok(&self, fmt: DataFormat, ops: Seq<BusOpModel>) -> bool {
        match fmt {
            DataFormat::U8(payload) => ops == self.cmd_ops(payload@),
            _ => false,
        }
    }

    open spec fn data_sent_ok(&self, fmt: DataFormat, ops: Seq<BusOpModel>) -> bool {
        match fmt {
            DataFormat::U8(payload) => ops == self.data_ops(payload@),
            DataFormat::U8Iter(payload) => ops == self.data_ops(payload@),
            _ => false,
        }
    }

    proof fn cmd_cap_small(&self, fmt: DataFormat) {
    }

    fn send_commands(&self, fmt: &DataFormat) -> (r: Result<Vec<BusOp>, DisplayError>) {
        match fmt {
            DataFormat::U8(payload) => {
                let mut ops: Vec<BusOp> = Vec::new();
                let mut bytes: Vec<u8> = Vec::new();
                bytes.push(0u8);
                push_range(&mut bytes, payload.as_slice(), 0, payload.len());
                proof {
                    assert(bytes@ =~= seq![0u8] + payload@);
                }
                ops.push(BusOp::I2cWrite { addr: self.addr, bytes });
                proof {
                    assert(ops.deep_view() =~= self.cmd_ops(payload@));
                }
                Ok(ops)
            },
            _ => Err(DisplayError::DataFormatNotImplemented),
        }
    }

    fn send_data(&self, fmt: &DataFormat) -> (r: Result<Vec<BusOp>, DisplayError>) {
        match fmt {
            DataFormat::U8(payload) => Ok(self.chunk_data(payload)),
            DataFormat::U8Iter(payload) => Ok(self.chunk_data(payload)),
            _ => Err(DisplayError::DataFormatNotImplemented),
        }
    }
}

} // verus!
