//! SPI transport adapter.

use crate::bus::{
    be_bytes_of, chunks_of, le_bytes_of, push_range, words_to_be_bytes, words_to_le_bytes,
    words_to_native_bytes, BusOp, BusOpModel,
};
use crate::{DataFormat, DisplayError, WriteOnlyDataCommand};
use vstd::prelude::*;

verus! {

/// The transactions of one SPI operation: the data/command line is set once
/// before the transfer, the chip-select line (when wired) is asserted once
/// around all chunks and released afterwards, and the payload goes out in
/// bounded chunks.  An empty payload produces no write transactions, but
/// the line framing still happens.
pub open spec fn spi_ops(data: bool, payload: Seq<u8>, chunk: int) -> Seq<BusOpModel> {
    seq![
        BusOpModel::DataCommandPin { high: data },
        BusOpModel::ChipSelectPin { high: false },
    ] + spi_chunk_ops(payload, chunk) + seq![BusOpModel::ChipSelectPin { high: true }]
}

/// The write transactions of an SPI payload, one per chunk.
pub open spec fn spi_chunk_ops(payload: Seq<u8>, chunk: int) -> Seq<BusOpModel> {
    chunks_of(payload, chunk).map_values(|c: Seq<u8>| BusOpModel::SpiWrite { bytes: c })
}

/// Exactly which transactions an SPI write of the given payload shape
/// produces.  Eight-bit payloads are chunked at 32 bytes, 16-bit payloads at
/// 64 bytes.  The byte order of the native-order shape depends on the
/// machine, so for it either serialization is allowed, uniformly.
pub open spec fn spi_sent_ok(data: bool, fmt: DataFormat, ops: Seq<BusOpModel>) -> bool {
    match fmt {
        DataFormat::U8(payload) => ops == spi_ops(data, payload@, 32),
        DataFormat::U8Iter(payload) => ops == spi_ops(data, payload@, 32),
        DataFormat::U16(words) => ops == spi_ops(data, le_bytes_of(words@), 64) || ops == spi_ops(
            data,
            be_bytes_of(words@),
            64,
        ),
        DataFormat::U16LE(words) => ops == spi_ops(data, le_bytes_of(words@), 64),
        DataFormat::U16LEIter(words) => ops == spi_ops(data, le_bytes_of(words@), 64),
        DataFormat::U16BE(words) => ops == spi_ops(data, be_bytes_of(words@), 64),
        DataFormat::U16BEIter(words) => ops == spi_ops(data, be_bytes_of(words@), 64),
    }
}

/// Compile one SPI operation over an already serialized byte payload.
fn spi_write_bytes(data: bool, payload: &Vec<u8>, chunk: usize) -> (ops: Vec<BusOp>)
    requires
        1 <= chunk,
    ensures
        ops.deep_view() == spi_ops(data, payload@, chunk as int),
{
    let n = payload.len();
    let mut ops: Vec<BusOp> = Vec::new();
    ops.push(BusOp::DataCommandPin { high: data });
    ops.push(BusOp::ChipSelectPin { high: false });
    let mut i: usize = 0;
    proof {
        assert(payload@.skip(0) =~= payload@);
        assert(ops.deep_view() =~= seq![
            BusOpModel::DataCommandPin { high: data },
            BusOpModel::ChipSelectPin { high: false },
        ]);
    }
    while i < n
        invariant
            i <= n,
            n == payload@.len(),
            1 <= chunk,
            spi_ops(data, payload@, chunk as int) =~= ops.deep_view() + spi_chunk_ops(
                payload@.skip(i as int),
                chunk as int,
            ) + seq![BusOpModel::ChipSelectPin { high: true }],
        decreases n - i,
    {
        let c: usize = if n - i < chunk {
            n - i
        } else {
            chunk
        };
        let mut bytes: Vec<u8> = Vec::new();
        push_range(&mut bytes, payload.as_slice(), i, i + c);
        let ghost prev_ops = ops.deep_view();
        let op = BusOp::SpiWrite { bytes };
        proof {
            broadcast use vstd::seq_lib::group_seq_properties;

            let s = payload@.skip(i as int);
            assert(bytes@ =~= payload@.subrange(i as int, i + c));
            assert(s.take(c as int) =~= payload@.subrange(i as int, i + c));
            assert(s.skip(c as int) =~= payload@.skip(i + c));
            assert(chunks_of(s, chunk as int) =~= seq![s.take(c as int)] + chunks_of(
                s.skip(c as int),
                chunk as int,
            ));
            assert(spi_chunk_ops(s, chunk as int) =~= seq![op@] + spi_chunk_ops(
                payload@.skip(i + c),
                chunk as int,
            ));
        }
        ops.push(op);
        proof {
            assert(ops.deep_view() =~= prev_ops + seq![op@]);
        }
        i = i + c;
    }
    proof {
        assert(payload@.skip(n as int) =~= Seq::<u8>::empty());
        assert(spi_chunk_ops(payload@.skip(n as int), chunk as int)
            =~= Seq::<BusOpModel>::empty());
    }
    let ghost prev_ops = ops.deep_view();
    ops.push(BusOp::ChipSelectPin { high: true });
    proof {
        assert(ops.deep_view() =~= prev_ops + seq![BusOpModel::ChipSelectPin { high: true }]);
    }
    ops
}

/// Compile one SPI operation for any payload shape.
fn spi_send(data: bool, fmt: &DataFormat) -> (ops: Vec<BusOp>)
    ensures
        spi_sent_ok(data, *fmt, ops.deep_view()),
        (*fmt) matches DataFormat::U8(payload) ==> ops.deep_view() == spi_ops(
            data,
            payload@,
            32,
        ),
{
    match fmt {
        DataFormat::U8(payload) => spi_write_bytes(data, payload, 32),
        DataFormat::U8Iter(payload) => spi_write_bytes(data, payload, 32),
        DataFormat::U16(words) => {
            let bytes = words_to_native_bytes(words.as_slice());
            spi_write_bytes(data, &bytes, 64)
        },
        DataFormat::U16LE(words) => {
            let bytes = words_to_le_bytes(words.as_slice());
            spi_write_bytes(data, &bytes, 64)
        },
        DataFormat::U16LEIter(words) => {
            let bytes = words_to_le_bytes(words.as_slice());
            spi_write_bytes(data, &bytes, 64)
        },
        DataFormat::U16BE(words) => {
            let bytes = words_to_be_bytes(words.as_slice());
            spi_write_bytes(data, &bytes, 64)
        },
        DataFormat::U16BEIter(words) => {
            let bytes = words_to_be_bytes(words.as_slice());
            spi_write_bytes(data, &bytes, 64)
        },
    }
}

/// SPI display interface.
///
/// This combines the SPI peripheral and a data/command pin.  Both are held
/// only as tokens: the transactions the interface produces name the line
/// levels and bus writes for the integrator to perform.
pub struct SPIInterface<SPI, DC> {
    spi: SPI,
    dc: DC,
}

impl<SPI, DC> SPIInterface<SPI, DC> {
    /// The SPI peripheral the interface holds for its owner.
    pub closed spec fn spec_spi(&self) -> SPI {
        self.spi
    }

    /// The data/command pin the interface holds for its owner.
    pub closed spec fn spec_dc(&self) -> DC {
        self.dc
    }

    /// Create a new SPI interface for communication with a display driver.
    pub fn new(spi: SPI, dc: DC) -> (r: Self)
        ensures
            r.spec_spi() == spi,
            r.spec_dc() == dc,
    {
        Self { spi, dc }
    }

    /// Consume the interface and return the underlying peripheral and the
    /// data/command pin: the ones it was created with.
    pub fn release(self) -> (r: (SPI, DC))
        ensures
            r == (self.spec_spi(), self.spec_dc()),
    {
        (self.spi, self.dc)
    }
}

impl<SPI, DC> WriteOnlyDataCommand for SPIInterface<SPI, DC> {
    open spec fn cmd_ops(&self, payload: Seq<u8>) -> Seq<BusOpModel> {
        spi_ops(false, payload, 32)
    }

    open spec fn data_ops(&self, payload: Seq<u8>) -> Seq<BusOpModel> {
        spi_ops(true, payload, 32)
    }

    open spec fn cmd_format_ok(&self, fmt: DataFormat) -> bool {
        true
    }

    open spec fn data_format_ok(&self, fmt: DataFormat) -> bool {
        true
    }

    open spec fn cmd_cap_ok(&self, fmt: DataFormat) -> bool {
        true
    }

    open spec fn cmd_sent_ok(&self, fmt: DataFormat, ops: Seq<BusOpModel>) -> bool {
        spi_sent_ok(false, fmt, ops)
    }

    open spec fn data_sent_ok(&self, fmt: DataFormat, ops: Seq<BusOpModel>) -> bool {
        spi_sent_ok(true, fmt, ops)
    }

    proof fn cmd_cap_small(&self, fmt: DataFormat) {
    }

    fn send_commands(&self, fmt: &DataFormat) -> (r: Result<Vec<BusOp>, DisplayError>) {
        Ok(spi_send(false, fmt))
    }

    fn send_data(&self, fmt: &DataFormat) -> (r: Result<Vec<BusOp>, DisplayError>) {
        Ok(spi_send(true, fmt))
    }
}

} // verus!
