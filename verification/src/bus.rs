//! Bus transactions and payload chunking.
//!
//! A transport adapter does not touch hardware itself: it turns a payload
//! into a sequence of [`BusOp`] values, each one bus transaction (or one
//! control-pin change).  The integrator performs them, in order, on the real
//! bus; a failed transaction aborts the remainder of the sequence.

use vstd::prelude::*;

verus! {

/// One action on the bus or on a control pin.
#[derive(Clone, Debug, PartialEq, Eq)]
pub enum BusOp {
    /// One I2C write transaction to the given device address.
    /// The first byte is the control byte (command/data prefix).
    I2cWrite { addr: u8, bytes: Vec<u8> },
    /// One SPI write transaction.
    SpiWrite { bytes: Vec<u8> },
    /// Set the data/command line (low selects commands, high selects data).
    DataCommandPin { high: bool },
    /// Set the chip-select line (low asserts, high releases).
    ChipSelectPin { high: bool },
}

/// The mathematical value of a [`BusOp`].
pub enum BusOpModel {
    /// One I2C write transaction.
    I2cWrite { addr: u8, bytes: Seq<u8> },
    /// One SPI write transaction.
    SpiWrite { bytes: Seq<u8> },
    /// A data/command line change.
    DataCommandPin { high: bool },
    /// A chip-select line change.
    ChipSelectPin { high: bool },
}

impl View for BusOp {
    type V = BusOpModel;

    open spec fn view(&self) -> BusOpModel {
        match self {
            BusOp::I2cWrite { addr, bytes } => BusOpModel::I2cWrite {
                addr: *addr,
                bytes: bytes@,
            },
            BusOp::SpiWrite { bytes } => BusOpModel::SpiWrite { bytes: bytes@ },
            BusOp::DataCommandPin { high } => BusOpModel::DataCommandPin { high: *high },
            BusOp::ChipSelectPin { high } => BusOpModel::ChipSelectPin { high: *high },
        }
    }
}

impl DeepView for BusOp {
    type V = BusOpModel;

    open spec fn deep_view(&self) -> BusOpModel {
        self.view()
    }
}

/// Splits a byte sequence into chunks of at most `k` bytes; every chunk but
/// the last is exactly `k` bytes long, and an empty sequence has no chunks.
pub open spec fn chunks_of(bytes: Seq<u8>, k: int) -> Seq<Seq<u8>>
    decreases bytes.len(),
{
    if k < 1 || bytes.len() == 0 {
        seq![]
    } else if bytes.len() <= k {
        seq![bytes]
    } else {
        seq![bytes.take(k)] + chunks_of(bytes.skip(k), k)
    }
}

/// The chunks of a sequence concatenate back to the sequence itself.
pub proof fn lemma_chunks_of_concat(bytes: Seq<u8>, k: int)
    requires
        k >= 1,
    ensures
        chunks_of(bytes, k).flatten() == bytes,
    decreases bytes.len(),
{
    if bytes.len() == 0 {
        assert(chunks_of(bytes, k).flatten() =~= bytes);
    } else if bytes.len() <= k {
        assert(chunks_of(bytes, k) =~= seq![bytes]);
        seq![bytes].lemma_flatten_one_element();
    } else {
        lemma_chunks_of_concat(bytes.skip(k), k);
        let head = seq![bytes.take(k)];
        assert(chunks_of(bytes, k) =~= head + chunks_of(bytes.skip(k), k));
        vstd::seq_lib::lemma_flatten_concat(head, chunks_of(bytes.skip(k), k));
        head.lemma_flatten_one_element();
        assert(bytes.take(k) + bytes.skip(k) =~= bytes);
    }
}

/// The low byte of a 16-bit word.
pub open spec fn low_byte(w: u16) -> u8 {
    (w & 0xff) as u8
}

/// The high byte of a 16-bit word.
pub open spec fn high_byte(w: u16) -> u8 {
    (w >> 8) as u8
}

/// The little-endian byte serialization of a word sequence.
pub open spec fn le_bytes_of(words: Seq<u16>) -> Seq<u8> {
    Seq::new(
        2 * words.len(),
        |i: int| if i % 2 == 0 { low_byte(words[i / 2]) } else { high_byte(words[i / 2]) },
    )
}

/// The big-endian byte serialization of a word sequence.
pub open spec fn be_bytes_of(words: Seq<u16>) -> Seq<u8> {
    Seq::new(
        2 * words.len(),
        |i: int| if i % 2 == 0 { high_byte(words[i / 2]) } else { low_byte(words[i / 2]) },
    )
}

/// Serializes words in little-endian byte order.
pub fn words_to_le_bytes(words: &[u16]) -> (r: Vec<u8>)
    ensures
        r@ == le_bytes_of(words@),
{
    let mut out: Vec<u8> = Vec::new();
    let n = words.len();
    let mut i: usize = 0;
    while i < n
        invariant
            i <= n,
            n == words@.len(),
            out@ == le_bytes_of(words@.take(i as int)),
        decreases n - i,
    {
        let w = words[i];
        out.push((w & 0xff) as u8);
        out.push((w >> 8) as u8);
        i = i + 1;
        assert(out@ =~= le_bytes_of(words@.take(i as int)));
    }
    assert(words@.take(n as int) =~= words@);
    out
}

/// Serializes words in big-endian byte order.
pub fn words_to_be_bytes(words: &[u16]) -> (r: Vec<u8>)
    ensures
        r@ == be_bytes_of(words@),
{
    let mut out: Vec<u8> = Vec::new();
    let n = words.len();
    let mut i: usize = 0;
    while i < n
        invariant
            i <= n,
            n == words@.len(),
            out@ == be_bytes_of(words@.take(i as int)),
        decreases n - i,
    {
        let w = words[i];
        out.push((w >> 8) as u8);
        out.push((w & 0xff) as u8);
        i = i + 1;
        assert(out@ =~= be_bytes_of(words@.take(i as int)));
    }
    assert(words@.take(n as int) =~= words@);
    out
}

/// Appends `src[from..to]` to `dst`.
pub fn push_range(dst: &mut Vec<u8>, src: &[u8], from: usize, to: usize)
    requires
        from <= to <= src@.len(),
    ensures
        final(dst)@ == old(dst)@ + src@.subrange(from as int, to as int),
{
    let mut i: usize = from;
    while i < to
        invariant
            from <= i <= to <= src@.len(),
            dst@ == old(dst)@ + src@.subrange(from as int, i as int),
        decreases to - i,
    {
        let b = src[i];
        dst.push(b);
        i = i + 1;
        assert(dst@ =~= old(dst)@ + src@.subrange(from as int, i as int));
    }
}

/// Relies on `byte_slice_cast::AsByteSlice::as_byte_slice` for `[u16]`: the
/// result is the bitwise content of the words, so on any one machine it is
/// either the little-endian or the big-endian serialization, uniformly.
#[verifier::external_body]
pub fn words_to_native_bytes(words: &[u16]) -> (r: Vec<u8>)
    ensures
        r@ == le_bytes_of(words@) || r@ == be_bytes_of(words@),
{
    byte_slice_cast::AsByteSlice::as_byte_slice(words).to_vec()
}

} // verus!
