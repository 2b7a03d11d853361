//! What travels on the SPI bus: each exchange starts with an operation byte
//! (data write, status read, data read), and every byte crosses the bus with its
//! bit order reversed.
use vstd::prelude::*;
use crate::bits::{reverse_bit, reversed};

verus! {

/// Operation byte of a data write.
pub const SPI_DATAWRITE: u8 = 0x01;
/// Operation byte of a status read.
pub const SPI_STATREAD: u8 = 0x02;
/// Operation byte of a data read.
pub const SPI_DATAREAD: u8 = 0x03;
/// Status byte of a module that has a reply ready.
pub const SPI_READY: u8 = 0x01;

/// `s` with the bit order of every byte reversed: what the bus carries for `s`,
/// and what `s` is once a received buffer is corrected.
pub open spec fn wire(s: Seq<u8>) -> Seq<u8> {
    s.map_values(|b: u8| reversed(b))
}

/// The bytes of a data write carrying `data`.
pub open spec fn write_request(data: Seq<u8>) -> Seq<u8> {
    seq![SPI_DATAWRITE] + data
}

/// The bytes of a data read of `count` bytes: the operation byte, then a filler
/// byte for each byte to clock in.
pub open spec fn read_request(count: nat) -> Seq<u8> {
    seq![SPI_DATAREAD] + Seq::new(count, |i: int| 0u8)
}

/// The bytes of a status read.
pub open spec fn status_request() -> Seq<u8> {
    seq![SPI_STATREAD, 0x00u8]
}

/// What a data read returned, once the bit order of the received bytes `rx` is
/// corrected: all but the byte clocked in during the operation byte.
pub open spec fn read_reply(rx: Seq<u8>) -> Seq<u8> {
    if rx.len() == 0 {
        Seq::empty()
    } else {
        wire(rx).subrange(1, rx.len() as int)
    }
}

/// Whether the received bytes `rx` of a status read report a module that is ready.
pub open spec fn reports_ready(rx: Seq<u8>) -> bool {
    rx.len() >= 2 && reversed(rx[1]) == SPI_READY
}

/// Reverses the bit order of every byte of `buf`.
pub fn swap_bit_order(buf: &[u8]) -> (r: Vec<u8>)
    ensures
        r@ == wire(buf@),
{
    let mut out: Vec<u8> = Vec::new();
    let mut i: usize = 0;
    while i < buf.len()
        invariant
            i <= buf@.len(),
            out@ == wire(buf@.subrange(0, i as int)),
        decreases buf@.len() - i,
    {
        out.push(reverse_bit(buf[i]));
        i = i + 1;
        assert(out@ =~= wire(buf@.subrange(0, i as int)));
    }
    assert(buf@.subrange(0, buf@.len() as int) =~= buf@);
    out
}

/// The bus bytes of a data write carrying `data`.
pub fn write_transfer(data: &[u8]) -> (tx: Vec<u8>)
    ensures
        tx@ == wire(write_request(data@)),
{
    let mut req: Vec<u8> = Vec::new();
    req.push(SPI_DATAWRITE);
    let mut i: usize = 0;
    while i < data.len()
        invariant
            i <= data@.len(),
            req@ == seq![SPI_DATAWRITE] + data@.subrange(0, i as int),
        decreases data@.len() - i,
    {
        req.push(data[i]);
        i = i + 1;
        assert(req@ =~= seq![SPI_DATAWRITE] + data@.subrange(0, i as int));
    }
    assert(req@ =~= write_request(data@));
    swap_bit_order(req.as_slice())
}

/// The bus bytes of a data read of `count` bytes.
pub fn read_transfer(count: usize) -> (tx: Vec<u8>)
    requires
        count < usize::MAX,
    ensures
        tx@ == wire(read_request(count as nat)),
{
    let mut req: Vec<u8> = Vec::new();
    req.push(SPI_DATAREAD);
    let mut i: usize = 0;
    while i < count
        invariant
            i <= count,
            req@ == seq![SPI_DATAREAD] + Seq::new(i as nat, |k: int| 0u8),
        decreases count - i,
    {
        req.push(0x00);
        i = i + 1;
        assert(req@ =~= seq![SPI_DATAREAD] + Seq::new(i as nat, |k: int| 0u8));
    }
    swap_bit_order(req.as_slice())
}

/// The bus bytes of a status read.
pub fn status_transfer() -> (tx: Vec<u8>)
    ensures
        tx@ == wire(status_request()),
{
    let req: Vec<u8> = vec![SPI_STATREAD, 0x00];
    assert(req@ =~= status_request());
    swap_bit_order(req.as_slice())
}

/// The data that the received bytes `rx` of a data read carry.
pub fn reply_of(rx: &[u8]) -> (r: Vec<u8>)
    ensures
        r@ == read_reply(rx@),
{
    let corrected = swap_bit_order(rx);
    let mut out: Vec<u8> = Vec::new();
    if corrected.len() == 0 {
        return out;
    }
    let mut i: usize = 1;
    while i < corrected.len()
        invariant
            1 <= i <= corrected@.len(),
            corrected@ == wire(rx@),
            out@ == corrected@.subrange(1, i as int),
        decreases corrected@.len() - i,
    {
        out.push(corrected[i]);
        i = i + 1;
        assert(out@ =~= corrected@.subrange(1, i as int));
    }
    out
}

/// Whether the received bytes `rx` of a status read report a module that is ready.
pub fn is_ready(rx: &[u8]) -> (r: bool)
    ensures
        r == reports_ready(rx@),
{
    rx.len() >= 2 && reverse_bit(rx[1]) == SPI_READY
}

} // verus!
