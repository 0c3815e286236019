//! SPI protocol and register access.
//!
//! A transaction is a header of two bytes and one to eight data bytes. Bit 15 of the header is set
//! for a write, bits 14 to 12 are the byte count minus one, bits 9 to 0 are the address. Addresses
//! count down from there.
use vstd::arithmetic::power::{lemma_pow0, pow};
use vstd::prelude::*;

use crate::engine::{flow, Engine, Reply};
use crate::link::{error_of, exchange, put, update, BusFault, Fault, Link, Op, Request, Trace};
use crate::math::flag;

verus! {

/// Highest register address.
pub const MAX_ADDRESS: u16 = 0x3FF;

/// Most bytes of a transaction.
pub const MAX_BYTES: u8 = 8;

/// Header of a transaction.
#[derive(Debug, Clone, Copy, PartialEq, Eq, Structural)]
pub struct Header {
    pub high: u8,
    pub low: u8,
}

/// Header for `len` bytes from `addr` on.
#[verifier::allow_in_spec]
pub fn header(write: bool, addr: u16, len: u8) -> Header
    requires
        addr <= MAX_ADDRESS,
        1 <= len <= MAX_BYTES,
    returns
        (Header {
            high: flag(write, 0x80) | (((len - 1) as u8) << 4) | ((addr >> 8) & 0x3) as u8,
            low: (addr & 0xFF) as u8,
        }),
{
    Header {
        high: flag(write, 0x80) | ((len - 1) << 4) | ((addr >> 8) & 0x3) as u8,
        low: (addr & 0xFF) as u8,
    }
}

impl Header {
    /// Whether it announces a write.
    pub open spec fn is_write(self) -> bool {
        self.high & 0x80 != 0
    }

    /// Bytes it announces.
    pub open spec fn count(self) -> int {
        ((self.high >> 4) & 0x7) + 1
    }

    /// Address of the first byte.
    pub open spec fn address(self) -> int {
        (self.high & 0x3) * 256 + self.low
    }
}

/// A header says what it was made for, and headers for different transactions differ.
pub proof fn law_header_reads_back(write: bool, addr: u16, len: u8)
    requires
        addr <= MAX_ADDRESS,
        1 <= len <= MAX_BYTES,
    ensures
        header(write, addr, len).is_write() == write,
        header(write, addr, len).count() == len,
        header(write, addr, len).address() == addr,
{
    let top: u8 = flag(write, 0x80);
    let count = (len - 1) as u8;
    let page = ((addr >> 8) & 0x3) as u8;
    let low = (addr & 0xFF) as u8;
    let high = top | (count << 4) | page;
    assert(page <= 3 && page * 256 + low == addr) by (bit_vector)
        requires
            addr <= 0x3FF,
            page == ((addr >> 8) & 0x3) as u8,
            low == (addr & 0xFF) as u8,
    ;
    assert((high & 0x80 != 0) == (top == 0x80) && (high >> 4) & 0x7 == count && high & 0x3 == page)
        by (bit_vector)
        requires
            high == top | (count << 4) | page,
            top == 0 || top == 0x80,
            count <= 7,
            page <= 3,
    ;
}

/// The number that bytes stand for, most significant one first.
pub open spec fn word_of(bytes: Seq<u8>) -> nat
    decreases bytes.len(),
{
    if bytes.len() == 0 {
        0
    } else {
        word_of(bytes.drop_last()) * 256 + bytes.last() as nat
    }
}

/// The lowest `len` bytes of a number, most significant one first.
pub open spec fn bytes_of(data: nat, len: nat) -> Seq<u8>
    decreases len,
{
    if len == 0 {
        Seq::empty()
    } else {
        bytes_of(data / 256, (len - 1) as nat).push((data % 256) as u8)
    }
}

/// A number is its bytes, and bytes are the number they stand for.
pub proof fn law_bytes_read_back(bytes: Seq<u8>)
    ensures
        bytes_of(word_of(bytes), bytes.len()) == bytes,
    decreases bytes.len(),
{
    if bytes.len() > 0 {
        law_bytes_read_back(bytes.drop_last());
        assert((word_of(bytes.drop_last()) * 256 + bytes.last() as nat) / 256 == word_of(
            bytes.drop_last(),
        ));
        assert(bytes.drop_last().push(bytes.last()) =~= bytes);
    } else {
        assert(bytes =~= Seq::empty());
    }
}

/// A number that fits into `len` bytes is what its bytes stand for.
pub proof fn law_word_reads_back(data: nat, len: nat)
    requires
        data < pow(256, len),
    ensures
        word_of(bytes_of(data, len)) == data,
        bytes_of(data, len).len() == len,
    decreases len,
{
    lemma_pow0(256);
    if len > 0 {
        let rest = (len - 1) as nat;
        lemma_pow_step(256, len);
        assert(data / 256 < pow(256, rest)) by (nonlinear_arith)
            requires
                data < 256 * pow(256, rest),
        ;
        law_word_reads_back(data / 256, rest);
        assert(bytes_of(data, len).drop_last() =~= bytes_of(data / 256, rest));
    }
}

/// Data bytes of a write, most significant one first.
pub fn encode(data: u64, len: u8) -> (bytes: Vec<u8>)
    requires
        len <= MAX_BYTES,
    ensures
        bytes@ == bytes_of(data as nat, len as nat),
    decreases len,
{
    if len == 0 {
        let bytes: Vec<u8> = Vec::new();
        assert(bytes@ =~= Seq::empty());
        bytes
    } else {
        let mut bytes = encode(data / 256, len - 1);
        bytes.push((data % 256) as u8);
        bytes
    }
}

/// The number that data bytes stand for.
pub fn decode(bytes: &[u8]) -> (data: u64)
    requires
        bytes@.len() <= MAX_BYTES,
    ensures
        data == word_of(bytes@),
{
    let mut data: u64 = 0;
    let mut i: usize = 0;
    assert(bytes@.take(0) =~= Seq::empty());
    while i < bytes.len()
        invariant
            i <= bytes@.len() <= 8,
            data == word_of(bytes@.take(i as int)),
        decreases bytes@.len() - i,
    {
        proof {
            assert(bytes@.take(i + 1).drop_last() =~= bytes@.take(i as int));
            lemma_word_bound(bytes@.take(i as int));
            lemma_pow256(i as nat);
        }
        data = data * 256 + bytes[i] as u64;
        i = i + 1;
    }
    assert(bytes@.take(i as int) =~= bytes@);
    data
}

pub(crate) proof fn lemma_word_bound(bytes: Seq<u8>)
    ensures
        word_of(bytes) < pow(256, bytes.len()),
    decreases bytes.len(),
{
    lemma_pow0(256);
    if bytes.len() > 0 {
        lemma_word_bound(bytes.drop_last());
        lemma_pow_step(256, bytes.len());
    }
}

proof fn lemma_pow_step(base: int, n: nat)
    requires
        n > 0,
    ensures
        pow(base, n) == base * pow(base, (n - 1) as nat),
{
    reveal(pow);
}

pub(crate) proof fn lemma_pow256(n: nat)
    requires
        n < 8,
    ensures
        0 < pow(256, n) <= 0x100_0000_0000_0000,
{
    reveal(pow);
    reveal_with_fuel(pow, 9);
}

/// Puts one request at the end of a conversation, whose answer doesn't matter.
pub open spec fn told(t: Trace, request: Request) -> (Trace, Option<BusFault>) {
    let (after, r) = exchange(t, request);
    (after, error_of(r))
}

/// Pulse reset.
pub open spec fn reset_pulse(t: Trace) -> (Trace, Option<BusFault>) {
    let (low, r1) = told(t, Request::Reset { high: false });
    if r1 is Some {
        (low, r1)
    } else {
        let (held, r2) = told(low, Request::Wait { micros: 1000 });
        if r2 is Some {
            (held, r2)
        } else {
            let (high, r3) = told(held, Request::Reset { high: true });
            if r3 is Some {
                (high, r3)
            } else {
                told(high, Request::Wait { micros: 1000 })
            }
        }
    }
}

/// Pulse reset.
pub fn reset(link: &mut Link) -> (r: Result<(), BusFault>)
    ensures
        (final(link)@, error_of(r)) == reset_pulse(old(link)@),
{
    link.exchange(Request::Reset { high: false })?;
    link.exchange(Request::Wait { micros: 1000 })?;
    link.exchange(Request::Reset { high: true })?;
    link.exchange(Request::Wait { micros: 1000 })?;
    Ok(())
}

impl<'a> Engine<'a> {
    /// Writes 1-8 bytes, addresses count down from `addr`.
    pub fn write_bytes(&mut self, data: &[u8], addr: u16) -> (r: Result<(), Fault>)
        requires
            1 <= data@.len() <= MAX_BYTES,
            addr <= MAX_ADDRESS,
        ensures
            flow(final(self)@, r) == old(self)@.run(
                [
                    Op::Burst { addr, len: data@.len() as u8, data: word_of(data@) as u64 },
                ]@,
            ),
    {
        let word: u64 = decode(data);
        self.run(&[Op::Burst { addr, len: data.len() as u8, data: word }])
    }

    /// Writes a register.
    pub fn write_reg(&mut self, addr: u16, value: u8) -> (r: Result<(), Fault>)
        ensures
            flow(final(self)@, r) == old(self)@.run([put(addr, value)]@),
    {
        self.run(&[put(addr, value)])
    }

    /// Reads 1-8 bytes, addresses count down from `addr`.
    pub fn read_bytes(&mut self, len: u8, addr: u16) -> (r: Result<Vec<u8>, Fault>)
        requires
            1 <= len <= MAX_BYTES,
            addr <= MAX_ADDRESS,
        ensures
            ({
                let word = old(self)@.read_word(addr, len);
                &&& final(self)@ == word.e
                &&& match word.r {
                    Ok(value) => r matches Ok(bytes) && bytes@ == bytes_of(
                        value as nat,
                        len as nat,
                    ),
                    Err(error) => r == Err::<Vec<u8>, Fault>(error),
                }
            }),
    {
        let word: u64 = self.read_word(addr, len)?;
        Ok(encode(word, len))
    }

    /// Reads a register.
    pub fn read_reg(&mut self, addr: u16) -> (r: Result<u8, Fault>)
        ensures
            (Reply { e: final(self)@, r }) == old(self)@.read(addr),
    {
        self.read(addr)
    }

    /// Read, change the bits under `mask`, write back.
    pub fn modify_reg(&mut self, addr: u16, mask: u8, value: u8) -> (r: Result<(), Fault>)
        ensures
            flow(final(self)@, r) == old(self)@.run([update(addr, mask, value)]@),
    {
        self.run(&[update(addr, mask, value)])
    }
}

} // verus!
