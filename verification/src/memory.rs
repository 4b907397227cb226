//! A copy of a stretch of another process's memory, and the little-endian
//! decoding of the values the overlay reads out of it.
//!
//! Reading memory that is not held by the copy yields the type's default
//! value (zero), just as a failed read leaves the zeroed buffer untouched.
use vstd::prelude::*;
use crate::text::{c_string, c_string_bytes, c_string_text};
use vstd::utf8::{decode_utf8, encode_utf8, valid_utf8};

verus! {

/// The unsigned value of four little-endian bytes.
pub open spec fn le_u32(b0: u8, b1: u8, b2: u8, b3: u8) -> int {
    b0 + 256 * b1 + 65536 * b2 + 16777216 * b3
}

/// The two's-complement reading of a 32-bit pattern `u` (`0 <= u < 2^32`).
pub open spec fn signed32(u: int) -> int {
    if u >= 0x8000_0000 {
        u - 0x1_0000_0000
    } else {
        u
    }
}

/// The 32-bit pattern of a signed value.
pub open spec fn unsigned32(v: int) -> int {
    if v < 0 {
        v + 0x1_0000_0000
    } else {
        v
    }
}

/// Byte `k` (0 for the least significant) of the 32-bit pattern `u`.
pub open spec fn byte_of(u: int, k: int) -> u8 {
    if k == 0 {
        (u % 256) as u8
    } else if k == 1 {
        ((u / 256) % 256) as u8
    } else if k == 2 {
        ((u / 65536) % 256) as u8
    } else {
        ((u / 16777216) % 256) as u8
    }
}

/// The four little-endian bytes that hold the signed value `v`.
pub open spec fn i32_le_bytes(v: i32) -> Seq<u8> {
    let u = unsigned32(v as int);
    seq![byte_of(u, 0), byte_of(u, 1), byte_of(u, 2), byte_of(u, 3)]
}

/// A copy of `bytes.len()` bytes of process memory starting at `start`.
pub struct MemorySnapshot {
    pub start: usize,
    pub bytes: Vec<u8>,
}

/// A value to be stored, as bytes, at an address of process memory.
pub struct MemoryWrite {
    pub address: usize,
    pub bytes: Vec<u8>,
}

impl MemorySnapshot {
    /// Whether the `len` bytes at `address` all lie inside the copy.
    pub open spec fn covers(&self, address: int, len: int) -> bool {
        &&& self.start <= address
        &&& 0 <= len
        &&& address + len <= self.start + self.bytes@.len()
    }

    /// The `len` bytes at `address`, taken from the copy.
    pub open spec fn window(&self, address: int, len: int) -> Seq<u8> {
        self.bytes@.subrange(address - self.start, address - self.start + len)
    }

    /// The byte at `address` (inside the copy).
    pub open spec fn byte_at(&self, address: int) -> u8 {
        self.bytes@[address - self.start]
    }

    /// What a read of a `u32` at `address` yields.
    pub open spec fn spec_read_u32(&self, address: int) -> u32 {
        if self.covers(address, 4) {
            le_u32(
                self.byte_at(address),
                self.byte_at(address + 1),
                self.byte_at(address + 2),
                self.byte_at(address + 3),
            ) as u32
        } else {
            0
        }
    }

    /// What a read of an `i32` at `address` yields.
    pub open spec fn spec_read_i32(&self, address: int) -> i32 {
        if self.covers(address, 4) {
            signed32(
                le_u32(
                    self.byte_at(address),
                    self.byte_at(address + 1),
                    self.byte_at(address + 2),
                    self.byte_at(address + 3),
                ),
            ) as i32
        } else {
            0
        }
    }

    /// What a read of `len` raw bytes at `address` yields: the bytes, or
    /// zeros where the copy does not hold all of them.
    pub open spec fn spec_read_bytes(&self, address: int, len: nat) -> Seq<u8> {
        if self.covers(address, len as int) {
            self.window(address, len as int)
        } else {
            Seq::new(len, |i: int| 0u8)
        }
    }

    /// Makes a copy of `bytes` read at `start`.
    pub fn new(start: usize, bytes: Vec<u8>) -> (snapshot: Self)
        ensures
            snapshot.start == start,
            snapshot.bytes@ == bytes@,
    {
        MemorySnapshot { start, bytes }
    }

    /// Whether the `len` bytes at `address` lie inside the copy.
    pub fn holds(&self, address: usize, len: usize) -> (held: bool)
        ensures
            held == self.covers(address as int, len as int),
    {
        if address < self.start {
            false
        } else {
            let offset = address - self.start;
            offset <= self.bytes.len() && len <= self.bytes.len() - offset
        }
    }

    /// Reads a little-endian `u32` at `address`; 0 where the copy does not
    /// hold all four bytes.
    pub fn read_u32(&self, address: usize) -> (value: u32)
        ensures
            value == self.spec_read_u32(address as int),
    {
        if self.holds(address, 4) {
            let i = address - self.start;
            let n = self.bytes.len();
            assert(i + 4 <= n);
            let b0 = self.bytes[i] as u32;
            let b1 = self.bytes[i + 1] as u32;
            let b2 = self.bytes[i + 2] as u32;
            let b3 = self.bytes[i + 3] as u32;
            b0 + 256 * b1 + 65536 * b2 + 16777216 * b3
        } else {
            0
        }
    }

    /// Reads a little-endian two's-complement `i32` at `address`; 0 where
    /// the copy does not hold all four bytes.
    pub fn read_i32(&self, address: usize) -> (value: i32)
        ensures
            value == self.spec_read_i32(address as int),
    {
        let u = self.read_u32(address);
        if u >= 0x8000_0000 {
            let low = (u - 0x8000_0000) as i32;
            low + i32::MIN
        } else {
            u as i32
        }
    }

    /// Reads `len` raw bytes at `address`; all zeros where the copy does not
    /// hold every one of them.
    pub fn read_bytes(&self, address: usize, len: usize) -> (out: Vec<u8>)
        ensures
            out@ == self.spec_read_bytes(address as int, len as nat),
    {
        let mut out: Vec<u8> = Vec::new();
        if self.holds(address, len) {
            let first = address - self.start;
            let n = self.bytes.len();
            let mut k: usize = 0;
            while k < len
                invariant
                    n == self.bytes@.len(),
                    self.covers(address as int, len as int),
                    first == address - self.start,
                    k <= len,
                    out@ == self.bytes@.subrange(first as int, first + k),
                decreases len - k,
            {
                assert(first + k < n);
                out.push(self.bytes[first + k]);
                k = k + 1;
            }
        } else {
            let mut k: usize = 0;
            while k < len
                invariant
                    k <= len,
                    out@ == Seq::new(k as nat, |i: int| 0u8),
                decreases len - k,
            {
                out.push(0u8);
                k = k + 1;
            }
        }
        out
    }
}

impl MemorySnapshot {
    /// Reads a NUL-terminated string of at most `max_len` bytes at
    /// `address`: the bytes before the first NUL, decoded leniently as
    /// UTF-8. Where the copy does not hold all `max_len` bytes the buffer
    /// stays zeroed and the string is empty.
    pub fn read_string(&self, address: usize, max_len: usize) -> (text: String)
        ensures
            text@ == c_string_text(self.spec_read_bytes(address as int, max_len as nat)),
            valid_utf8(c_string_bytes(self.spec_read_bytes(address as int, max_len as nat)))
                ==> text@ == decode_utf8(c_string_bytes(self.spec_read_bytes(address as int, max_len as nat)))
                && encode_utf8(text@) == c_string_bytes(self.spec_read_bytes(address as int, max_len as nat)),
            text@.len() <= max_len,
            encode_utf8(text@).len() <= 3 * max_len,
            forall|j: int| 0 <= j < text@.len() ==> text@[j] != '\0',
    {
        let buffer = self.read_bytes(address, max_len);
        c_string(buffer.as_slice())
    }
}

/// The bytes that a write of the signed value `value` stores: its
/// two's-complement pattern, least significant byte first.
pub fn i32_to_le_bytes(value: i32) -> (bytes: Vec<u8>)
    ensures
        bytes@ == i32_le_bytes(value),
{
    let u: u32 = if value < 0 {
        ((value - i32::MIN) as u32) + 0x8000_0000
    } else {
        value as u32
    };
    let mut bytes: Vec<u8> = Vec::new();
    bytes.push((u % 256) as u8);
    bytes.push(((u / 256) % 256) as u8);
    bytes.push(((u / 65536) % 256) as u8);
    bytes.push(((u / 16777216) % 256) as u8);
    bytes
}

/// A write of the signed value `value` at `address`.
pub fn i32_write(address: usize, value: i32) -> (write: MemoryWrite)
    ensures
        write.address == address,
        write.bytes@ == i32_le_bytes(value),
{
    MemoryWrite { address, bytes: i32_to_le_bytes(value) }
}

/// Reading back what a write of an `i32` stored gives the value written:
/// any copy that holds, at `address`, the four bytes `i32_le_bytes(value)`
/// reads as `value` there, whatever else it holds around them.
pub proof fn lemma_write_then_read_i32(address: usize, value: i32, snapshot: MemorySnapshot)
    requires
        snapshot.covers(address as int, 4),
        snapshot.window(address as int, 4) == i32_le_bytes(value),
    ensures
        snapshot.spec_read_i32(address as int) == value,
{
    let u = unsigned32(value as int);
    assert(0 <= u < 0x1_0000_0000);
    let w = snapshot.window(address as int, 4);
    assert(snapshot.byte_at(address as int) == w[0]);
    assert(snapshot.byte_at(address + 1) == w[1]);
    assert(snapshot.byte_at(address + 2) == w[2]);
    assert(snapshot.byte_at(address + 3) == w[3]);
    assert(le_u32(byte_of(u, 0), byte_of(u, 1), byte_of(u, 2), byte_of(u, 3)) == u) by (nonlinear_arith)
        requires
            0 <= u < 0x1_0000_0000,
    {
        assert(u == u % 256 + 256 * ((u / 256) % 256) + 65536 * ((u / 65536) % 256) + 16777216 * (u / 16777216)) by (nonlinear_arith)
            requires 0 <= u,
        {}
    }
}

/// Reading back raw bytes that a write stored gives those bytes, bit for
/// bit: any copy that holds `write.bytes` at `write.address` reads them back
/// there, whatever value they encode.
pub proof fn lemma_write_then_read_bytes(write: MemoryWrite, snapshot: MemorySnapshot)
    requires
        snapshot.covers(write.address as int, write.bytes@.len() as int),
        snapshot.window(write.address as int, write.bytes@.len() as int) == write.bytes@,
    ensures
        snapshot.spec_read_bytes(write.address as int, write.bytes@.len()) == write.bytes@,
{
}

/// A read of a `u32` is the unsigned little-endian value of the four bytes
/// at the address when the copy holds them all, each byte counted from 0 to
/// 255, and 0 otherwise.
pub proof fn lemma_read_u32_value(snapshot: MemorySnapshot, address: int)
    ensures
        ({
            let k = address - snapshot.start;
            let held = snapshot.start <= address && address + 4 <= snapshot.start + snapshot.bytes@.len();
            &&& held ==> snapshot.spec_read_u32(address) as int == snapshot.bytes@[k] + 256 * snapshot.bytes@[k + 1]
                + 65536 * snapshot.bytes@[k + 2] + 16777216 * snapshot.bytes@[k + 3]
            &&& !held ==> snapshot.spec_read_u32(address) == 0
        }),
{
    let k = address - snapshot.start;
    if snapshot.covers(address, 4) {
        let (b0, b1, b2, b3) = (snapshot.bytes@[k], snapshot.bytes@[k + 1], snapshot.bytes@[k + 2], snapshot.bytes@[k + 3]);
        assert(0 <= b0 + 256 * b1 + 65536 * b2 + 16777216 * b3 < 0x1_0000_0000) by (nonlinear_arith)
            requires 0 <= b0 < 256, 0 <= b1 < 256, 0 <= b2 < 256, 0 <= b3 < 256;
    }
}

/// A read of an `i32` is the two's-complement reading of the unsigned
/// little-endian value of the four bytes at the address (that value less
/// 2^32 when it is 2^31 or more) when the copy holds them all, and 0
/// otherwise.
pub proof fn lemma_read_i32_value(snapshot: MemorySnapshot, address: int)
    ensures
        ({
            let k = address - snapshot.start;
            let held = snapshot.start <= address && address + 4 <= snapshot.start + snapshot.bytes@.len();
            let raw = snapshot.bytes@[k] + 256 * snapshot.bytes@[k + 1] + 65536 * snapshot.bytes@[k + 2]
                + 16777216 * snapshot.bytes@[k + 3];
            &&& held && raw < 0x8000_0000 ==> snapshot.spec_read_i32(address) as int == raw
            &&& held && raw >= 0x8000_0000 ==> snapshot.spec_read_i32(address) as int == raw - 0x1_0000_0000
            &&& !held ==> snapshot.spec_read_i32(address) == 0
        }),
{
    let k = address - snapshot.start;
    if snapshot.covers(address, 4) {
        let (b0, b1, b2, b3) = (snapshot.bytes@[k], snapshot.bytes@[k + 1], snapshot.bytes@[k + 2], snapshot.bytes@[k + 3]);
        assert(0 <= b0 + 256 * b1 + 65536 * b2 + 16777216 * b3 < 0x1_0000_0000) by (nonlinear_arith)
            requires 0 <= b0 < 256, 0 <= b1 < 256, 0 <= b2 < 256, 0 <= b3 < 256;
    }
}

/// Reading back a `u32` stored as its four little-endian bytes gives it
/// back: any copy that holds `u % 256`, `u / 256 % 256`, `u / 65536 % 256`
/// and `u / 16777216` at consecutive addresses from `address` reads `u` there.
pub proof fn lemma_write_then_read_u32(address: int, u: u32, snapshot: MemorySnapshot)
    requires
        snapshot.covers(address, 4),
        snapshot.byte_at(address) == u % 256,
        snapshot.byte_at(address + 1) == (u / 256) % 256,
        snapshot.byte_at(address + 2) == (u / 65536) % 256,
        snapshot.byte_at(address + 3) == u / 16777216,
    ensures
        snapshot.spec_read_u32(address) == u,
{
    let v = u as int;
    assert(v == v % 256 + 256 * ((v / 256) % 256) + 65536 * ((v / 65536) % 256) + 16777216 * (v / 16777216)) by (nonlinear_arith)
        requires 0 <= v < 0x1_0000_0000,
    {}
}

/// A read of raw bytes that the copy does not hold in full gives exactly
/// `len` zero bytes.
pub proof fn lemma_read_bytes_outside(snapshot: MemorySnapshot, address: int, len: nat)
    requires
        !snapshot.covers(address, len as int),
    ensures
        snapshot.spec_read_bytes(address, len).len() == len,
        forall|i: int| 0 <= i < len ==> snapshot.spec_read_bytes(address, len)[i] == 0,
{
}

} // verus!
