//! A snapshot of the target executable's loaded image.
//!
//! Address resolution only ever dereferences constants that the compiler
//! embedded inside the module itself, so the whole resolution pass can run
//! against one copy of the image bytes taken right after attach.  Every
//! read is bounds-checked against the captured range; a read outside it
//! fails, which makes the enclosing resolution step fail.

use vstd::prelude::*;

verus! {

/// The loaded image of the target executable: its base address and a copy
/// of its bytes.
pub struct MemoryImage {
    pub base: u64,
    pub bytes: Vec<u8>,
}

/// Whether `addr` falls inside the captured image.
pub open spec fn spec_contains(img: MemoryImage, addr: u64) -> bool {
    img.base <= addr && addr - img.base < img.bytes@.len()
}

/// The byte of the image at absolute address `addr`, if the image holds it.
pub open spec fn spec_read_u8(img: MemoryImage, addr: u64) -> Option<u8> {
    if spec_contains(img, addr) {
        Some(img.bytes@[addr - img.base])
    } else {
        None
    }
}

/// The little-endian 32-bit value b0 + 256*b1 + 65536*b2 + 16777216*b3.
pub open spec fn spec_le_u32(b0: u8, b1: u8, b2: u8, b3: u8) -> int {
    b0 + 0x100 * b1 + 0x1_0000 * b2 + 0x100_0000 * b3
}

/// The unsigned little-endian 32-bit word of the image at `addr`, if the
/// image holds all four of its bytes.
pub open spec fn spec_read_u32(img: MemoryImage, addr: u64) -> Option<u32> {
    if addr + 3 <= u64::MAX && spec_contains(img, addr) && spec_contains(img, (addr + 3) as u64) {
        Some(
            spec_le_u32(
                img.bytes@[addr - img.base],
                img.bytes@[addr + 1 - img.base],
                img.bytes@[addr + 2 - img.base],
                img.bytes@[addr + 3 - img.base],
            ) as u32,
        )
    } else {
        None
    }
}

/// The signed reading of an unsigned 32-bit value (two's complement).
pub open spec fn spec_signed32(v: u32) -> int {
    if v < 0x8000_0000 {
        v as int
    } else {
        v - 0x1_0000_0000
    }
}

/// The signed little-endian 32-bit word of the image at `addr`.
pub open spec fn spec_read_i32(img: MemoryImage, addr: u64) -> Option<int> {
    match spec_read_u32(img, addr) {
        Some(v) => Some(spec_signed32(v)),
        None => None,
    }
}

impl MemoryImage {
    /// Build an image snapshot from its base address and bytes.
    pub fn new(base: u64, bytes: Vec<u8>) -> (r: MemoryImage)
        ensures
            r.base == base,
            r.bytes == bytes,
    {
        MemoryImage { base, bytes }
    }

    /// Read one byte at an absolute address.
    pub fn read_u8(&self, addr: u64) -> (r: Option<u8>)
        ensures
            r == spec_read_u8(*self, addr),
    {
        if addr >= self.base {
            let off = addr - self.base;
            if off < self.bytes.len() as u64 {
                return Some(self.bytes[off as usize]);
            }
        }
        None
    }

    /// Read an unsigned little-endian 32-bit word at an absolute address.
    pub fn read_u32(&self, addr: u64) -> (r: Option<u32>)
        ensures
            r == spec_read_u32(*self, addr),
    {
        if addr <= u64::MAX - 3 && addr >= self.base {
            let off = addr - self.base;
            if off < self.bytes.len() as u64 && self.bytes.len() as u64 - off >= 4 {
                let i = off as usize;
                let b0 = self.bytes[i] as u32;
                let b1 = self.bytes[i + 1] as u32;
                let b2 = self.bytes[i + 2] as u32;
                let b3 = self.bytes[i + 3] as u32;
                return Some(b0 + 0x100 * b1 + 0x1_0000 * b2 + 0x100_0000 * b3);
            }
        }
        None
    }

    /// Read a signed little-endian 32-bit word at an absolute address.
    /// The value is returned as `i64`, which holds every 32-bit signed
    /// value exactly.
    pub fn read_i32(&self, addr: u64) -> (r: Option<i64>)
        ensures
            match r {
                Some(v) => spec_read_i32(*self, addr) == Some(v as int),
                None => spec_read_i32(*self, addr) is None,
            },
    {
        match self.read_u32(addr) {
            Some(v) => {
                if v < 0x8000_0000 {
                    Some(v as i64)
                } else {
                    Some((v as i64) - 0x1_0000_0000)
                }
            },
            None => None,
        }
    }
}

} // verus!
