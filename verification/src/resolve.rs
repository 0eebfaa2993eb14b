//! Named steps of instruction-relative address resolution.
//!
//! The executable embeds the addresses of its globals as 32-bit
//! displacements relative to the instruction that follows them.  Each step
//! here decodes one such displacement out of the captured image and turns
//! it into an absolute address, failing when the displacement cannot be
//! read or the arithmetic leaves the 64-bit address space.

use vstd::prelude::*;

use crate::image::MemoryImage;
use crate::image::spec_read_i32;
use crate::image::spec_read_u8;
use crate::pattern::Pattern;
use crate::pattern::first_match;

verus! {

/// `a + off` as a 64-bit address, or failure when it falls outside the
/// address space.
pub open spec fn spec_addr_add(a: u64, off: int) -> Option<u64> {
    if 0 <= a + off <= u64::MAX {
        Some((a + off) as u64)
    } else {
        None
    }
}

/// Decode a 32-bit relative displacement at `at`: the target is the
/// address just past the displacement field, plus the displacement, plus
/// `extra`.
pub open spec fn spec_rel32(img: MemoryImage, at: u64, extra: int) -> Option<u64> {
    match spec_read_i32(img, at) {
        Some(d) => spec_addr_add(at, 4 + d + extra),
        None => None,
    }
}

/// Decode an 8-bit forward displacement at `at`, as left by a short jump:
/// the target is the address just past a 4-byte field at `at`, plus the
/// byte's value.
pub open spec fn spec_rel8(img: MemoryImage, at: u64) -> Option<u64> {
    match spec_read_u8(img, at) {
        Some(d) => spec_addr_add(at, 4 + d),
        None => None,
    }
}

/// Read a 32-bit module-relative offset at `at` and rebase it onto the
/// image's load base, plus `extra`.
pub open spec fn spec_disp_abs(img: MemoryImage, at: u64, extra: int) -> Option<u64> {
    match spec_read_i32(img, at) {
        Some(d) => spec_addr_add(img.base, d + extra),
        None => None,
    }
}

/// One two-or-three step pointer chain, shared by the title adapters:
/// either a fixed offset from an already-resolved `lea` anchor (when
/// `o1 == 0`), or a module-relative slot read at `ptr + o1`, rebased with
/// `o2`, then followed either by a second rebase (`absolute`) or by a
/// relative-displacement decode, with final offset `o3`.
pub open spec fn spec_pointer_path(
    img: MemoryImage,
    ptr: u64,
    lea: u64,
    o1: u64,
    o2: int,
    o3: int,
    absolute: bool,
) -> Option<u64> {
    if o1 == 0 {
        spec_addr_add(lea, o3)
    } else {
        match spec_addr_add(ptr, o1 as int) {
            Some(p1) => match spec_disp_abs(img, p1, o2) {
                Some(t2) => if absolute {
                    spec_disp_abs(img, t2, o3)
                } else {
                    spec_rel32(img, t2, o3)
                },
                None => None,
            },
            None => None,
        }
    }
}

/// The absolute address `k` bytes past the first match of `sig` in the
/// image, or failure when the pattern does not occur (or the sum leaves
/// the address space).
pub open spec fn spec_scan_at(img: MemoryImage, sig: Seq<i16>, k: int) -> Option<u64> {
    match first_match(img.bytes@, sig) {
        Some(m) => spec_addr_add(img.base, m + k),
        None => None,
    }
}

/// Add a signed offset to an address, failing outside the address space.
pub fn addr_add(a: u64, off: i64) -> (r: Option<u64>)
    ensures
        r == spec_addr_add(a, off as int),
{
    if off >= 0 {
        let o = off as u64;
        if a <= u64::MAX - o {
            Some(a + o)
        } else {
            None
        }
    } else {
        let o = (-(off + 1)) as u64 + 1;
        if a >= o {
            Some(a - o)
        } else {
            None
        }
    }
}

/// Add an unsigned offset to an address, failing outside the address
/// space.
pub fn addr_add_u(a: u64, off: u64) -> (r: Option<u64>)
    ensures
        r == spec_addr_add(a, off as int),
{
    if a <= u64::MAX - off {
        Some(a + off)
    } else {
        None
    }
}

/// Executable form of [`spec_scan_at`].
pub(crate) fn scan_at(img: &MemoryImage, sig: &Pattern, k: u64) -> (r: Option<u64>)
    ensures
        r == spec_scan_at(*img, sig@, k as int),
{
    match sig.scan(image_bytes(img)) {
        Some(m) => match addr_add_u(img.base, m as u64) {
            Some(x) => addr_add_u(x, k),
            None => None,
        },
        None => None,
    }
}

/// The image bytes as a slice.
fn image_bytes(img: &MemoryImage) -> (r: &[u8])
    ensures
        r@ == img.bytes@,
{
    img.bytes.as_slice()
}

/// Executable form of [`spec_rel32`].
pub(crate) fn rel32(img: &MemoryImage, at: u64, extra: i64) -> (r: Option<u64>)
    requires
        -0x1_0000_0000 <= extra <= 0x1_0000_0000,
    ensures
        r == spec_rel32(*img, at, extra as int),
{
    match img.read_i32(at) {
        Some(d) => addr_add(at, 4 + d + extra),
        None => None,
    }
}

/// Executable form of [`spec_rel8`].
pub(crate) fn rel8(img: &MemoryImage, at: u64) -> (r: Option<u64>)
    ensures
        r == spec_rel8(*img, at),
{
    match img.read_u8(at) {
        Some(d) => addr_add(at, 4 + d as i64),
        None => None,
    }
}

/// Executable form of [`spec_disp_abs`].
pub(crate) fn disp_abs(img: &MemoryImage, at: u64, extra: i64) -> (r: Option<u64>)
    requires
        -0x1_0000_0000 <= extra <= 0x1_0000_0000,
    ensures
        r == spec_disp_abs(*img, at, extra as int),
{
    match img.read_i32(at) {
        Some(d) => addr_add(img.base, d + extra),
        None => None,
    }
}

/// Executable form of [`spec_pointer_path`].
pub(crate) fn pointer_path(
    img: &MemoryImage,
    ptr: u64,
    lea: u64,
    o1: u64,
    o2: i64,
    o3: i64,
    absolute: bool,
) -> (r: Option<u64>)
    requires
        -0x1_0000_0000 <= o2 <= 0x1_0000_0000,
        -0x1_0000_0000 <= o3 <= 0x1_0000_0000,
        o1 <= 0x7fff_ffff_ffff_ffff,
    ensures
        r == spec_pointer_path(*img, ptr, lea, o1, o2 as int, o3 as int, absolute),
{
    if o1 == 0 {
        addr_add(lea, o3)
    } else {
        match addr_add(ptr, o1 as i64) {
            Some(p1) => match disp_abs(img, p1, o2) {
                Some(t2) => if absolute {
                    disp_abs(img, t2, o3)
                } else {
                    rel32(img, t2, o3)
                },
                None => None,
            },
            None => None,
        }
    }
}

} // verus!
