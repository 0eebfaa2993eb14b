//! Runtime type-name lookup used to classify the engine's high-level mode.
//!
//! A polymorphic engine object carries a pointer to its type information
//! just before its first field; following that pointer through a fixed
//! structural offset reaches a type-descriptor name.  The address
//! arithmetic of that walk and the classification of the recovered name
//! live here; the host performs the actual reads of the live process in
//! between the steps.

use vstd::prelude::*;

use vstd::string::StringSliceAdditionalSpecFns;

use crate::GameStatus;
use crate::resolve::addr_add;
use crate::resolve::spec_addr_add;

verus! {

/// Byte-wise equality of two slices.
pub fn bytes_eq(a: &[u8], b: &[u8]) -> (r: bool)
    ensures
        r == (a@ == b@),
{
    if a.len() != b.len() {
        return false;
    }
    let n = a.len();
    let mut i: usize = 0;
    while i < n
        invariant
            n == a@.len(),
            n == b@.len(),
            0 <= i <= n,
            forall|k: int| 0 <= k < i ==> a@[k] == b@[k],
        decreases n - i,
    {
        if a[i] != b[i] {
            return false;
        }
        i += 1;
    }
    proof {
        assert(a@ =~= b@);
    }
    true
}

/// The engine status a type-descriptor name denotes, if it names one of
/// the three known game-mode objects.
pub open spec fn spec_classify_name(n: Seq<u8>) -> Option<GameStatus> {
    if n == "GameModeMainMenu@game@app@@".spec_bytes() {
        Some(GameStatus::MainMenu)
    } else if n == "GameModeRetroEngine@game@app@@".spec_bytes() {
        Some(GameStatus::RetroEngine)
    } else if n == "GameModeGameGear@game@app@@".spec_bytes() {
        Some(GameStatus::GameGear)
    } else {
        None
    }
}

/// Classify a recovered type-descriptor name; any other name, including a
/// garbled one, yields no classification, so the previous one is kept.
pub fn classify_name(name: &[u8]) -> (r: Option<GameStatus>)
    ensures
        r == spec_classify_name(name@),
{
    if bytes_eq(name, "GameModeMainMenu@game@app@@".as_bytes()) {
        Some(GameStatus::MainMenu)
    } else if bytes_eq(name, "GameModeRetroEngine@game@app@@".as_bytes()) {
        Some(GameStatus::RetroEngine)
    } else if bytes_eq(name, "GameModeGameGear@game@app@@".as_bytes()) {
        Some(GameStatus::GameGear)
    } else {
        None
    }
}

/// Performs the pure steps of the type-name walk; the reads in between
/// are the host's.
pub struct Rtti {
    pub base_address: u64,
}

impl Rtti {
    /// Remember the image base the descriptor offsets are relative to.
    pub fn new(base_address: u64) -> (r: Rtti)
        ensures
            r.base_address == base_address,
    {
        Rtti { base_address }
    }

    /// Where an object's type-information pointer sits: just before the
    /// object's first field.
    pub fn type_info_slot(&self, object: u64) -> (r: Option<u64>)
        ensures
            r == spec_addr_add(object, -8),
    {
        addr_add(object, -8)
    }

    /// Where a type-information record keeps the module-relative offset
    /// of its descriptor.
    pub fn descriptor_slot(&self, type_info: u64) -> (r: Option<u64>)
        ensures
            r == spec_addr_add(type_info, 0xC),
    {
        addr_add(type_info, 0xC)
    }

    /// The absolute address of the descriptor's name, given the
    /// module-relative offset read out of the record.
    pub fn name_address(&self, descriptor_offset: u32) -> (r: Option<u64>)
        ensures
            r == spec_addr_add(self.base_address, descriptor_offset + 0x14),
    {
        addr_add(self.base_address, descriptor_offset as i64 + 0x14)
    }
}

} // verus!
