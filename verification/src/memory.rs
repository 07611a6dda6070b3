//! A flat 64 KiB memory: the simplest bus, used by test harnesses in place
//! of a full address-decoding bus.

use vstd::prelude::*;

use crate::cpu::Bus;


verus! {

/// 65536 bytes of plain RAM behind the [`Bus`] interface.
pub struct FlatMemory {
    pub bytes: Vec<u8>,
}

impl FlatMemory {
    /// A memory of 65536 zero bytes.
    pub fn new() -> (m: FlatMemory)
        ensures
            m.wf(),
            forall|a: int| 0 <= a < 0x10000 ==> m.mem()[a] == 0u8,
    {
        let mut bytes: Vec<u8> = Vec::new();
        let mut i: usize = 0;
        while i < 0x10000
            invariant
                bytes@.len() == i,
                i <= 0x10000,
                forall|j: int| 0 <= j < i ==> bytes@[j] == 0u8,
            decreases 0x10000 - i,
        {
            bytes.push(0);
            i = i + 1;
        }
        FlatMemory { bytes }
    }
}

impl Bus for FlatMemory {
    open spec fn mem(&self) -> Seq<u8> {
        self.bytes@
    }

    open spec fn wf(&self) -> bool {
        self.bytes@.len() == 0x10000
    }

    fn read_u8(&mut self, address: u16) -> (data: u8) {
        self.bytes[address as usize]
    }

    fn write_u8(&mut self, address: u16, data: u8) {
        self.bytes.set(address as usize, data);
    }
}

} // verus!
