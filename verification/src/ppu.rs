//! The video subsystem: display memory and its control register.
use vstd::prelude::*;

use crate::EmuError;

verus! {

/// The video device: 8 KiB of display memory plus a control register.
pub struct Ppu {
    pub control: u8,
    pub ram: Vec<u8>,
}

impl Ppu {
    /// The display memory always spans exactly 8 KiB.
    pub open spec fn wf(self) -> bool {
        self.ram@.len() == 0x2000
    }

    /// A fresh video device: control cleared and display memory zeroed.
    pub fn new() -> (r: Ppu)
        ensures
            r.wf(),
            r.control == 0,
            forall|i: int| 0 <= i < 0x2000 ==> r.ram@[i] == 0,
    {
        let mut ram: Vec<u8> = Vec::new();
        let mut i: usize = 0;
        while i < 0x2000
            invariant
                i <= 0x2000,
                ram@.len() == i,
                forall|j: int| 0 <= j < i ==> ram@[j] == 0,
            decreases 0x2000 - i,
        {
            ram.push(0);
            i = i + 1;
        }
        Ppu { control: 0, ram }
    }

    /// Returns the display-memory byte at `address`, an offset the router has
    /// already rebased into the device's own range.
    pub fn read(&self, address: u16) -> (r: u8)
        requires
            self.wf(),
            address < 0x2000,
        ensures
            r == self.ram@[address as int],
    {
        self.ram[address as usize]
    }

    /// Stores `value` into the control register or into display memory,
    /// depending on the (absolute) address; any other address is an
    /// `InvalidAddress` fault and leaves the device unchanged.
    pub fn write(&mut self, address: u16, value: u8) -> (r: Result<(), EmuError>)
        requires
            old(self).wf(),
        ensures
            final(self).wf(),
            address == 0xFF40 ==> r is Ok && final(self).control == value && final(self).ram@
                == old(self).ram@,
            0x8000 <= address <= 0x9FFF ==> r is Ok && final(self).control == old(self).control
                && final(self).ram@ == old(self).ram@.update(address - 0x8000, value),
            !(address == 0xFF40 || 0x8000 <= address <= 0x9FFF) ==> r == Err::<
                (),
                EmuError,
            >(EmuError::InvalidAddress(address)) && *final(self) == *old(self),
    {
        if address == 0xFF40 {
            self.control = value;
            Ok(())
        } else if 0x8000 <= address && address <= 0x9FFF {
            let idx: usize = (address - 0x8000) as usize;
            self.ram.set(idx, value);
            Ok(())
        } else {
            Err(EmuError::InvalidAddress(address))
        }
    }
}

} // verus!
