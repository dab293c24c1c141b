//! The audio subsystem's write-only register bank.
use vstd::prelude::*;

use crate::EmuError;

verus! {

/// The audio device: a write-only bank of sound registers. Only the
/// registers the engine currently drives are modeled; a write to any other
/// address in the audio range is an `InvalidAddress` fault.
pub struct Apu {
    pub ch1_len_and_duty: u8,
    pub ch1_vol_envelope: u8,
    pub enabled: u8,
    pub pan: u8,
    pub volume: u8,
}

/// What a write to the audio register bank does: which register the address
/// selects and the value it ends up holding, or the fault when the address
/// selects none.
pub open spec fn spec_apu_write(a: Apu, address: u16, value: u8) -> Result<Apu, EmuError> {
    if address == 0xFF11 {
        Ok(Apu { ch1_len_and_duty: value, ..a })
    } else if address == 0xFF12 {
        Ok(Apu { ch1_vol_envelope: value, ..a })
    } else if address == 0xFF24 {
        Ok(Apu { volume: value, ..a })
    } else if address == 0xFF25 {
        Ok(Apu { pan: value, ..a })
    } else if address == 0xFF26 {
        Ok(Apu { enabled: value & 0x80, ..a })
    } else {
        Err(EmuError::InvalidAddress(address))
    }
}

impl Apu {
    /// A fresh audio device with every register cleared.
    pub fn new() -> (r: Apu)
        ensures
            r == (Apu {
                ch1_len_and_duty: 0,
                ch1_vol_envelope: 0,
                enabled: 0,
                pan: 0,
                volume: 0,
            }),
    {
        Apu { ch1_len_and_duty: 0, ch1_vol_envelope: 0, enabled: 0, pan: 0, volume: 0 }
    }

    /// Stores `value` into the register that `address` selects; the
    /// master-enable register keeps only its top bit. Fails with
    /// `InvalidAddress` on any unmodeled address, leaving the bank unchanged.
    pub fn write(&mut self, address: u16, value: u8) -> (r: Result<(), EmuError>)
        ensures
            match spec_apu_write(*old(self), address, value) {
                Ok(a) => r is Ok && *final(self) == a,
                Err(e) => r == Err::<(), EmuError>(e) && *final(self) == *old(self),
            },
    {
        match address {
            0xFF11 => {
                self.ch1_len_and_duty = value;
                Ok(())
            },
            0xFF12 => {
                self.ch1_vol_envelope = value;
                Ok(())
            },
            0xFF24 => {
                self.volume = value;
                Ok(())
            },
            0xFF25 => {
                self.pan = value;
                Ok(())
            },
            0xFF26 => {
                self.enabled = value & 0x80;
                Ok(())
            },
            _ => Err(EmuError::InvalidAddress(address)),
        }
    }
}

} // verus!
