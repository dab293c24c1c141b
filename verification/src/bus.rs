//! The address-space router: maps each 16-bit address to the one device that
//! owns it and forwards reads and writes.
use vstd::prelude::*;

use crate::EmuError;
use crate::apu::Apu;
use crate::apu::spec_apu_write;
use crate::ppu::Ppu;

verus! {

/// The fixed boot program: 48 opcode bytes occupying addresses
/// 0x0000..=0x002F, read-only, present from construction on.
pub open spec fn boot_rom_seq() -> Seq<u8> {
    seq![
        0x31u8, 0xFE, 0xFF, 0xAF, 0x21, 0xFF, 0x9F, 0x32, 0xCB, 0x7C, 0x20, 0xFB, 0x21, 0x26,
        0xFF, 0x0E, 0x11, 0x3E, 0x80, 0x32, 0xE2, 0x0C, 0x3E, 0xF3, 0xE2, 0x32, 0x3E, 0x77,
        0x77, 0x3E, 0xFC, 0xE0, 0x47, 0x11, 0x04, 0x01, 0x21, 0x10, 0x80, 0x1A, 0xCD, 0x95,
        0x00, 0xCD, 0x96, 0x00, 0x13, 0x7B,
    ]
}

/// The boot program as an ordinary vector, for drivers and diagnostics.
pub fn boot_rom() -> (r: Vec<u8>)
    ensures
        r@ == boot_rom_seq(),
{
    let mut v: Vec<u8> = Vec::new();
    v.push(0x31);
    v.push(0xFE);
    v.push(0xFF);
    v.push(0xAF);
    v.push(0x21);
    v.push(0xFF);
    v.push(0x9F);
    v.push(0x32);
    v.push(0xCB);
    v.push(0x7C);
    v.push(0x20);
    v.push(0xFB);
    v.push(0x21);
    v.push(0x26);
    v.push(0xFF);
    v.push(0x0E);
    v.push(0x11);
    v.push(0x3E);
    v.push(0x80);
    v.push(0x32);
    v.push(0xE2);
    v.push(0x0C);
    v.push(0x3E);
    v.push(0xF3);
    v.push(0xE2);
    v.push(0x32);
    v.push(0x3E);
    v.push(0x77);
    v.push(0x77);
    v.push(0x3E);
    v.push(0xFC);
    v.push(0xE0);
    v.push(0x47);
    v.push(0x11);
    v.push(0x04);
    v.push(0x01);
    v.push(0x21);
    v.push(0x10);
    v.push(0x80);
    v.push(0x1A);
    v.push(0xCD);
    v.push(0x95);
    v.push(0x00);
    v.push(0xCD);
    v.push(0x96);
    v.push(0x00);
    v.push(0x13);
    v.push(0x7B);
    proof {
        assert(v@ =~= boot_rom_seq());
    }
    v
}

/// The router. It owns the two devices and the boot memory it routes to and
/// holds no other state.
pub struct Bus {
    pub apu: Apu,
    pub ppu: Ppu,
    pub boot: Vec<u8>,
}

/// The mathematical state behind a `Bus`: the audio registers, the video
/// control register and the video memory contents. The boot memory is fixed
/// and so carries no state of its own.
#[verifier::ext_equal]
pub ghost struct BusView {
    pub apu: Apu,
    pub control: u8,
    pub ram: Seq<u8>,
}

impl View for Bus {
    type V = BusView;

    open spec fn view(&self) -> BusView {
        BusView { apu: self.apu, control: self.ppu.control, ram: self.ppu.ram@ }
    }
}

/// Which byte a read of `address` returns, or the routing fault: boot memory
/// answers 0x0000..=0x002F, video memory answers 0x8000..=0x9FFF, and every
/// other address (the reserved tail of the boot region included) has no read
/// behavior.
pub open spec fn spec_bus_read(b: BusView, address: u16) -> Result<u8, EmuError> {
    if address < 0x30 {
        Ok(boot_rom_seq()[address as int])
    } else if 0x8000 <= address <= 0x9FFF {
        Ok(b.ram[address - 0x8000])
    } else {
        Err(EmuError::InvalidAddress(address))
    }
}

/// What a write of `value` to `address` does to the routed state, or the
/// routing fault when no device owns the address for writing.
pub open spec fn spec_bus_write(b: BusView, address: u16, value: u8) -> Result<
    BusView,
    EmuError,
> {
    if 0x8000 <= address <= 0x9FFF {
        Ok(BusView { ram: b.ram.update(address - 0x8000, value), ..b })
    } else if 0xFF10 <= address <= 0xFF3F {
        match spec_apu_write(b.apu, address, value) {
            Ok(a) => Ok(BusView { apu: a, ..b }),
            Err(e) => Err(e),
        }
    } else if 0xFF40 <= address <= 0xFF4B {
        if address == 0xFF40 {
            Ok(BusView { control: value, ..b })
        } else {
            Err(EmuError::InvalidAddress(address))
        }
    } else {
        Err(EmuError::InvalidAddress(address))
    }
}

impl Bus {
    /// The router's invariant: the boot memory holds the fixed boot program
    /// and the video device is well formed.
    pub open spec fn wf(self) -> bool {
        &&& self.boot@ == boot_rom_seq()
        &&& self.ppu.wf()
    }

    /// A router over the given devices, with the boot program in place.
    pub fn new(apu: Apu, ppu: Ppu) -> (r: Bus)
        requires
            ppu.wf(),
        ensures
            r.wf(),
            r@ == (BusView { apu: apu, control: ppu.control, ram: ppu.ram@ }),
    {
        Bus { apu, ppu, boot: boot_rom() }
    }

    /// Resolves `address` to its owning device and forwards the read.
    pub fn read(&self, address: u16) -> (r: Result<u8, EmuError>)
        requires
            self.wf(),
        ensures
            r == spec_bus_read(self@, address),
    {
        if address < 0x30 {
            Ok(self.read_boot_rom(address))
        } else if 0x8000 <= address && address <= 0x9FFF {
            Ok(self.ppu.read(address - 0x8000))
        } else {
            Err(EmuError::InvalidAddress(address))
        }
    }

    /// Resolves `address` to its owning device and forwards the write.
    pub fn write(&mut self, address: u16, value: u8) -> (r: Result<(), EmuError>)
        requires
            old(self).wf(),
        ensures
            final(self).wf(),
            match spec_bus_write(old(self)@, address, value) {
                Ok(b) => r is Ok && final(self)@ == b,
                Err(e) => r == Err::<(), EmuError>(e) && final(self)@ == old(self)@,
            },
    {
        let r = if 0x8000 <= address && address <= 0x9FFF {
            self.ppu.write(address, value)
        } else if 0xFF10 <= address && address <= 0xFF3F {
            self.apu.write(address, value)
        } else if 0xFF40 <= address && address <= 0xFF4B {
            self.ppu.write(address, value)
        } else {
            Err(EmuError::InvalidAddress(address))
        };
        proof {
            match spec_bus_write(old(self)@, address, value) {
                Ok(b) => {
                    assert(self@ =~= b);
                },
                Err(_) => {
                    assert(self@ =~= old(self)@);
                },
            }
        }
        r
    }

    /// Returns the boot-program byte at `address`, which the router has
    /// already checked to lie in the mapped part of the boot region.
    pub fn read_boot_rom(&self, address: u16) -> (r: u8)
        requires
            self.wf(),
            address < 0x30,
        ensures
            r == boot_rom_seq()[address as int],
    {
        self.boot[address as usize]
    }
}

} // verus!
