//! The system bus: the memory map of the machine, routing each access to
//! the BIOS, the work RAMs, the I/O registers, the picture processing unit
//! or the cartridge; and the cycle loop that drives display, interrupts
//! and processor together.
use vstd::prelude::*;

use crate::ppu::{PPU, PpuView, PPU_REGISTERS_END, le16, le32, le16_of, le32_of, region};
use crate::system::io::{IORegisters, IoView};
use crate::arm7tdmi::cpu::{CPU, CpuView, take_exception};
use crate::arm7tdmi::{can_decode, cpu_step, decode_defined, EExceptionType};
use crate::bits::{bit16, with_bit16};
use crate::ppu::{step_signals, step_status, step_vcount};
use crate::ppu::regs::PpuRegisters;

pub mod io;

verus! {

// Sizes
pub const EWRAM_SIZE: usize = 256 * 1024;
pub const IWRAM_SIZE: usize = 32 * 1024;
pub const BIOS_SIZE: usize = 0x4000;

pub const CARTRIDGE_ROM_SIZE: usize = 0x01FF_FFFF;  // 32Mb
pub const CARTRIDGE_SRAM_SIZE: usize = 64 * 1024;

// Addresses
pub const BIOS_ADDR: u32 = 0x0000_0000;
pub const EWRAM_ADDR: u32 = 0x0200_0000;
pub const IWRAM_ADDR: u32 = 0x0300_0000;
pub const IO_ADDR: u32 = 0x0400_0000;
pub const PALETTE_RAM_ADDR: u32 = 0x0500_0000;
pub const VRAM_ADDR: u32 = 0x0600_0000;
pub const OAM_ADDR: u32 = 0x0700_0000;
pub const CARTRIDGE_WS0_LO: u32 = 0x0800_0000;
pub const CARTRIDGE_WS0_HI: u32 = 0x0900_0000;
pub const CARTRIDGE_WS1_LO: u32 = 0x0A00_0000;
pub const CARTRIDGE_WS1_HI: u32 = 0x0B00_0000;
pub const CARTRIDGE_WS2_LO: u32 = 0x0C00_0000;
pub const CARTRIDGE_WS2_HI: u32 = 0x0D00_0000;
pub const CARTRIDGE_SRAM_LO: u32 = 0x0E00_0000;

/// Provides read/write access to system
pub trait MemoryInterface {
    /// The state the accesses need (buffer sizes).
    spec fn mem_wf(&self) -> bool;

    fn read_8(&self, address: u32) -> u8
        requires
            self.mem_wf(),
    ;

    fn write_8(&mut self, address: u32, value: u8)
        requires
            old(self).mem_wf(),
        ensures
            final(self).mem_wf(),
    ;

    fn read_16(&self, address: u32) -> u16
        requires
            self.mem_wf(),
    ;

    fn write_16(&mut self, address: u32, value: u16)
        requires
            old(self).mem_wf(),
        ensures
            final(self).mem_wf(),
    ;

    fn read_32(&self, address: u32) -> u32
        requires
            self.mem_wf(),
    ;

    fn write_32(&mut self, address: u32, value: u32)
        requires
            old(self).mem_wf(),
        ensures
            final(self).mem_wf(),
    ;
}

/// Whether a region is one of the six cartridge ROM windows.
pub open spec fn is_cartridge(r: u32) -> bool {
    r == CARTRIDGE_WS0_LO || r == CARTRIDGE_WS0_HI || r == CARTRIDGE_WS1_LO || r == CARTRIDGE_WS1_HI
        || r == CARTRIDGE_WS2_LO || r == CARTRIDGE_WS2_HI
}

/// Whether an I/O address belongs to the display registers.
pub open spec fn is_ppu_register(address: u32) -> bool {
    address & 0x00ff_ffff <= PPU_REGISTERS_END
}

/// Offset of byte `k` of an access at `address` in a mirrored buffer whose
/// size is `mask + 1`.
pub open spec fn mirror(address: u32, k: u32, mask: u32) -> int {
    (address.wrapping_add(k) & mask) as int
}

/// The abstract state of the bus and of everything behind it.
#[verifier::ext_equal]
pub struct BusView {
    pub bios: Seq<u8>,
    pub ewram: Seq<u8>,
    pub iwram: Seq<u8>,
    pub io: IoView,
    pub ppu: PpuView,
    pub cart: Seq<u8>,
    pub sram: Seq<u8>,
}

impl BusView {
    /// Buffer sizes: a BIOS image of at least 16 KiB, the RAMs at their
    /// sizes, and a cartridge that is absent or spans its 16 MiB window.
    pub open spec fn wf(self) -> bool {
        &&& self.bios.len() >= BIOS_SIZE
        &&& self.ewram.len() == EWRAM_SIZE
        &&& self.iwram.len() == IWRAM_SIZE
        &&& self.ppu.wf()
        &&& (self.cart.len() == 0 || self.cart.len() >= 0x100_0000)
        &&& self.sram.len() == CARTRIDGE_SRAM_SIZE
    }

    /// Byte `k` of an access at `address` in a plain memory region.
    pub open spec fn mem_byte(self, address: u32, k: u32) -> u8 {
        let r = region(address);
        if r == BIOS_ADDR {
            self.bios[mirror(address, k, 0x3fff)]
        } else if r == EWRAM_ADDR {
            self.ewram[mirror(address, k, 0x3_ffff)]
        } else if r == IWRAM_ADDR {
            self.iwram[mirror(address, k, 0x7fff)]
        } else if is_cartridge(r) {
            self.cart[mirror(address, k, 0xff_ffff)]
        } else {
            self.sram[mirror(address, k, 0xffff)]
        }
    }

    /// Whether reads of `address` see nothing: the BIOS beyond its 16 KiB,
    /// unmapped regions.
    pub open spec fn unmapped(address: u32) -> bool {
        let r = region(address);
        (r == BIOS_ADDR && address > 0x3fff) || !(r == BIOS_ADDR || r == EWRAM_ADDR || r
            == IWRAM_ADDR || r == IO_ADDR || r == PALETTE_RAM_ADDR || r == VRAM_ADDR || r
            == OAM_ADDR || is_cartridge(r) || r == CARTRIDGE_SRAM_LO)
    }

    /// Whether the access goes to the picture processing unit.
    pub open spec fn to_ppu(address: u32) -> bool {
        let r = region(address);
        (r == IO_ADDR && is_ppu_register(address)) || r == PALETTE_RAM_ADDR || r == VRAM_ADDR || r
            == OAM_ADDR
    }

    /// Whether a cartridge access meets an empty slot, where the open bus
    /// returns the low half-word of address / 2.
    pub open spec fn empty_cartridge(self, address: u32) -> bool {
        is_cartridge(region(address)) && self.cart.len() == 0
    }

    pub open spec fn read_8(self, address: u32) -> u8 {
        if Self::unmapped(address) {
            0
        } else if Self::to_ppu(address) {
            self.ppu.read_8(address)
        } else if region(address) == IO_ADDR {
            self.io.read_8(address)
        } else if self.empty_cartridge(address) {
            ((address / 2) & 0xffff) as u8
        } else {
            self.mem_byte(address, 0)
        }
    }

    pub open spec fn read_16(self, address: u32) -> u16 {
        if Self::unmapped(address) {
            0
        } else if Self::to_ppu(address) {
            self.ppu.read_16(address)
        } else if region(address) == IO_ADDR {
            self.io.read_16(address)
        } else if self.empty_cartridge(address) {
            ((address / 2) & 0xffff) as u16
        } else {
            le16(self.mem_byte(address, 0), self.mem_byte(address, 1))
        }
    }

    pub open spec fn read_32(self, address: u32) -> u32 {
        if Self::unmapped(address) {
            0
        } else if Self::to_ppu(address) {
            self.ppu.read_32(address)
        } else if region(address) == IO_ADDR {
            self.io.read_32(address)
        } else if self.empty_cartridge(address) {
            (address / 2) & 0xffff
        } else {
            le32(
                self.mem_byte(address, 0),
                self.mem_byte(address, 1),
                self.mem_byte(address, 2),
                self.mem_byte(address, 3),
            )
        }
    }

    /// The plain memory with byte `k` of an access at `address` replaced.
    pub open spec fn put_byte(self, address: u32, k: u32, b: u8) -> BusView {
        let r = region(address);
        if r == EWRAM_ADDR {
            BusView { ewram: self.ewram.update(mirror(address, k, 0x3_ffff), b), ..self }
        } else if r == IWRAM_ADDR {
            BusView { iwram: self.iwram.update(mirror(address, k, 0x7fff), b), ..self }
        } else if is_cartridge(r) {
            if self.cart.len() > 0 {
                BusView { cart: self.cart.update(mirror(address, k, 0xff_ffff), b), ..self }
            } else {
                self
            }
        } else if r == CARTRIDGE_SRAM_LO {
            BusView { sram: self.sram.update(mirror(address, k, 0xffff), b), ..self }
        } else {
            self
        }
    }

    /// Writes go to the RAMs, the registers and a present cartridge; the
    /// BIOS and unmapped regions ignore them.
    pub open spec fn write_8(self, address: u32, value: u8) -> BusView {
        if Self::to_ppu(address) {
            BusView { ppu: self.ppu.write_8(address, value), ..self }
        } else if region(address) == IO_ADDR {
            BusView { io: self.io.write_8(address, value), ..self }
        } else {
            self.put_byte(address, 0, value)
        }
    }

    pub open spec fn write_16(self, address: u32, value: u16) -> BusView {
        if Self::to_ppu(address) {
            BusView { ppu: self.ppu.write_16(address, value), ..self }
        } else if region(address) == IO_ADDR {
            BusView { io: self.io.write_16(address, value), ..self }
        } else {
            self.put_byte(address, 0, value as u8).put_byte(address, 1, (value >> 8) as u8)
        }
    }

    pub open spec fn write_32(self, address: u32, value: u32) -> BusView {
        if Self::to_ppu(address) {
            BusView { ppu: self.ppu.write_32(address, value), ..self }
        } else if region(address) == IO_ADDR {
            BusView { io: self.io.write_32(address, value), ..self }
        } else {
            self.put_byte(address, 0, value as u8).put_byte(address, 1, (value >> 8) as u8).put_byte(
                address,
                2,
                (value >> 16) as u8,
            ).put_byte(address, 3, (value >> 24) as u8)
        }
    }
}

/// The system bus
///
/// This unit holds the buffers that back the address space of the system.
pub struct SystemBus {
    bios: Vec<u8>,
    ewram: Vec<u8>,
    iwram: Vec<u8>,
    pub io_regs: IORegisters,
    pub ppu: PPU,
    cartridge_rom: Vec<u8>,
    cartridge_sram: Vec<u8>,
}

impl View for SystemBus {
    type V = BusView;

    closed spec fn view(&self) -> BusView {
        BusView {
            bios: self.bios@,
            ewram: self.ewram@,
            iwram: self.iwram@,
            io: self.io_regs@,
            ppu: self.ppu@,
            cart: self.cartridge_rom@,
            sram: self.cartridge_sram@,
        }
    }
}

} // verus!

verus! {

fn is_cartridge_region(r: u32) -> (b: bool)
    ensures
        b == is_cartridge(r),
{
    r == CARTRIDGE_WS0_LO || r == CARTRIDGE_WS0_HI || r == CARTRIDGE_WS1_LO || r == CARTRIDGE_WS1_HI
        || r == CARTRIDGE_WS2_LO || r == CARTRIDGE_WS2_HI
}

fn mirror_index(address: u32, k: u32, mask: u32) -> (r: usize)
    ensures
        r == mirror(address, k, mask),
        r <= mask,
{
    proof {
        crate::bits::lemma_and_le_u32(address.wrapping_add(k), mask);
    }
    (address.wrapping_add(k) & mask) as usize
}

fn unmapped_address(address: u32) -> (b: bool)
    ensures
        b == BusView::unmapped(address),
{
    let r = address & 0xff00_0000;
    (r == BIOS_ADDR && address > 0x3fff) || !(r == BIOS_ADDR || r == EWRAM_ADDR || r == IWRAM_ADDR
        || r == IO_ADDR || r == PALETTE_RAM_ADDR || r == VRAM_ADDR || r == OAM_ADDR
        || is_cartridge_region(r) || r == CARTRIDGE_SRAM_LO)
}

fn ppu_address(address: u32) -> (b: bool)
    ensures
        b == BusView::to_ppu(address),
{
    let r = address & 0xff00_0000;
    (r == IO_ADDR && address & 0x00ff_ffff <= PPU_REGISTERS_END) || r == PALETTE_RAM_ADDR || r
        == VRAM_ADDR || r == OAM_ADDR
}

impl SystemBus {
    /// A bus over a BIOS image and a cartridge image (which must span the
    /// whole 16 MiB cartridge window; an empty image means no cartridge).
    pub fn new_with_cartridge(bios_data: Vec<u8>, cartridge_data: Vec<u8>) -> (r: Self)
        requires
            bios_data@.len() >= BIOS_SIZE,
            cartridge_data@.len() == 0 || cartridge_data@.len() >= 0x100_0000,
        ensures
            r@.wf(),
            r@.bios == bios_data@,
            r@.cart == cartridge_data@,
            r@.ewram == Seq::new(EWRAM_SIZE as nat, |i: int| 0u8),
            r@.iwram == Seq::new(IWRAM_SIZE as nat, |i: int| 0u8),
            r@.sram == Seq::new(CARTRIDGE_SRAM_SIZE as nat, |i: int| 0u8),
            r@.io == IoView::power_on(),
            r@.ppu == PpuView::power_on(),
    {
        let r = Self {
            bios: bios_data,
            ewram: vec![0u8; EWRAM_SIZE],
            iwram: vec![0u8; IWRAM_SIZE],
            io_regs: IORegisters::new(),
            ppu: PPU::new(),
            cartridge_rom: cartridge_data,
            cartridge_sram: vec![0u8; CARTRIDGE_SRAM_SIZE],
        };
        proof {
            assert(r@.ewram =~= Seq::new(EWRAM_SIZE as nat, |i: int| 0u8));
            assert(r@.iwram =~= Seq::new(IWRAM_SIZE as nat, |i: int| 0u8));
            assert(r@.sram =~= Seq::new(CARTRIDGE_SRAM_SIZE as nat, |i: int| 0u8));
        }
        r
    }

    /// A bus over a BIOS image, with no cartridge.
    pub fn new(bios_data: Vec<u8>) -> (r: Self)
        requires
            bios_data@.len() >= BIOS_SIZE,
        ensures
            r@.wf(),
            r@.bios == bios_data@,
            r@.cart == Seq::<u8>::empty(),
            r@.ewram == Seq::new(EWRAM_SIZE as nat, |i: int| 0u8),
            r@.iwram == Seq::new(IWRAM_SIZE as nat, |i: int| 0u8),
            r@.sram == Seq::new(CARTRIDGE_SRAM_SIZE as nat, |i: int| 0u8),
            r@.io == IoView::power_on(),
            r@.ppu == PpuView::power_on(),
    {
        Self::new_with_cartridge(bios_data, Vec::new())
    }

    fn mem_byte(&self, address: u32, k: u32) -> (r: u8)
        requires
            self@.wf(),
            !BusView::unmapped(address),
            !BusView::to_ppu(address),
            region(address) != IO_ADDR,
            !self@.empty_cartridge(address),
        ensures
            r == self@.mem_byte(address, k),
    {
        let r = address & 0xff00_0000;
        if r == BIOS_ADDR {
            self.bios[mirror_index(address, k, 0x3fff)]
        } else if r == EWRAM_ADDR {
            self.ewram[mirror_index(address, k, 0x3_ffff)]
        } else if r == IWRAM_ADDR {
            self.iwram[mirror_index(address, k, 0x7fff)]
        } else if is_cartridge_region(r) {
            self.cartridge_rom[mirror_index(address, k, 0xff_ffff)]
        } else {
            self.cartridge_sram[mirror_index(address, k, 0xffff)]
        }
    }

    fn put_byte(&mut self, address: u32, k: u32, b: u8)
        requires
            old(self)@.wf(),
        ensures
            final(self)@ == old(self)@.put_byte(address, k, b),
            final(self)@.wf(),
    {
        let r = address & 0xff00_0000;
        if r == EWRAM_ADDR {
            let i = mirror_index(address, k, 0x3_ffff);
            self.ewram[i] = b;
        } else if r == IWRAM_ADDR {
            let i = mirror_index(address, k, 0x7fff);
            self.iwram[i] = b;
        } else if is_cartridge_region(r) {
            if self.cartridge_rom.len() > 0 {
                let i = mirror_index(address, k, 0xff_ffff);
                self.cartridge_rom[i] = b;
            }
        } else if r == CARTRIDGE_SRAM_LO {
            let i = mirror_index(address, k, 0xffff);
            self.cartridge_sram[i] = b;
        }
    }

    pub fn read_8(&self, address: u32) -> (r: u8)
        requires
            self@.wf(),
        ensures
            r == self@.read_8(address),
    {
        if unmapped_address(address) {
            0x0
        } else if ppu_address(address) {
            self.ppu.read_8(address)
        } else if address & 0xff00_0000 == IO_ADDR {
            self.io_regs.read_8(address)
        } else if is_cartridge_region(address & 0xff00_0000) && self.cartridge_rom.len() == 0 {
            ((address / 2) & 0xffff) as u8
        } else {
            self.mem_byte(address, 0)
        }
    }

    pub fn read_16(&self, address: u32) -> (r: u16)
        requires
            self@.wf(),
        ensures
            r == self@.read_16(address),
    {
        if unmapped_address(address) {
            0x0
        } else if ppu_address(address) {
            self.ppu.read_16(address)
        } else if address & 0xff00_0000 == IO_ADDR {
            self.io_regs.read_16(address)
        } else if is_cartridge_region(address & 0xff00_0000) && self.cartridge_rom.len() == 0 {
            ((address / 2) & 0xffff) as u16
        } else {
            le16_of(self.mem_byte(address, 0), self.mem_byte(address, 1))
        }
    }

    pub fn read_32(&self, address: u32) -> (r: u32)
        requires
            self@.wf(),
        ensures
            r == self@.read_32(address),
    {
        if unmapped_address(address) {
            0x0
        } else if ppu_address(address) {
            self.ppu.read_32(address)
        } else if address & 0xff00_0000 == IO_ADDR {
            self.io_regs.read_32(address)
        } else if is_cartridge_region(address & 0xff00_0000) && self.cartridge_rom.len() == 0 {
            (address / 2) & 0xffff
        } else {
            le32_of(
                self.mem_byte(address, 0),
                self.mem_byte(address, 1),
                self.mem_byte(address, 2),
                self.mem_byte(address, 3),
            )
        }
    }

    pub fn write_8(&mut self, address: u32, value: u8)
        requires
            old(self)@.wf(),
        ensures
            final(self)@ == old(self)@.write_8(address, value),
            final(self)@.wf(),
    {
        if ppu_address(address) {
            self.ppu.write_8(address, value);
        } else if address & 0xff00_0000 == IO_ADDR {
            self.io_regs.write_8(address, value);
        } else {
            self.put_byte(address, 0, value);
        }
    }

    pub fn write_16(&mut self, address: u32, value: u16)
        requires
            old(self)@.wf(),
        ensures
            final(self)@ == old(self)@.write_16(address, value),
            final(self)@.wf(),
    {
        if ppu_address(address) {
            self.ppu.write_16(address, value);
        } else if address & 0xff00_0000 == IO_ADDR {
            self.io_regs.write_16(address, value);
        } else {
            self.put_byte(address, 0, value as u8);
            self.put_byte(address, 1, (value >> 8) as u8);
        }
    }

    pub fn write_32(&mut self, address: u32, value: u32)
        requires
            old(self)@.wf(),
        ensures
            final(self)@ == old(self)@.write_32(address, value),
            final(self)@.wf(),
    {
        if ppu_address(address) {
            self.ppu.write_32(address, value);
        } else if address & 0xff00_0000 == IO_ADDR {
            self.io_regs.write_32(address, value);
        } else {
            self.put_byte(address, 0, value as u8);
            self.put_byte(address, 1, (value >> 8) as u8);
            self.put_byte(address, 2, (value >> 16) as u8);
            self.put_byte(address, 3, (value >> 24) as u8);
        }
    }
}

} // verus!

verus! {

impl MemoryInterface for SystemBus {
    open spec fn mem_wf(&self) -> bool {
        self@.wf()
    }

    fn read_8(&self, address: u32) -> (r: u8)
        ensures
            r == self@.read_8(address),
    {
        SystemBus::read_8(self, address)
    }

    fn write_8(&mut self, address: u32, value: u8)
        ensures
            final(self)@ == old(self)@.write_8(address, value),
    {
        SystemBus::write_8(self, address, value)
    }

    fn read_16(&self, address: u32) -> (r: u16)
        ensures
            r == self@.read_16(address),
    {
        SystemBus::read_16(self, address)
    }

    fn write_16(&mut self, address: u32, value: u16)
        ensures
            final(self)@ == old(self)@.write_16(address, value),
    {
        SystemBus::write_16(self, address, value)
    }

    fn read_32(&self, address: u32) -> (r: u32)
        ensures
            r == self@.read_32(address),
    {
        SystemBus::read_32(self, address)
    }

    fn write_32(&mut self, address: u32, value: u32)
        ensures
            final(self)@ == old(self)@.write_32(address, value),
    {
        SystemBus::write_32(self, address, value)
    }
}

impl MemoryInterface for crate::ppu::PPU {
    open spec fn mem_wf(&self) -> bool {
        self@.wf()
    }

    fn read_8(&self, address: u32) -> (r: u8)
        ensures
            r == self@.read_8(address),
    {
        crate::ppu::PPU::read_8(self, address)
    }

    fn write_8(&mut self, address: u32, value: u8)
        ensures
            final(self)@ == old(self)@.write_8(address, value),
    {
        crate::ppu::PPU::write_8(self, address, value)
    }

    fn read_16(&self, address: u32) -> (r: u16)
        ensures
            r == self@.read_16(address),
    {
        crate::ppu::PPU::read_16(self, address)
    }

    fn write_16(&mut self, address: u32, value: u16)
        ensures
            final(self)@ == old(self)@.write_16(address, value),
    {
        crate::ppu::PPU::write_16(self, address, value)
    }

    fn read_32(&self, address: u32) -> (r: u32)
        ensures
            r == self@.read_32(address),
    {
        crate::ppu::PPU::read_32(self, address)
    }

    fn write_32(&mut self, address: u32, value: u32)
        ensures
            final(self)@ == old(self)@.write_32(address, value),
    {
        crate::ppu::PPU::write_32(self, address, value)
    }
}

impl MemoryInterface for IORegisters {
    open spec fn mem_wf(&self) -> bool {
        true
    }

    fn read_8(&self, address: u32) -> (r: u8)
        ensures
            r == self@.read_8(address),
    {
        IORegisters::read_8(self, address)
    }

    fn write_8(&mut self, address: u32, value: u8)
        ensures
            final(self)@ == old(self)@.write_8(address, value),
    {
        IORegisters::write_8(self, address, value)
    }

    fn read_16(&self, address: u32) -> (r: u16)
        ensures
            r == self@.read_16(address),
    {
        IORegisters::read_16(self, address)
    }

    fn write_16(&mut self, address: u32, value: u16)
        ensures
            final(self)@ == old(self)@.write_16(address, value),
    {
        IORegisters::write_16(self, address, value)
    }

    fn read_32(&self, address: u32) -> (r: u32)
        ensures
            r == self@.read_32(address),
    {
        IORegisters::read_32(self, address)
    }

    fn write_32(&mut self, address: u32, value: u32)
        ensures
            final(self)@ == old(self)@.write_32(address, value),
    {
        IORegisters::write_32(self, address, value)
    }
}

} // verus!

verus! {

/// The four bytes of a word access in work RAM lie at distinct offsets.
proof fn lemma_ram_offsets_distinct(address: u32, mask: u32)
    requires
        address < 0x0400_0000,
        mask == 0x3_ffff || mask == 0x7fff,
    ensures
        mirror(address, 0, mask) != mirror(address, 1, mask),
        mirror(address, 0, mask) != mirror(address, 2, mask),
        mirror(address, 0, mask) != mirror(address, 3, mask),
        mirror(address, 1, mask) != mirror(address, 2, mask),
        mirror(address, 1, mask) != mirror(address, 3, mask),
        mirror(address, 2, mask) != mirror(address, 3, mask),
{
    assert(address.wrapping_add(0) == address);
    assert(address.wrapping_add(1) == address + 1);
    assert(address.wrapping_add(2) == address + 2);
    assert(address.wrapping_add(3) == address + 3);
    lemma_word_bits(address, mask, 0);
}

/// Bit facts behind the work RAM law: a word access in a RAM region stays
/// below 64 MiB, its four bytes lie at distinct offsets of the mirror, and
/// splitting a word or half-word into bytes and joining them is exact.
proof fn lemma_word_bits(address: u32, mask: u32, value: u32)
    by (bit_vector)
    requires
        mask == 0x3_ffff || mask == 0x7fff,
    ensures
        address & 0xff00_0000 == 0x0200_0000 || address & 0xff00_0000 == 0x0300_0000 ==> address
            < 0x0400_0000,
        address < 0x0400_0000 ==> ((address & mask) != ((address + 1) as u32 & mask)) && ((address
            & mask) != ((address + 2) as u32 & mask)) && ((address & mask) != ((address + 3) as u32
            & mask)) && (((address + 1) as u32 & mask) != ((address + 2) as u32 & mask)) && (((address
            + 1) as u32 & mask) != ((address + 3) as u32 & mask)) && (((address + 2) as u32 & mask) != ((
        address + 3) as u32 & mask)),
        le32(value as u8, (value >> 8) as u8, (value >> 16) as u8, (value >> 24) as u8) == value,
        le16((value as u16) as u8, ((value as u16) >> 8) as u8) == value as u16,
{
}

/// A word stored in work RAM (on-board or on-chip) reads back unchanged,
/// wherever in the region it is stored.
pub proof fn lemma_work_ram_read_after_write(b: BusView, address: u32, value: u32)
    requires
        b.wf(),
        region(address) == EWRAM_ADDR || region(address) == IWRAM_ADDR,
    ensures
        b.write_32(address, value).read_32(address) == value,
        b.write_16(address, value as u16).read_16(address) == value as u16,
        b.write_8(address, value as u8).read_8(address) == value as u8,
{
    lemma_word_bits(address, 0x7fff, value);
    if region(address) == EWRAM_ADDR {
        lemma_ram_offsets_distinct(address, 0x3_ffff);
    } else {
        lemma_ram_offsets_distinct(address, 0x7fff);
    }
    assert(forall|k: u32| #![auto] mirror(address, k, 0x3_ffff) <= 0x3_ffff && mirror(address, k, 0x7fff) <= 0x7fff)
        by {
        assert forall|k: u32| #![auto] mirror(address, k, 0x3_ffff) <= 0x3_ffff && mirror(address, k, 0x7fff)
            <= 0x7fff by {
            crate::bits::lemma_and_le_u32(address.wrapping_add(k), 0x3_ffff);
            crate::bits::lemma_and_le_u32(address.wrapping_add(k), 0x7fff);
        }
    }
    let h = value as u16;
    let w = b.write_32(address, value);
    assert(w.mem_byte(address, 0) == value as u8);
    assert(w.mem_byte(address, 1) == (value >> 8) as u8);
    assert(w.mem_byte(address, 2) == (value >> 16) as u8);
    assert(w.mem_byte(address, 3) == (value >> 24) as u8);
    assert(!BusView::unmapped(address) && !BusView::to_ppu(address) && !w.empty_cartridge(address));
    let x = b.write_16(address, h);
    assert(x.mem_byte(address, 0) == h as u8);
    assert(x.mem_byte(address, 1) == (h >> 8) as u8);
}

/// Bit facts behind the other-word law: two different aligned words less
/// than 32 KiB apart never share a byte of a work RAM mirror.
proof fn lemma_distinct_words_bits(a: u32, a2: u32, mask: u32)
    by (bit_vector)
    requires
        a & 3 == 0,
        a2 & 3 == 0,
        a2 < a,
        a - a2 < 0x8000,
        a <= 0xffff_fff0,
        mask == 0x3_ffff || mask == 0x7fff,
    ensures
        ((a + 0) as u32 & mask) != ((a2 + 0) as u32 & mask),
        ((a + 0) as u32 & mask) != ((a2 + 1) as u32 & mask),
        ((a + 0) as u32 & mask) != ((a2 + 2) as u32 & mask),
        ((a + 0) as u32 & mask) != ((a2 + 3) as u32 & mask),
        ((a + 1) as u32 & mask) != ((a2 + 0) as u32 & mask),
        ((a + 1) as u32 & mask) != ((a2 + 1) as u32 & mask),
        ((a + 1) as u32 & mask) != ((a2 + 2) as u32 & mask),
        ((a + 1) as u32 & mask) != ((a2 + 3) as u32 & mask),
        ((a + 2) as u32 & mask) != ((a2 + 0) as u32 & mask),
        ((a + 2) as u32 & mask) != ((a2 + 1) as u32 & mask),
        ((a + 2) as u32 & mask) != ((a2 + 2) as u32 & mask),
        ((a + 2) as u32 & mask) != ((a2 + 3) as u32 & mask),
        ((a + 3) as u32 & mask) != ((a2 + 0) as u32 & mask),
        ((a + 3) as u32 & mask) != ((a2 + 1) as u32 & mask),
        ((a + 3) as u32 & mask) != ((a2 + 2) as u32 & mask),
        ((a + 3) as u32 & mask) != ((a2 + 3) as u32 & mask),
        (a + 0) as u32 & mask <= mask,
        (a + 1) as u32 & mask <= mask,
        (a + 2) as u32 & mask <= mask,
        (a + 3) as u32 & mask <= mask,
        (a2 + 0) as u32 & mask <= mask,
        (a2 + 1) as u32 & mask <= mask,
        (a2 + 2) as u32 & mask <= mask,
        (a2 + 3) as u32 & mask <= mask,
{
}

/// The mirror mask of a writable memory region: on-board and on-chip work
/// RAM and cartridge SRAM.
pub open spec fn ram_mask(r: u32) -> u32 {
    if r == EWRAM_ADDR {
        0x3_ffff
    } else if r == IWRAM_ADDR {
        0x7fff
    } else {
        0xffff
    }
}

/// A byte written to the BIOS changes nothing. A byte written to work RAM
/// or to cartridge SRAM reads back, and every other byte of the bus (any
/// address that is not a mirror of the written one) reads as before.
pub proof fn lemma_byte_write(b: BusView, a: u32, v: u8, a2: u32)
    requires
        b.wf(),
    ensures
        region(a) == BIOS_ADDR ==> b.write_8(a, v) == b,
        region(a) == EWRAM_ADDR || region(a) == IWRAM_ADDR || region(a) == CARTRIDGE_SRAM_LO ==> {
            &&& b.write_8(a, v).wf()
            &&& b.write_8(a, v).read_8(a) == v
            &&& !(region(a2) == region(a) && mirror(a2, 0, ram_mask(region(a))) == mirror(
                a,
                0,
                ram_mask(region(a)),
            )) ==> b.write_8(a, v).read_8(a2) == b.read_8(a2)
        },
{
    let r = region(a);
    if r == EWRAM_ADDR || r == IWRAM_ADDR || r == CARTRIDGE_SRAM_LO {
        let mask = ram_mask(r);
        assert(a.wrapping_add(0) == a && a2.wrapping_add(0) == a2);
        crate::bits::lemma_and_le_u32(a, mask);
        crate::bits::lemma_and_le_u32(a2, mask);
        assert(!BusView::unmapped(a) && !BusView::to_ppu(a) && !b.empty_cartridge(a));
        let w = b.write_8(a, v);
        assert(w.mem_byte(a, 0) == v);
        if region(a2) == r {
            if mirror(a2, 0, mask) != mirror(a, 0, mask) {
                assert(w.mem_byte(a2, 0) == b.mem_byte(a2, 0));
            }
        } else {
            assert(w.read_8(a2) == b.read_8(a2));
        }
    }
}

/// A word written to work RAM keeps the bus well formed.
pub proof fn lemma_work_ram_write_wf(b: BusView, a: u32, value: u32)
    requires
        b.wf(),
        region(a) == EWRAM_ADDR || region(a) == IWRAM_ADDR,
    ensures
        b.write_32(a, value).wf(),
{
    assert(a < 0x0400_0000) by (bit_vector)
        requires
            a & 0xff00_0000 == 0x0200_0000 || a & 0xff00_0000 == 0x0300_0000,
    ;
    let mask: u32 = if region(a) == EWRAM_ADDR { 0x3_ffff } else { 0x7fff };
    crate::bits::lemma_and_le_u32(a.wrapping_add(0), mask);
    crate::bits::lemma_and_le_u32(a.wrapping_add(1), mask);
    crate::bits::lemma_and_le_u32(a.wrapping_add(2), mask);
    crate::bits::lemma_and_le_u32(a.wrapping_add(3), mask);
    assert(!BusView::unmapped(a) && !BusView::to_ppu(a));
}

/// A word written to work RAM keeps the bus well formed and leaves every
/// other aligned word of the region less than 32 KiB below it unchanged.
pub proof fn lemma_work_ram_other_word(b: BusView, a: u32, a2: u32, value: u32)
    requires
        b.wf(),
        region(a) == EWRAM_ADDR || region(a) == IWRAM_ADDR,
        region(a2) == region(a),
        a % 4 == 0,
        a2 % 4 == 0,
        a2 < a,
        a - a2 < 0x8000,
    ensures
        b.write_32(a, value).wf(),
        b.write_32(a, value).read_32(a2) == b.read_32(a2),
{
    assert(a < 0x0400_0000) by (bit_vector)
        requires
            a & 0xff00_0000 == 0x0200_0000 || a & 0xff00_0000 == 0x0300_0000,
    ;
    assert(a & 3 == 0 && a2 & 3 == 0) by (bit_vector)
        requires
            a % 4 == 0,
            a2 % 4 == 0,
    ;
    let mask: u32 = if region(a) == EWRAM_ADDR { 0x3_ffff } else { 0x7fff };
    lemma_distinct_words_bits(a, a2, mask);
    assert(a.wrapping_add(0) == a && a.wrapping_add(1) == (a + 1) as u32 && a.wrapping_add(2) == (a + 2) as u32
        && a.wrapping_add(3) == (a + 3) as u32);
    assert(a2.wrapping_add(0) == a2 && a2.wrapping_add(1) == (a2 + 1) as u32 && a2.wrapping_add(2) == (a2
        + 2) as u32 && a2.wrapping_add(3) == (a2 + 3) as u32);
    assert((a + 0) as u32 == a && (a2 + 0) as u32 == a2);
    let w = b.write_32(a, value);
    assert(mirror(a, 0, mask) != mirror(a2, 0, mask) && mirror(a, 1, mask) != mirror(a2, 0, mask)
        && mirror(a, 2, mask) != mirror(a2, 0, mask) && mirror(a, 3, mask) != mirror(a2, 0, mask));
    assert(mirror(a, 0, mask) != mirror(a2, 1, mask) && mirror(a, 1, mask) != mirror(a2, 1, mask)
        && mirror(a, 2, mask) != mirror(a2, 1, mask) && mirror(a, 3, mask) != mirror(a2, 1, mask));
    assert(mirror(a, 0, mask) != mirror(a2, 2, mask) && mirror(a, 1, mask) != mirror(a2, 2, mask)
        && mirror(a, 2, mask) != mirror(a2, 2, mask) && mirror(a, 3, mask) != mirror(a2, 2, mask));
    assert(mirror(a, 0, mask) != mirror(a2, 3, mask) && mirror(a, 1, mask) != mirror(a2, 3, mask)
        && mirror(a, 2, mask) != mirror(a2, 3, mask) && mirror(a, 3, mask) != mirror(a2, 3, mask));
    assert(w.mem_byte(a2, 0) == b.mem_byte(a2, 0));
    assert(w.mem_byte(a2, 1) == b.mem_byte(a2, 1));
    assert(w.mem_byte(a2, 2) == b.mem_byte(a2, 2));
    assert(w.mem_byte(a2, 3) == b.mem_byte(a2, 3));
    assert(!BusView::unmapped(a2) && !BusView::to_ppu(a2) && !b.empty_cartridge(a2));
    assert(!BusView::unmapped(a) && !BusView::to_ppu(a));
}

} // verus!

verus! {

/// Cycles in one frame: 228 lines of 1232 cycles.
pub const CYCLES_PER_FRAME: u32 = 280_896;

/// The bus once the display has advanced to `cycle` (see `PPU::step`).
pub open spec fn after_display(b: BusView, cycle: u32) -> BusView {
    BusView {
        ppu: PpuView {
            regs: PpuRegisters {
                v_count: step_vcount(cycle),
                disp_stat: step_status(b.ppu.regs.disp_stat, cycle),
                ..b.ppu.regs
            },
            ..b.ppu
        },
        ..b
    }
}

/// Interrupt `bit` raised: its request flag set in IF, the processor woken
/// and sent to the IRQ handler.
pub open spec fn raise_irq(c: CpuView, b: BusView, bit: u16) -> (CpuView, BusView) {
    (
        take_exception(c, EExceptionType::Irq),
        BusView {
            io: IoView {
                interrupt_request: with_bit16(b.io.interrupt_request, bit, true),
                halted: false,
                ..b.io
            },
            ..b
        },
    )
}

/// The interrupts of one cycle: a V-counter match, then an H-Blank or,
/// failing that, a V-Blank, each when the master enable, its bit of IE and
/// the display's own enable allow it.
pub open spec fn raise_interrupts(c: CpuView, b: BusView, h_blank: bool, v_blank: bool) -> (CpuView, BusView) {
    let stat = b.ppu.regs.disp_stat;
    let ime = b.io.ime;
    let ie = b.io.interrupt_enable;
    let (c1, b1) = if bit16(stat, 2) && ime && bit16(ie, 2) && bit16(stat, 5) {
        raise_irq(c, b, 2)
    } else {
        (c, b)
    };
    if h_blank && ime && bit16(ie, 1) && bit16(stat, 4) {
        raise_irq(c1, b1, 1)
    } else if v_blank && ime && bit16(ie, 0) && bit16(stat, 3) {
        raise_irq(c1, b1, 0)
    } else {
        (c1, b1)
    }
}

/// An instruction as the processor fetched it: its address, its code (a
/// half-word in THUMB state, a word in ARM state) and the state.
#[derive(Debug, Copy, Clone, PartialEq, Eq, Structural)]
pub struct TraceEntry {
    pub pc: u32,
    pub instruction: u32,
    pub thumb: bool,
}

/// The instruction at the program counter, as the processor fetches it.
pub open spec fn fetched(c: CpuView, b: BusView) -> TraceEntry {
    TraceEntry {
        pc: c.pc(),
        instruction: if c.thumb() { b.read_16(c.pc()) as u32 } else { b.read_32(c.pc()) },
        thumb: c.thumb(),
    }
}

/// What a cycle did with the processor.
#[derive(Debug, Copy, Clone, PartialEq, Eq, Structural)]
pub enum Tick {
    /// The processor waits for an interrupt.
    Halted,
    /// This instruction was executed.
    Executed(TraceEntry),
    /// The instruction at the program counter is one the processor cannot
    /// execute; nothing was executed.
    Undefined,
}

/// One cycle of the machine: the display advances to `cycle`, interrupts
/// are raised, and the processor executes one instruction unless halted.
#[verifier::opaque]
pub open spec fn tick_result(c: CpuView, b: BusView, cycle: u32) -> (CpuView, BusView, Tick) {
    let b0 = after_display(b, cycle);
    let (h, v) = step_signals(cycle);
    let (c1, b1) = raise_interrupts(c, b0, h, v);
    if b1.io.halted {
        (c1, b1, Tick::Halted)
    } else if !decode_defined(c1, b1) {
        (c1, b1, Tick::Undefined)
    } else {
        let (c2, b2) = cpu_step(c1, b1);
        (c2, b2, Tick::Executed(fetched(c1, b1)))
    }
}

/// Runs the machine for one cycle; see `tick_result`.
pub fn tick(cpu: &mut CPU, bus: &mut SystemBus, cycle: u32) -> (r: Tick)
    requires
        old(cpu)@.wf(),
        old(bus)@.wf(),
    ensures
        (final(cpu)@, final(bus)@, r) == tick_result(old(cpu)@, old(bus)@, cycle),
        final(cpu)@.wf(),
        final(bus)@.wf(),
{
    proof {
        reveal(tick_result);
    }
    let (h_blank_irq, v_blank_irq) = bus.ppu.step(cycle);
    let stat = bus.ppu.get_disp_stat();
    if stat.get_v_counter_flag() && bus.io_regs.get_ime() && bus.io_regs.get_ie().get_v_counter_match()
        && stat.get_v_counter_irq() {
        bus.io_regs.get_mut_if().set_v_counter_match(true);
        cpu.exception(EExceptionType::Irq);
        bus.io_regs.set_halted(false);
    }
    // H-Blank
    if h_blank_irq && bus.io_regs.get_ime() && bus.io_regs.get_ie().get_h_blank() && stat.get_h_blank_irq() {
        bus.io_regs.get_mut_if().set_h_blank(true);
        cpu.exception(EExceptionType::Irq);
        bus.io_regs.set_halted(false);
    } else if v_blank_irq && bus.io_regs.get_ime() && bus.io_regs.get_ie().get_v_blank()
        && stat.get_v_blank_irq() {
        // V-Blank
        bus.io_regs.get_mut_if().set_v_blank(true);
        cpu.exception(EExceptionType::Irq);
        bus.io_regs.set_halted(false);
    }
    if bus.io_regs.is_halted() {
        return Tick::Halted;
    }
    if !can_decode(cpu, bus) {
        return Tick::Undefined;
    }
    let pc = cpu.get_current_pc();
    let thumb = cpu.get_cpsr().get_t();
    let instruction = if thumb {
        bus.read_16(pc) as u32
    } else {
        bus.read_32(pc)
    };
    cpu.step(bus);
    Tick::Executed(TraceEntry { pc, instruction, thumb })
}

} // verus!

verus! {

/// How a run of cycles ended.
#[derive(Debug, Copy, Clone, PartialEq, Eq, Structural)]
pub enum FrameEnd {
    /// Every cycle ran.
    Completed,
    /// An instruction left the program counter at the breakpoint.
    Breakpoint,
    /// The processor met an instruction it cannot execute.
    Undefined,
}

/// The cycle after `cycle`, wrapping at the end of the frame.
pub open spec fn next_cycle(cycle: u32) -> u32 {
    ((cycle + 1) % (CYCLES_PER_FRAME as int)) as u32
}

/// `n` cycles from `cycle`: the final processor and bus, the last cycle
/// run, how the run ended, and (when tracing) the instructions executed. The run stops after an instruction that leaves
/// the program counter at the breakpoint, and before an instruction the
/// processor cannot execute.
pub open spec fn run_cycles(
    c: CpuView,
    b: BusView,
    cycle: u32,
    n: nat,
    breakpoint: Option<u32>,
    trace: bool,
) -> (CpuView, BusView, u32, FrameEnd, Seq<TraceEntry>)
    decreases n,
{
    if n == 0 {
        (c, b, cycle, FrameEnd::Completed, Seq::empty())
    } else {
        let next = next_cycle(cycle);
        let (c1, b1, t) = tick_result(c, b, next);
        match t {
            Tick::Undefined => (c1, b1, next, FrameEnd::Undefined, Seq::empty()),
            Tick::Halted => run_cycles(c1, b1, next, (n - 1) as nat, breakpoint, trace),
            Tick::Executed(entry) => {
                let logged = if trace { seq![entry] } else { Seq::empty() };
                if breakpoint == Some(c1.pc()) {
                    (c1, b1, next, FrameEnd::Breakpoint, logged)
                } else {
                    let (c2, b2, last, end, rest) = run_cycles(
                        c1,
                        b1,
                        next,
                        (n - 1) as nat,
                        breakpoint,
                        trace,
                    );
                    (c2, b2, last, end, logged + rest)
                }
            },
        }
    }
}

/// Without the master interrupt enable no interrupt is raised: the
/// processor and the bus are left as they are.
pub proof fn lemma_no_interrupts_without_master_enable(c: CpuView, b: BusView, h_blank: bool, v_blank: bool)
    requires
        !b.io.ime,
    ensures
        raise_interrupts(c, b, h_blank, v_blank) == (c, b),
{
}

/// A halted processor with interrupts masked waits: a cycle moves the
/// display on and leaves the processor as it was.
pub proof fn lemma_halted_processor_waits(c: CpuView, b: BusView, cycle: u32)
    requires
        b.io.halted,
        !b.io.ime,
    ensures
        tick_result(c, b, cycle) == (c, after_display(b, cycle), Tick::Halted),
{
    reveal(tick_result);
}

/// Bit facts: the display's status updates touch only bits 0 to 2 of
/// DISPSTAT, and setting a request bit of IF sets it.
proof fn lemma_interrupt_bits(s: u16, k: u16, x: bool, v: u16, j: u16)
    by (bit_vector)
    requires
        k < 3,
        j < 16,
    ensures
        bit16(with_bit16(s, k, x), 4) == bit16(s, 4),
        bit16(with_bit16(v, j, true), j),
        j != 0 ==> bit16(with_bit16(v, j, true), 0) == bit16(v, 0),
        j != 1 ==> bit16(with_bit16(v, j, true), 1) == bit16(v, 1),
        j != 2 ==> bit16(with_bit16(v, j, true), 2) == bit16(v, 2),
{
}

/// An exception entry keeps the sizes of the register views.
proof fn lemma_exception_keeps_lens(c: CpuView, kind: EExceptionType)
    requires
        c.regs.len() == 31,
        c.spsr.len() == 5,
        c.wf(),
    ensures
        take_exception(c, kind).regs.len() == 31,
        take_exception(c, kind).spsr.len() == 5,
        take_exception(c, kind).wf(),
{
    crate::arm7tdmi::cpu::lemma_exception_entry(c, kind);
    crate::arm7tdmi::psr::lemma_with_mode(c.cpsr, crate::arm7tdmi::cpu::exception_mode(kind));
}

/// The H-Blank interrupt: when the display signals H-Blank, with the
/// master enable IME set, IE bit 1 (H-Blank) set and the H-Blank IRQ
/// enabled in DISPSTAT (bit 4), whatever IE bit 0 holds, IF bit 1 is set,
/// the processor is woken and it enters the IRQ exception: IRQ mode, ARM
/// state, at the IRQ vector 0x18.
pub proof fn lemma_h_blank_interrupt(c: CpuView, b: BusView, v_blank: bool)
    requires
        c.regs.len() == 31,
        c.spsr.len() == 5,
        c.wf(),
        b.io.ime,
        bit16(b.io.interrupt_enable, 1),
        bit16(b.ppu.regs.disp_stat, 4),
    ensures
        ({
            let (c1, b1) = raise_interrupts(c, b, true, v_blank);
            &&& bit16(b1.io.interrupt_request, 1)
            &&& !b1.io.halted
            &&& c1.mode() == 0x12
            &&& c1.pc() == 0x18
            &&& !c1.thumb()
        }),
{
    let stat = b.ppu.regs.disp_stat;
    let ie = b.io.interrupt_enable;
    let (c0, b0) = if bit16(stat, 2) && b.io.ime && bit16(ie, 2) && bit16(stat, 5) {
        raise_irq(c, b, 2)
    } else {
        (c, b)
    };
    lemma_exception_keeps_lens(c, EExceptionType::Irq);
    crate::arm7tdmi::cpu::lemma_exception_entry(c0, EExceptionType::Irq);
    lemma_interrupt_bits(stat, 0, false, b0.io.interrupt_request, 1);
}

/// The V-Blank interrupt: when the display signals V-Blank (and not
/// H-Blank), with IME set, IE bit 0 (V-Blank) set and the V-Blank IRQ
/// enabled in DISPSTAT (bit 3), IF bit 0 is set, the processor is woken
/// and it enters the IRQ exception at the vector 0x18 in ARM state.
pub proof fn lemma_v_blank_interrupt(c: CpuView, b: BusView)
    requires
        c.regs.len() == 31,
        c.spsr.len() == 5,
        c.wf(),
        b.io.ime,
        bit16(b.io.interrupt_enable, 0),
        bit16(b.ppu.regs.disp_stat, 3),
    ensures
        ({
            let (c1, b1) = raise_interrupts(c, b, false, true);
            &&& bit16(b1.io.interrupt_request, 0)
            &&& !b1.io.halted
            &&& c1.mode() == 0x12
            &&& c1.pc() == 0x18
            &&& !c1.thumb()
        }),
{
    let stat = b.ppu.regs.disp_stat;
    let ie = b.io.interrupt_enable;
    let (c0, b0) = if bit16(stat, 2) && b.io.ime && bit16(ie, 2) && bit16(stat, 5) {
        raise_irq(c, b, 2)
    } else {
        (c, b)
    };
    lemma_exception_keeps_lens(c, EExceptionType::Irq);
    crate::arm7tdmi::cpu::lemma_exception_entry(c0, EExceptionType::Irq);
    lemma_interrupt_bits(stat, 0, false, b0.io.interrupt_request, 0);
}

/// The V-counter interrupt: when DISPSTAT flags a V-counter match (bit 2)
/// with its IRQ enabled (bit 5), IME set and IE bit 2 set, IF bit 2 is set
/// (and stays set whatever else the cycle raises), the processor is woken
/// and it enters the IRQ exception at the vector 0x18 in ARM state.
pub proof fn lemma_v_counter_interrupt(c: CpuView, b: BusView, h_blank: bool, v_blank: bool)
    requires
        c.regs.len() == 31,
        c.spsr.len() == 5,
        c.wf(),
        b.io.ime,
        bit16(b.io.interrupt_enable, 2),
        bit16(b.ppu.regs.disp_stat, 2),
        bit16(b.ppu.regs.disp_stat, 5),
    ensures
        ({
            let (c1, b1) = raise_interrupts(c, b, h_blank, v_blank);
            &&& bit16(b1.io.interrupt_request, 2)
            &&& !b1.io.halted
            &&& c1.mode() == 0x12
            &&& c1.pc() == 0x18
            &&& !c1.thumb()
        }),
{
    let (c0, b0) = raise_irq(c, b, 2);
    lemma_exception_keeps_lens(c, EExceptionType::Irq);
    crate::arm7tdmi::cpu::lemma_exception_entry(c, EExceptionType::Irq);
    crate::arm7tdmi::cpu::lemma_exception_entry(c0, EExceptionType::Irq);
    lemma_exception_keeps_lens(c0, EExceptionType::Irq);
    lemma_interrupt_bits(0, 0, false, b.io.interrupt_request, 2);
    lemma_interrupt_bits(0, 0, false, b0.io.interrupt_request, 1);
    lemma_interrupt_bits(0, 0, false, b0.io.interrupt_request, 0);
}

/// An interrupt whose enable bit in IE is clear is never raised: with IE
/// bits 0, 1 and 2 all clear, a cycle's interrupts leave the processor and
/// the bus as they are.
pub proof fn lemma_disabled_interrupts_not_raised(c: CpuView, b: BusView, h_blank: bool, v_blank: bool)
    requires
        !bit16(b.io.interrupt_enable, 0),
        !bit16(b.io.interrupt_enable, 1),
        !bit16(b.io.interrupt_enable, 2),
    ensures
        raise_interrupts(c, b, h_blank, v_blank) == (c, b),
{
}

/// A cycle in which the display signals H-Blank, with IME, IE bit 1 and
/// DISPSTAT bit 4 set, never leaves the processor halted: it runs the
/// instruction at the IRQ vector 0x18 in ARM state, unless that
/// instruction is one it cannot execute.
pub proof fn lemma_h_blank_interrupt_taken(c: CpuView, b: BusView, cycle: u32)
    requires
        c.regs.len() == 31,
        c.spsr.len() == 5,
        c.wf(),
        b.io.ime,
        bit16(b.io.interrupt_enable, 1),
        bit16(b.ppu.regs.disp_stat, 4),
        step_signals(cycle).0,
    ensures
        match tick_result(c, b, cycle).2 {
            Tick::Halted => false,
            Tick::Executed(e) => e.pc == 0x18 && !e.thumb,
            Tick::Undefined => true,
        },
{
    reveal(tick_result);
    let b0 = after_display(b, cycle);
    let s = b.ppu.regs.disp_stat;
    let flagged = with_bit16(s, 2, step_vcount(cycle) == (s >> 8) as u8);
    lemma_interrupt_bits(s, 2, step_vcount(cycle) == (s >> 8) as u8, 0, 0);
    lemma_interrupt_bits(flagged, 0, false, 0, 0);
    lemma_interrupt_bits(flagged, 0, true, 0, 0);
    lemma_interrupt_bits(flagged, 1, false, 0, 0);
    lemma_interrupt_bits(flagged, 1, true, 0, 0);
    assert(bit16(b0.ppu.regs.disp_stat, 4));
    lemma_h_blank_interrupt(c, b0, step_signals(cycle).1);
}

/// A cycle reports an undefined instruction only when the processor is
/// awake with such an instruction at its program counter.
proof fn lemma_tick_undefined(c: CpuView, b: BusView, cycle: u32)
    ensures
        ({
            let (c1, b1, t) = tick_result(c, b, cycle);
            t == Tick::Undefined ==> !b1.io.halted && !decode_defined(c1, b1)
        }),
{
    reveal(tick_result);
}

/// How a run of cycles ends: it stops at the breakpoint only with the
/// program counter on it, and at an undefined instruction only with that
/// instruction at the program counter; a completed run has gone through
/// all of its cycles; and the trace, empty unless asked for, holds at most
/// one instruction per cycle.
pub proof fn lemma_run_outcome(
    c: CpuView,
    b: BusView,
    cycle: u32,
    n: nat,
    breakpoint: Option<u32>,
    trace: bool,
)
    requires
        cycle < CYCLES_PER_FRAME,
    ensures
        ({
            let (c2, b2, last, end, log) = run_cycles(c, b, cycle, n, breakpoint, trace);
            &&& end == FrameEnd::Breakpoint ==> breakpoint == Some(c2.pc())
            &&& end == FrameEnd::Undefined ==> !b2.io.halted && !decode_defined(c2, b2)
            &&& end == FrameEnd::Completed ==> last == (cycle + n) % (CYCLES_PER_FRAME as int)
            &&& last < CYCLES_PER_FRAME
            &&& !trace ==> log.len() == 0
            &&& log.len() <= n
        }),
    decreases n,
{
    if n > 0 {
        let next = next_cycle(cycle);
        lemma_tick_undefined(c, b, next);
        lemma_run_outcome(tick_result(c, b, next).0, tick_result(c, b, next).1, next, (n - 1) as nat, breakpoint, trace);
        vstd::arithmetic::div_mod::lemma_add_mod_noop_right(n - 1, cycle + 1, CYCLES_PER_FRAME as int);
    }
}

#[verifier::rlimit(50)]
/// Runs the machine through a frame's worth of cycles (one more than
/// `CYCLES_PER_FRAME`) from the cycle after `cycle`; see `run_cycles`.
/// Returns the last cycle run, how the run ended, and the executed
/// instructions when `trace` is set.
pub fn run_frame(cpu: &mut CPU, bus: &mut SystemBus, cycle: u32, breakpoint: Option<u32>, trace: bool) -> (r: (
    u32,
    FrameEnd,
    Vec<TraceEntry>,
))
    requires
        old(cpu)@.wf(),
        old(bus)@.wf(),
    ensures
        ({
            let (c, b, last, end, log) = run_cycles(
                old(cpu)@,
                old(bus)@,
                cycle,
                (CYCLES_PER_FRAME + 1) as nat,
                breakpoint,
                trace,
            );
            &&& final(cpu)@ == c
            &&& final(bus)@ == b
            &&& r.0 == last
            &&& r.1 == end
            &&& r.2@ == log
        }),
        final(cpu)@.wf(),
        final(bus)@.wf(),
{
    let ghost goal = run_cycles(cpu@, bus@, cycle, (CYCLES_PER_FRAME + 1) as nat, breakpoint, trace);
    let mut log: Vec<TraceEntry> = Vec::new();
    let mut current = cycle;
    let mut i: u32 = 0;
    while i <= CYCLES_PER_FRAME
        invariant
            i <= CYCLES_PER_FRAME + 1,
            cpu@.wf(),
            bus@.wf(),
            ({
                let (c, b, last, end, rest) = run_cycles(
                    cpu@,
                    bus@,
                    current,
                    (CYCLES_PER_FRAME + 1 - i) as nat,
                    breakpoint,
                    trace,
                );
                goal == (c, b, last, end, log@ + rest)
            }),
            i == 0 ==> log@ == Seq::<TraceEntry>::empty(),
            goal == run_cycles(old(cpu)@, old(bus)@, cycle, (CYCLES_PER_FRAME + 1) as nat, breakpoint, trace),
        decreases CYCLES_PER_FRAME + 1 - i,
    {
        let ghost before_log = log@;
        current = ((current as u64 + 1) % (CYCLES_PER_FRAME as u64)) as u32;
        match tick(cpu, bus, current) {
            Tick::Undefined => {
                proof {
                    assert(log@ + Seq::<TraceEntry>::empty() =~= log@);
                }
                return (current, FrameEnd::Undefined, log);
            },
            Tick::Halted => {},
            Tick::Executed(entry) => {
                if trace {
                    log.push(entry);
                }
                if breakpoint == Some(cpu.get_current_pc()) {
                    proof {
                        if trace {
                            assert(before_log + seq![entry] =~= log@);
                        } else {
                            assert(before_log + Seq::<TraceEntry>::empty() =~= log@);
                        }
                    }
                    return (current, FrameEnd::Breakpoint, log);
                }
                proof {
                    let (c2, b2, last, end, rest) = run_cycles(
                        cpu@,
                        bus@,
                        current,
                        (CYCLES_PER_FRAME + 1 - (i + 1)) as nat,
                        breakpoint,
                        trace,
                    );
                    if trace {
                        assert(before_log + (seq![entry] + rest) =~= log@ + rest);
                    } else {
                        assert(before_log + (Seq::<TraceEntry>::empty() + rest) =~= log@ + rest);
                    }
                }
            },
        }
        i = i + 1;
    }
    proof {
        assert(log@ + Seq::<TraceEntry>::empty() =~= log@);
    }
    (current, FrameEnd::Completed, log)
}

/// A single debugger step: the display advances one cycle and the
/// processor executes the instruction at the program counter, without
/// interrupts and even when halted. Returns the new cycle, or `None`
/// (having only advanced the display) when the instruction is one the
/// processor cannot execute.
pub fn debug_step(cpu: &mut CPU, bus: &mut SystemBus, cycle: u32) -> (r: Option<u32>)
    requires
        old(cpu)@.wf(),
        old(bus)@.wf(),
    ensures
        final(cpu)@.wf(),
        final(bus)@.wf(),
        ({
            let b0 = after_display(old(bus)@, next_cycle(cycle));
            if decode_defined(old(cpu)@, b0) {
                &&& r == Some(next_cycle(cycle))
                &&& (final(cpu)@, final(bus)@) == cpu_step(old(cpu)@, b0)
            } else {
                &&& r is None
                &&& final(cpu)@ == old(cpu)@
                &&& final(bus)@ == b0
            }
        }),
{
    let current = ((cycle as u64 + 1) % (CYCLES_PER_FRAME as u64)) as u32;
    let _ = bus.ppu.step(current);
    if !can_decode(cpu, bus) {
        return None;
    }
    cpu.step(bus);
    Some(current)
}

} // verus!
