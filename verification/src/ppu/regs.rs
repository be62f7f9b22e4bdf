//! The display registers of the picture processing unit and their
//! half-word read/write interface.
use vstd::prelude::*;

use crate::system::io::put_byte16;

verus! {

pub const DISP_CNT_ADDRESS: u32 = 0x0;
pub const DISP_STAT_ADDRESS: u32 = 0x4;
pub const VCOUNT_ADDRESS: u32 = 0x6;
pub const BG0_CNT_ADDRESS: u32 = 0x8;
pub const BG1_CNT_ADDRESS: u32 = 0xa;
pub const BG2_CNT_ADDRESS: u32 = 0xc;
pub const BG3_CNT_ADDRESS: u32 = 0xe;
pub const BG0_HOFS_ADDRESS: u32 = 0x10;
pub const BG0_VOFS_ADDRESS: u32 = 0x12;
pub const BG1_HOFS_ADDRESS: u32 = 0x14;
pub const BG1_VOFS_ADDRESS: u32 = 0x16;
pub const BG2_HOFS_ADDRESS: u32 = 0x18;
pub const BG2_VOFS_ADDRESS: u32 = 0x1a;
pub const BG3_HOFS_ADDRESS: u32 = 0x1c;
pub const BG3_VOFS_ADDRESS: u32 = 0x1e;
pub const BG2_PA_ADDRESS: u32 = 0x20;
pub const BG2_PB_ADDRESS: u32 = 0x22;
pub const BG2_PC_ADDRESS: u32 = 0x24;
pub const BG2_PD_ADDRESS: u32 = 0x26;
pub const BG2_X_LO_ADDRESS: u32 = 0x28;
pub const BG2_X_HI_ADDRESS: u32 = 0x2a;
pub const BG2_Y_LO_ADDRESS: u32 = 0x2c;
pub const BG2_Y_HI_ADDRESS: u32 = 0x2e;
pub const BG3_PA_ADDRESS: u32 = 0x30;
pub const BG3_PB_ADDRESS: u32 = 0x32;
pub const BG3_PC_ADDRESS: u32 = 0x34;
pub const BG3_PD_ADDRESS: u32 = 0x36;
pub const BG3_X_LO_ADDRESS: u32 = 0x38;
pub const BG3_X_HI_ADDRESS: u32 = 0x3a;
pub const BG3_Y_LO_ADDRESS: u32 = 0x3c;
pub const BG3_Y_HI_ADDRESS: u32 = 0x3e;
pub const WIN0_H_ADDRESS: u32 = 0x40;
pub const WIN1_H_ADDRESS: u32 = 0x42;
pub const WIN0_V_ADDRESS: u32 = 0x44;
pub const WIN1_V_ADDRESS: u32 = 0x46;
pub const WIN_IN_ADDRESS: u32 = 0x48;
pub const WIN_OUT_ADDRESS: u32 = 0x4a;
pub const MOSAIC_LO_ADDRESS: u32 = 0x4c;
pub const BLD_CNT_ADDRESS: u32 = 0x50;
pub const BLD_ALPHA_ADDRESS: u32 = 0x52;
pub const BLD_Y_LO_ADDRESS: u32 = 0x54;

/// The raw contents of the display registers.
#[derive(Debug, Clone, Copy)]
pub struct PpuRegisters {
    pub disp_cnt: u16,
    pub disp_stat: u16,
    pub v_count: u8,
    pub bg0_cnt: u16,
    pub bg1_cnt: u16,
    pub bg2_cnt: u16,
    pub bg3_cnt: u16,
    pub bg0_hofs: u16,
    pub bg0_vofs: u16,
    pub bg1_hofs: u16,
    pub bg1_vofs: u16,
    pub bg2_hofs: u16,
    pub bg2_vofs: u16,
    pub bg3_hofs: u16,
    pub bg3_vofs: u16,
    pub bg2_pa: u16,
    pub bg2_pb: u16,
    pub bg2_pc: u16,
    pub bg2_pd: u16,
    /// 28-bit fixed point reference point, bits 31..28 always zero.
    pub bg2_x: u32,
    pub bg2_y: u32,
    pub bg3_pa: u16,
    pub bg3_pb: u16,
    pub bg3_pc: u16,
    pub bg3_pd: u16,
    pub bg3_x: u32,
    pub bg3_y: u32,
    pub win0_h: u16,
    pub win1_h: u16,
    pub win0_v: u16,
    pub win1_v: u16,
    pub win_in: u16,
    pub win_out: u16,
    pub mosaic: u16,
    pub bld_cnt: u16,
    pub bld_alpha: u16,
    pub bld_y: u16,
}

/// The low half of a 28-bit reference point register.
pub open spec fn ref_lo(x: u32) -> u16 {
    (x & 0xffff) as u16
}

/// The high half (bits 27..16) of a 28-bit reference point register.
pub open spec fn ref_hi(x: u32) -> u16 {
    ((x >> 16) & 0xfff) as u16
}

/// A reference point register with bits 15..0 replaced.
pub open spec fn set_ref_lo(x: u32, v: u16) -> u32 {
    (x & 0xffff_0000) | (v as u32)
}

/// A reference point register with bits 27..16 replaced by the low twelve
/// bits of `v`.
pub open spec fn set_ref_hi(x: u32, v: u16) -> u32 {
    (x & 0xf000_ffff) | (((v as u32) & 0xfff) << 16)
}

impl PpuRegisters {
    /// All registers zero.
    pub open spec fn spec_zeroed() -> PpuRegisters {
        PpuRegisters {
            disp_cnt: 0,
            disp_stat: 0,
            v_count: 0,
            bg0_cnt: 0,
            bg1_cnt: 0,
            bg2_cnt: 0,
            bg3_cnt: 0,
            bg0_hofs: 0,
            bg0_vofs: 0,
            bg1_hofs: 0,
            bg1_vofs: 0,
            bg2_hofs: 0,
            bg2_vofs: 0,
            bg3_hofs: 0,
            bg3_vofs: 0,
            bg2_pa: 0,
            bg2_pb: 0,
            bg2_pc: 0,
            bg2_pd: 0,
            bg2_x: 0,
            bg2_y: 0,
            bg3_pa: 0,
            bg3_pb: 0,
            bg3_pc: 0,
            bg3_pd: 0,
            bg3_x: 0,
            bg3_y: 0,
            win0_h: 0,
            win1_h: 0,
            win0_v: 0,
            win1_v: 0,
            win_in: 0,
            win_out: 0,
            mosaic: 0,
            bld_cnt: 0,
            bld_alpha: 0,
            bld_y: 0,
        }
    }

    pub fn zeroed() -> (r: PpuRegisters)
        ensures
            r == Self::spec_zeroed(),
    {
        PpuRegisters {
            disp_cnt: 0,
            disp_stat: 0,
            v_count: 0,
            bg0_cnt: 0,
            bg1_cnt: 0,
            bg2_cnt: 0,
            bg3_cnt: 0,
            bg0_hofs: 0,
            bg0_vofs: 0,
            bg1_hofs: 0,
            bg1_vofs: 0,
            bg2_hofs: 0,
            bg2_vofs: 0,
            bg3_hofs: 0,
            bg3_vofs: 0,
            bg2_pa: 0,
            bg2_pb: 0,
            bg2_pc: 0,
            bg2_pd: 0,
            bg2_x: 0,
            bg2_y: 0,
            bg3_pa: 0,
            bg3_pb: 0,
            bg3_pc: 0,
            bg3_pd: 0,
            bg3_x: 0,
            bg3_y: 0,
            win0_h: 0,
            win1_h: 0,
            win0_v: 0,
            win1_v: 0,
            win_in: 0,
            win_out: 0,
            mosaic: 0,
            bld_cnt: 0,
            bld_alpha: 0,
            bld_y: 0,
        }
    }

    /// The half-word read at register offset `addr`: only the readable
    /// registers answer, every other offset reads as zero.
    pub open spec fn spec_read_16(self, addr: u32) -> u16 {
        if addr == DISP_CNT_ADDRESS {
            self.disp_cnt
        } else if addr == DISP_STAT_ADDRESS {
            self.disp_stat
        } else if addr == VCOUNT_ADDRESS {
            self.v_count as u16
        } else if addr == BG0_CNT_ADDRESS {
            self.bg0_cnt
        } else if addr == BG1_CNT_ADDRESS {
            self.bg1_cnt
        } else if addr == BG2_CNT_ADDRESS {
            self.bg2_cnt
        } else if addr == BG3_CNT_ADDRESS {
            self.bg3_cnt
        } else if addr == WIN_IN_ADDRESS {
            self.win_in
        } else if addr == WIN_OUT_ADDRESS {
            self.win_out
        } else if addr == BLD_CNT_ADDRESS {
            self.bld_cnt
        } else if addr == BLD_ALPHA_ADDRESS {
            self.bld_alpha
        } else {
            0
        }
    }

    /// The half-word stored at register offset `addr`, write-only registers
    /// included; the base of a partial write.
    pub open spec fn spec_raw_16(self, addr: u32) -> u16 {
        if addr == DISP_CNT_ADDRESS { self.disp_cnt }
        else if addr == DISP_STAT_ADDRESS { self.disp_stat }
        else if addr == BG0_CNT_ADDRESS { self.bg0_cnt }
        else if addr == BG1_CNT_ADDRESS { self.bg1_cnt }
        else if addr == BG2_CNT_ADDRESS { self.bg2_cnt }
        else if addr == BG3_CNT_ADDRESS { self.bg3_cnt }
        else if addr == BG0_HOFS_ADDRESS { self.bg0_hofs }
        else if addr == BG0_VOFS_ADDRESS { self.bg0_vofs }
        else if addr == BG1_HOFS_ADDRESS { self.bg1_hofs }
        else if addr == BG1_VOFS_ADDRESS { self.bg1_vofs }
        else if addr == BG2_HOFS_ADDRESS { self.bg2_hofs }
        else if addr == BG2_VOFS_ADDRESS { self.bg2_vofs }
        else if addr == BG3_HOFS_ADDRESS { self.bg3_hofs }
        else if addr == BG3_VOFS_ADDRESS { self.bg3_vofs }
        else if addr == BG2_PA_ADDRESS { self.bg2_pa }
        else if addr == BG2_PB_ADDRESS { self.bg2_pb }
        else if addr == BG2_PC_ADDRESS { self.bg2_pc }
        else if addr == BG2_PD_ADDRESS { self.bg2_pd }
        else if addr == BG2_X_LO_ADDRESS { ref_lo(self.bg2_x) }
        else if addr == BG2_X_HI_ADDRESS { ref_hi(self.bg2_x) }
        else if addr == BG2_Y_LO_ADDRESS { ref_lo(self.bg2_y) }
        else if addr == BG2_Y_HI_ADDRESS { ref_hi(self.bg2_y) }
        else if addr == BG3_PA_ADDRESS { self.bg3_pa }
        else if addr == BG3_PB_ADDRESS { self.bg3_pb }
        else if addr == BG3_PC_ADDRESS { self.bg3_pc }
        else if addr == BG3_PD_ADDRESS { self.bg3_pd }
        else if addr == BG3_X_LO_ADDRESS { ref_lo(self.bg3_x) }
        else if addr == BG3_X_HI_ADDRESS { ref_hi(self.bg3_x) }
        else if addr == BG3_Y_LO_ADDRESS { ref_lo(self.bg3_y) }
        else if addr == BG3_Y_HI_ADDRESS { ref_hi(self.bg3_y) }
        else if addr == WIN0_H_ADDRESS { self.win0_h }
        else if addr == WIN1_H_ADDRESS { self.win1_h }
        else if addr == WIN0_V_ADDRESS { self.win0_v }
        else if addr == WIN1_V_ADDRESS { self.win1_v }
        else if addr == WIN_IN_ADDRESS { self.win_in }
        else if addr == WIN_OUT_ADDRESS { self.win_out }
        else if addr == MOSAIC_LO_ADDRESS { self.mosaic }
        else if addr == BLD_CNT_ADDRESS { self.bld_cnt }
        else if addr == BLD_ALPHA_ADDRESS { self.bld_alpha }
        else if addr == BLD_Y_LO_ADDRESS { self.bld_y }
        else { 0 }
    }

    /// The registers after writing half-word `v` at register offset `addr`
    /// (VCOUNT is read-only; unknown offsets are ignored).
    pub open spec fn spec_write_16(self, addr: u32, v: u16) -> PpuRegisters {
        if addr == DISP_CNT_ADDRESS { PpuRegisters { disp_cnt: v, ..self } }
        else if addr == DISP_STAT_ADDRESS { PpuRegisters { disp_stat: v, ..self } }
        else if addr == BG0_CNT_ADDRESS { PpuRegisters { bg0_cnt: v, ..self } }
        else if addr == BG1_CNT_ADDRESS { PpuRegisters { bg1_cnt: v, ..self } }
        else if addr == BG2_CNT_ADDRESS { PpuRegisters { bg2_cnt: v, ..self } }
        else if addr == BG3_CNT_ADDRESS { PpuRegisters { bg3_cnt: v, ..self } }
        else if addr == BG0_HOFS_ADDRESS { PpuRegisters { bg0_hofs: v, ..self } }
        else if addr == BG0_VOFS_ADDRESS { PpuRegisters { bg0_vofs: v, ..self } }
        else if addr == BG1_HOFS_ADDRESS { PpuRegisters { bg1_hofs: v, ..self } }
        else if addr == BG1_VOFS_ADDRESS { PpuRegisters { bg1_vofs: v, ..self } }
        else if addr == BG2_HOFS_ADDRESS { PpuRegisters { bg2_hofs: v, ..self } }
        else if addr == BG2_VOFS_ADDRESS { PpuRegisters { bg2_vofs: v, ..self } }
        else if addr == BG3_HOFS_ADDRESS { PpuRegisters { bg3_hofs: v, ..self } }
        else if addr == BG3_VOFS_ADDRESS { PpuRegisters { bg3_vofs: v, ..self } }
        else if addr == BG2_PA_ADDRESS { PpuRegisters { bg2_pa: v, ..self } }
        else if addr == BG2_PB_ADDRESS { PpuRegisters { bg2_pb: v, ..self } }
        else if addr == BG2_PC_ADDRESS { PpuRegisters { bg2_pc: v, ..self } }
        else if addr == BG2_PD_ADDRESS { PpuRegisters { bg2_pd: v, ..self } }
        else if addr == BG2_X_LO_ADDRESS { PpuRegisters { bg2_x: set_ref_lo(self.bg2_x, v), ..self } }
        else if addr == BG2_X_HI_ADDRESS { PpuRegisters { bg2_x: set_ref_hi(self.bg2_x, v), ..self } }
        else if addr == BG2_Y_LO_ADDRESS { PpuRegisters { bg2_y: set_ref_lo(self.bg2_y, v), ..self } }
        else if addr == BG2_Y_HI_ADDRESS { PpuRegisters { bg2_y: set_ref_hi(self.bg2_y, v), ..self } }
        else if addr == BG3_PA_ADDRESS { PpuRegisters { bg3_pa: v, ..self } }
        else if addr == BG3_PB_ADDRESS { PpuRegisters { bg3_pb: v, ..self } }
        else if addr == BG3_PC_ADDRESS { PpuRegisters { bg3_pc: v, ..self } }
        else if addr == BG3_PD_ADDRESS { PpuRegisters { bg3_pd: v, ..self } }
        else if addr == BG3_X_LO_ADDRESS { PpuRegisters { bg3_x: set_ref_lo(self.bg3_x, v), ..self } }
        else if addr == BG3_X_HI_ADDRESS { PpuRegisters { bg3_x: set_ref_hi(self.bg3_x, v), ..self } }
        else if addr == BG3_Y_LO_ADDRESS { PpuRegisters { bg3_y: set_ref_lo(self.bg3_y, v), ..self } }
        else if addr == BG3_Y_HI_ADDRESS { PpuRegisters { bg3_y: set_ref_hi(self.bg3_y, v), ..self } }
        else if addr == WIN0_H_ADDRESS { PpuRegisters { win0_h: v, ..self } }
        else if addr == WIN1_H_ADDRESS { PpuRegisters { win1_h: v, ..self } }
        else if addr == WIN0_V_ADDRESS { PpuRegisters { win0_v: v, ..self } }
        else if addr == WIN1_V_ADDRESS { PpuRegisters { win1_v: v, ..self } }
        else if addr == WIN_IN_ADDRESS { PpuRegisters { win_in: v, ..self } }
        else if addr == WIN_OUT_ADDRESS { PpuRegisters { win_out: v, ..self } }
        else if addr == MOSAIC_LO_ADDRESS { PpuRegisters { mosaic: v, ..self } }
        else if addr == BLD_CNT_ADDRESS { PpuRegisters { bld_cnt: v, ..self } }
        else if addr == BLD_ALPHA_ADDRESS { PpuRegisters { bld_alpha: v, ..self } }
        else if addr == BLD_Y_LO_ADDRESS { PpuRegisters { bld_y: v, ..self } }
        else { self }
    }

    /// A byte read: the addressed byte of the readable half-word.
    pub open spec fn spec_read_8(self, addr: u32) -> u8 {
        let shift: u32 = ((addr & 1) * 8) as u32;
        ((self.spec_read_16(addr & !1u32) >> shift) & 0xff) as u8
    }

    /// A byte write: the addressed byte of the half-word register replaced.
    pub open spec fn spec_write_8(self, addr: u32, v: u8) -> PpuRegisters {
        let a = addr & !1u32;
        let shift: u32 = ((addr & 1) * 8) as u32;
        self.spec_write_16(a, put_byte16(self.spec_raw_16(a), shift, v))
    }

    /// Offsets at which a word access reaches two registers.
    pub open spec fn word_readable(addr: u32) -> bool {
        addr == DISP_CNT_ADDRESS || addr == DISP_STAT_ADDRESS || addr == BG0_CNT_ADDRESS || addr
            == BG2_CNT_ADDRESS || addr == WIN_IN_ADDRESS || addr == BLD_CNT_ADDRESS
    }

    /// A word read: the two half-words at `addr` and `addr + 2`, at the
    /// offsets that support word reads; zero elsewhere.
    pub open spec fn spec_read_32(self, addr: u32) -> u32 {
        if Self::word_readable(addr) {
            self.spec_read_16(addr) as u32 | ((self.spec_read_16((addr + 2) as u32) as u32) << 16)
        } else {
            0
        }
    }

    /// A word write at a word-aligned offset up to 0x54 writes both
    /// half-words; other offsets are ignored.
    pub open spec fn spec_write_32(self, addr: u32, v: u32) -> PpuRegisters {
        if addr % 4 == 0 && addr <= BLD_Y_LO_ADDRESS {
            self.spec_write_16(addr, v as u16).spec_write_16((addr + 2) as u32, (v >> 16) as u16)
        } else {
            self
        }
    }

    pub fn read_16(&self, addr: u32) -> (r: u16)
        ensures
            r == self.spec_read_16(addr),
    {
        match addr {
            DISP_CNT_ADDRESS => self.disp_cnt,
            DISP_STAT_ADDRESS => self.disp_stat,
            VCOUNT_ADDRESS => self.v_count as u16,
            BG0_CNT_ADDRESS => self.bg0_cnt,
            BG1_CNT_ADDRESS => self.bg1_cnt,
            BG2_CNT_ADDRESS => self.bg2_cnt,
            BG3_CNT_ADDRESS => self.bg3_cnt,
            WIN_IN_ADDRESS => self.win_in,
            WIN_OUT_ADDRESS => self.win_out,
            BLD_CNT_ADDRESS => self.bld_cnt,
            BLD_ALPHA_ADDRESS => self.bld_alpha,
            _ => 0x0,
        }
    }

    fn raw_16(&self, addr: u32) -> (r: u16)
        ensures
            r == self.spec_raw_16(addr),
    {
        match addr {
            DISP_CNT_ADDRESS => self.disp_cnt,
            DISP_STAT_ADDRESS => self.disp_stat,
            BG0_CNT_ADDRESS => self.bg0_cnt,
            BG1_CNT_ADDRESS => self.bg1_cnt,
            BG2_CNT_ADDRESS => self.bg2_cnt,
            BG3_CNT_ADDRESS => self.bg3_cnt,
            BG0_HOFS_ADDRESS => self.bg0_hofs,
            BG0_VOFS_ADDRESS => self.bg0_vofs,
            BG1_HOFS_ADDRESS => self.bg1_hofs,
            BG1_VOFS_ADDRESS => self.bg1_vofs,
            BG2_HOFS_ADDRESS => self.bg2_hofs,
            BG2_VOFS_ADDRESS => self.bg2_vofs,
            BG3_HOFS_ADDRESS => self.bg3_hofs,
            BG3_VOFS_ADDRESS => self.bg3_vofs,
            BG2_PA_ADDRESS => self.bg2_pa,
            BG2_PB_ADDRESS => self.bg2_pb,
            BG2_PC_ADDRESS => self.bg2_pc,
            BG2_PD_ADDRESS => self.bg2_pd,
            BG2_X_LO_ADDRESS => (self.bg2_x & 0xffff) as u16,
            BG2_X_HI_ADDRESS => ((self.bg2_x >> 16) & 0xfff) as u16,
            BG2_Y_LO_ADDRESS => (self.bg2_y & 0xffff) as u16,
            BG2_Y_HI_ADDRESS => ((self.bg2_y >> 16) & 0xfff) as u16,
            BG3_PA_ADDRESS => self.bg3_pa,
            BG3_PB_ADDRESS => self.bg3_pb,
            BG3_PC_ADDRESS => self.bg3_pc,
            BG3_PD_ADDRESS => self.bg3_pd,
            BG3_X_LO_ADDRESS => (self.bg3_x & 0xffff) as u16,
            BG3_X_HI_ADDRESS => ((self.bg3_x >> 16) & 0xfff) as u16,
            BG3_Y_LO_ADDRESS => (self.bg3_y & 0xffff) as u16,
            BG3_Y_HI_ADDRESS => ((self.bg3_y >> 16) & 0xfff) as u16,
            WIN0_H_ADDRESS => self.win0_h,
            WIN1_H_ADDRESS => self.win1_h,
            WIN0_V_ADDRESS => self.win0_v,
            WIN1_V_ADDRESS => self.win1_v,
            WIN_IN_ADDRESS => self.win_in,
            WIN_OUT_ADDRESS => self.win_out,
            MOSAIC_LO_ADDRESS => self.mosaic,
            BLD_CNT_ADDRESS => self.bld_cnt,
            BLD_ALPHA_ADDRESS => self.bld_alpha,
            BLD_Y_LO_ADDRESS => self.bld_y,
            _ => 0,
        }
    }

    pub fn write_16(&mut self, addr: u32, value: u16)
        ensures
            *final(self) == old(self).spec_write_16(addr, value),
    {
        match addr {
            DISP_CNT_ADDRESS => self.disp_cnt = value,
            DISP_STAT_ADDRESS => self.disp_stat = value,
            BG0_CNT_ADDRESS => self.bg0_cnt = value,
            BG1_CNT_ADDRESS => self.bg1_cnt = value,
            BG2_CNT_ADDRESS => self.bg2_cnt = value,
            BG3_CNT_ADDRESS => self.bg3_cnt = value,
            BG0_HOFS_ADDRESS => self.bg0_hofs = value,
            BG0_VOFS_ADDRESS => self.bg0_vofs = value,
            BG1_HOFS_ADDRESS => self.bg1_hofs = value,
            BG1_VOFS_ADDRESS => self.bg1_vofs = value,
            BG2_HOFS_ADDRESS => self.bg2_hofs = value,
            BG2_VOFS_ADDRESS => self.bg2_vofs = value,
            BG3_HOFS_ADDRESS => self.bg3_hofs = value,
            BG3_VOFS_ADDRESS => self.bg3_vofs = value,
            BG2_PA_ADDRESS => self.bg2_pa = value,
            BG2_PB_ADDRESS => self.bg2_pb = value,
            BG2_PC_ADDRESS => self.bg2_pc = value,
            BG2_PD_ADDRESS => self.bg2_pd = value,
            BG2_X_LO_ADDRESS => self.bg2_x = (self.bg2_x & 0xffff_0000) | (value as u32),
            BG2_X_HI_ADDRESS => self.bg2_x = (self.bg2_x & 0xf000_ffff) | (((value as u32) & 0xfff) << 16),
            BG2_Y_LO_ADDRESS => self.bg2_y = (self.bg2_y & 0xffff_0000) | (value as u32),
            BG2_Y_HI_ADDRESS => self.bg2_y = (self.bg2_y & 0xf000_ffff) | (((value as u32) & 0xfff) << 16),
            BG3_PA_ADDRESS => self.bg3_pa = value,
            BG3_PB_ADDRESS => self.bg3_pb = value,
            BG3_PC_ADDRESS => self.bg3_pc = value,
            BG3_PD_ADDRESS => self.bg3_pd = value,
            BG3_X_LO_ADDRESS => self.bg3_x = (self.bg3_x & 0xffff_0000) | (value as u32),
            BG3_X_HI_ADDRESS => self.bg3_x = (self.bg3_x & 0xf000_ffff) | (((value as u32) & 0xfff) << 16),
            BG3_Y_LO_ADDRESS => self.bg3_y = (self.bg3_y & 0xffff_0000) | (value as u32),
            BG3_Y_HI_ADDRESS => self.bg3_y = (self.bg3_y & 0xf000_ffff) | (((value as u32) & 0xfff) << 16),
            WIN0_H_ADDRESS => self.win0_h = value,
            WIN1_H_ADDRESS => self.win1_h = value,
            WIN0_V_ADDRESS => self.win0_v = value,
            WIN1_V_ADDRESS => self.win1_v = value,
            WIN_IN_ADDRESS => self.win_in = value,
            WIN_OUT_ADDRESS => self.win_out = value,
            MOSAIC_LO_ADDRESS => self.mosaic = value,
            BLD_CNT_ADDRESS => self.bld_cnt = value,
            BLD_ALPHA_ADDRESS => self.bld_alpha = value,
            BLD_Y_LO_ADDRESS => self.bld_y = value,
            _ => {},
        }
    }

    pub fn read_8(&self, addr: u32) -> (r: u8)
        ensures
            r == self.spec_read_8(addr),
    {
        proof {
            crate::bits::lemma_and_le_u32(addr, 1);
        }
        let shift: u32 = (addr & 1) * 8;
        let h = self.read_16(addr & !1u32);
        proof {
            crate::bits::lemma_and_le_u16(h >> (shift as u16), 0xff);
        }
        ((h >> shift) & 0xff) as u8
    }

    pub fn write_8(&mut self, addr: u32, value: u8)
        ensures
            *final(self) == old(self).spec_write_8(addr, value),
    {
        proof {
            crate::bits::lemma_and_le_u32(addr, 1);
        }
        let a = addr & !1u32;
        let shift: u32 = (addr & 1) * 8;
        let raw = self.raw_16(a);
        let merged = (raw & !(0xffu16 << shift)) | ((value as u16) << shift);
        self.write_16(a, merged);
    }

    pub fn read_32(&self, addr: u32) -> (r: u32)
        ensures
            r == self.spec_read_32(addr),
    {
        if addr == DISP_CNT_ADDRESS || addr == DISP_STAT_ADDRESS || addr == BG0_CNT_ADDRESS || addr
            == BG2_CNT_ADDRESS || addr == WIN_IN_ADDRESS || addr == BLD_CNT_ADDRESS {
            self.read_16(addr) as u32 | ((self.read_16(addr + 2) as u32) << 16)
        } else {
            0x0
        }
    }

    pub fn write_32(&mut self, addr: u32, value: u32)
        ensures
            *final(self) == old(self).spec_write_32(addr, value),
    {
        if addr % 4 == 0 && addr <= BLD_Y_LO_ADDRESS {
            self.write_16(addr, value as u16);
            self.write_16(addr + 2, (value >> 16) as u16);
        }
    }
}

/// A half-word written to a readable and writable register reads back.
pub proof fn lemma_register_read_after_write(r: PpuRegisters, addr: u32, v: u16)
    requires
        addr == DISP_CNT_ADDRESS || addr == DISP_STAT_ADDRESS || addr == BG0_CNT_ADDRESS || addr
            == BG1_CNT_ADDRESS || addr == BG2_CNT_ADDRESS || addr == BG3_CNT_ADDRESS || addr
            == WIN_IN_ADDRESS || addr == WIN_OUT_ADDRESS || addr == BLD_CNT_ADDRESS || addr
            == BLD_ALPHA_ADDRESS,
    ensures
        r.spec_write_16(addr, v).spec_read_16(addr) == v,
        r.spec_write_16(addr, v).spec_raw_16(addr) == v,
{
}

/// VCOUNT is read-only: writes of any width leave it unchanged.
pub proof fn lemma_vcount_read_only(r: PpuRegisters, addr: u32, v16: u16, v8: u8, v32: u32)
    ensures
        r.spec_write_16(addr, v16).v_count == r.v_count,
        r.spec_write_8(addr, v8).v_count == r.v_count,
        r.spec_write_32(addr, v32).v_count == r.v_count,
{
}

} // verus!
