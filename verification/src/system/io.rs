//! The interrupt, keypad, sound-bias and power-control registers that are
//! mapped into the I/O region.
use vstd::prelude::*;

use crate::bits::bit16;

verus! {

pub const SOUNDBIAS_ADDRESS: u32 = 0x88;
pub const KEYINPUT_ADDRESS: u32 = 0x130;
pub const IE_ADDRESS: u32 = 0x200;
pub const IF_ADDRESS: u32 = 0x202;
pub const IME_ADDRESS: u32 = 0x208;
pub const POSTFLG_ADDRESS: u32 = 0x300;
pub const HALTCNT_ADDRESS: u32 = 0x301;

/// Key Status (R): one bit per key, set while the key is released.
#[derive(Debug, Clone, Copy)]
pub struct KeyInput(pub u16);

/// Interrupt Enable Register (R/W)
#[derive(Debug, Clone, Copy)]
pub struct IE(pub u16);

/// Interrupt Request Flags / IRQ Acknowledge (R/W)
#[derive(Debug, Clone, Copy)]
pub struct IF(pub u16);

/// Sound PWM Control (R/W)
#[derive(Debug, Clone, Copy)]
pub struct SoundBias(pub u32);

fn set_bit16(v: u16, i: u16, b: bool) -> (r: u16)
    requires
        i < 16,
    ensures
        r == crate::bits::with_bit16(v, i, b),
{
    if b {
        v | (1u16 << i)
    } else {
        v & !(1u16 << i)
    }
}

fn get_bit16(v: u16, i: u16) -> (r: bool)
    requires
        i < 16,
    ensures
        r == bit16(v, i),
{
    (v >> i) & 1 == 1
}

impl KeyInput {
    pub fn set_button_a(&mut self, released: bool)
        ensures
            final(self).0 == crate::bits::with_bit16(old(self).0, 0, released),
    {
        self.0 = set_bit16(self.0, 0, released);
    }

    pub fn set_button_b(&mut self, released: bool)
        ensures
            final(self).0 == crate::bits::with_bit16(old(self).0, 1, released),
    {
        self.0 = set_bit16(self.0, 1, released);
    }

    pub fn set_select(&mut self, released: bool)
        ensures
            final(self).0 == crate::bits::with_bit16(old(self).0, 2, released),
    {
        self.0 = set_bit16(self.0, 2, released);
    }

    pub fn set_start(&mut self, released: bool)
        ensures
            final(self).0 == crate::bits::with_bit16(old(self).0, 3, released),
    {
        self.0 = set_bit16(self.0, 3, released);
    }

    pub fn set_right(&mut self, released: bool)
        ensures
            final(self).0 == crate::bits::with_bit16(old(self).0, 4, released),
    {
        self.0 = set_bit16(self.0, 4, released);
    }

    pub fn set_left(&mut self, released: bool)
        ensures
            final(self).0 == crate::bits::with_bit16(old(self).0, 5, released),
    {
        self.0 = set_bit16(self.0, 5, released);
    }

    pub fn set_up(&mut self, released: bool)
        ensures
            final(self).0 == crate::bits::with_bit16(old(self).0, 6, released),
    {
        self.0 = set_bit16(self.0, 6, released);
    }

    pub fn set_down(&mut self, released: bool)
        ensures
            final(self).0 == crate::bits::with_bit16(old(self).0, 7, released),
    {
        self.0 = set_bit16(self.0, 7, released);
    }

    pub fn set_button_r(&mut self, released: bool)
        ensures
            final(self).0 == crate::bits::with_bit16(old(self).0, 8, released),
    {
        self.0 = set_bit16(self.0, 8, released);
    }

    pub fn set_button_l(&mut self, released: bool)
        ensures
            final(self).0 == crate::bits::with_bit16(old(self).0, 9, released),
    {
        self.0 = set_bit16(self.0, 9, released);
    }
}

impl IE {
    pub fn get_v_blank(&self) -> (r: bool)
        ensures
            r == bit16(self.0, 0),
    {
        get_bit16(self.0, 0)
    }

    pub fn get_h_blank(&self) -> (r: bool)
        ensures
            r == bit16(self.0, 1),
    {
        get_bit16(self.0, 1)
    }

    pub fn get_v_counter_match(&self) -> (r: bool)
        ensures
            r == bit16(self.0, 2),
    {
        get_bit16(self.0, 2)
    }
}

impl IF {
    pub fn get_v_blank(&self) -> (r: bool)
        ensures
            r == bit16(self.0, 0),
    {
        get_bit16(self.0, 0)
    }

    pub fn set_v_blank(&mut self, value: bool)
        ensures
            final(self).0 == crate::bits::with_bit16(old(self).0, 0, value),
    {
        self.0 = set_bit16(self.0, 0, value);
    }

    pub fn get_h_blank(&self) -> (r: bool)
        ensures
            r == bit16(self.0, 1),
    {
        get_bit16(self.0, 1)
    }

    pub fn set_h_blank(&mut self, value: bool)
        ensures
            final(self).0 == crate::bits::with_bit16(old(self).0, 1, value),
    {
        self.0 = set_bit16(self.0, 1, value);
    }

    pub fn get_v_counter_match(&self) -> (r: bool)
        ensures
            r == bit16(self.0, 2),
    {
        get_bit16(self.0, 2)
    }

    pub fn set_v_counter_match(&mut self, value: bool)
        ensures
            final(self).0 == crate::bits::with_bit16(old(self).0, 2, value),
    {
        self.0 = set_bit16(self.0, 2, value);
    }
}

impl SoundBias {
    /// Bias level, bits 9..1.
    pub fn get_bias_level(&self) -> (r: u16)
        ensures
            r == (self.0 >> 1) & 0x1ff,
    {
        let x = self.0;
        proof {
            crate::bits::lemma_and_le_u32(x >> 1, 0x1ff);
        }
        ((x >> 1) & 0x1ff) as u16
    }

    /// Amplitude resolution, bits 15..14.
    pub fn get_amplitude_res(&self) -> (r: u8)
        ensures
            r == (self.0 >> 14) & 3,
    {
        let x = self.0;
        proof {
            crate::bits::lemma_and_le_u32(x >> 14, 3);
        }
        ((x >> 14) & 3) as u8
    }
}

/// The contents of the I/O registers.
#[verifier::ext_equal]
pub struct IoView {
    pub sound_bias: u32,
    pub key_input: u16,
    pub interrupt_enable: u16,
    pub interrupt_request: u16,
    pub ime: bool,
    pub post_flag: u8,
    pub halt_cnt: u8,
    pub halted: bool,
}

/// The register offset addressed: offsets within the region, with the
/// 0x800 mirror at offset 0x8000 of every 64 KiB.
pub open spec fn io_offset(address: u32) -> u32 {
    if address & 0xffff == 0x8000 {
        0x800
    } else {
        address & 0x00ff_ffff
    }
}

/// Byte `shift / 8` of a 16-bit register.
pub open spec fn byte16(v: u16, shift: u32) -> u8 {
    ((v >> shift) & 0xff) as u8
}

/// A 16-bit register with byte `shift / 8` replaced.
pub open spec fn put_byte16(v: u16, shift: u32, b: u8) -> u16 {
    (v & !(0xffu16 << shift)) | ((b as u16) << shift)
}

/// A 32-bit register with byte `shift / 8` replaced.
pub open spec fn put_byte32(v: u32, shift: u32, b: u8) -> u32 {
    (v & !(0xffu32 << shift)) | ((b as u32) << shift)
}

impl IoView {
    /// Power-on state: sound bias 0x200, everything else clear.
    pub open spec fn power_on() -> IoView {
        IoView {
            sound_bias: 0x200,
            key_input: 0,
            interrupt_enable: 0,
            interrupt_request: 0,
            ime: false,
            post_flag: 0,
            halt_cnt: 0,
            halted: false,
        }
    }

    pub open spec fn read_8(self, address: u32) -> u8 {
        let addr = io_offset(address);
        let shift: u32 = ((addr & 1) * 8) as u32;
        let a = addr & !1u32;
        if a == SOUNDBIAS_ADDRESS {
            ((self.sound_bias >> shift) & 0xff) as u8
        } else if a == KEYINPUT_ADDRESS {
            byte16(self.key_input, shift)
        } else if a == IE_ADDRESS {
            byte16(self.interrupt_enable, shift)
        } else if a == IF_ADDRESS {
            byte16(self.interrupt_request, shift)
        } else if a == IME_ADDRESS {
            if shift == 0 { if self.ime { 1 } else { 0 } } else { 0 }
        } else if a == POSTFLG_ADDRESS {
            if shift == 0 { self.post_flag } else { 0 }
        } else {
            0
        }
    }

    /// Writing a 1 to a bit of IF acknowledges (clears) that interrupt;
    /// writing HALTCNT halts the processor.
    pub open spec fn write_8(self, address: u32, value: u8) -> IoView {
        let addr = io_offset(address);
        let shift: u32 = ((addr & 1) * 8) as u32;
        let a = addr & !1u32;
        if a == SOUNDBIAS_ADDRESS {
            IoView { sound_bias: put_byte32(self.sound_bias, shift, value), ..self }
        } else if a == IE_ADDRESS {
            IoView { interrupt_enable: put_byte16(self.interrupt_enable, shift, value), ..self }
        } else if a == IF_ADDRESS {
            IoView { interrupt_request: !((value as u16) << shift) & self.interrupt_request, ..self }
        } else if a == IME_ADDRESS {
            if shift == 0 { IoView { ime: value & 1 == 1, ..self } } else { self }
        } else if a == POSTFLG_ADDRESS {
            if addr == HALTCNT_ADDRESS {
                IoView { halt_cnt: value, halted: true, ..self }
            } else {
                IoView { post_flag: value, ..self }
            }
        } else {
            self
        }
    }

    pub open spec fn read_16(self, address: u32) -> u16 {
        let addr = io_offset(address);
        if addr == SOUNDBIAS_ADDRESS {
            self.sound_bias as u16
        } else if addr == KEYINPUT_ADDRESS {
            self.key_input
        } else if addr == IE_ADDRESS {
            self.interrupt_enable
        } else if addr == IF_ADDRESS {
            self.interrupt_request
        } else if addr == IME_ADDRESS {
            if self.ime { 1 } else { 0 }
        } else if addr == POSTFLG_ADDRESS {
            self.post_flag as u16
        } else {
            0
        }
    }

    pub open spec fn write_16(self, address: u32, value: u16) -> IoView {
        let addr = io_offset(address);
        if addr == IE_ADDRESS {
            IoView { interrupt_enable: value, ..self }
        } else if addr == IF_ADDRESS {
            IoView { interrupt_request: !value & self.interrupt_request, ..self }
        } else if addr == IME_ADDRESS {
            IoView { ime: value & 1 == 1, ..self }
        } else if addr == POSTFLG_ADDRESS {
            IoView { post_flag: value as u8, halt_cnt: (value >> 8) as u8, halted: true, ..self }
        } else if addr == SOUNDBIAS_ADDRESS {
            IoView { sound_bias: (self.sound_bias & 0xffff_0000) | (value as u32), ..self }
        } else {
            self
        }
    }

    pub open spec fn read_32(self, address: u32) -> u32 {
        let addr = io_offset(address);
        if addr == SOUNDBIAS_ADDRESS {
            self.sound_bias
        } else if addr == KEYINPUT_ADDRESS {
            self.key_input as u32
        } else if addr == IE_ADDRESS {
            self.interrupt_enable as u32 | ((self.interrupt_request as u32) << 16)
        } else if addr == IME_ADDRESS {
            if self.ime { 1 } else { 0 }
        } else if addr == POSTFLG_ADDRESS {
            self.post_flag as u32
        } else {
            0
        }
    }

    /// A word written at IE sets IE from its low half and acknowledges the
    /// IF bits set in its high half: the word at IE holds IE in its low half
    /// and IF, the IRQ acknowledge register, in its high half, as a word read
    /// there returns them.
    pub open spec fn write_32(self, address: u32, value: u32) -> IoView {
        let addr = io_offset(address);
        if addr == IE_ADDRESS {
            IoView {
                interrupt_enable: value as u16,
                interrupt_request: !((value >> 16) as u16) & self.interrupt_request,
                ..self
            }
        } else if addr == IME_ADDRESS {
            IoView { ime: value & 1 == 1, ..self }
        } else if addr == POSTFLG_ADDRESS {
            IoView { post_flag: value as u8, halt_cnt: (value >> 8) as u8, halted: true, ..self }
        } else if addr == SOUNDBIAS_ADDRESS {
            IoView { sound_bias: value, ..self }
        } else {
            self
        }
    }
}

/// Represents the hardware registers mapped to memory
pub struct IORegisters {
    sound_bias: SoundBias,
    key_input: KeyInput,
    interrupt_enable: IE,
    interrupt_request: IF,
    ime: bool,
    post_flag: u8,
    halt_cnt: u8,
    pub halted: bool,
}

impl View for IORegisters {
    type V = IoView;

    closed spec fn view(&self) -> IoView {
        IoView {
            sound_bias: self.sound_bias.0,
            key_input: self.key_input.0,
            interrupt_enable: self.interrupt_enable.0,
            interrupt_request: self.interrupt_request.0,
            ime: self.ime,
            post_flag: self.post_flag,
            halt_cnt: self.halt_cnt,
            halted: self.halted,
        }
    }
}

fn io_addr(address: u32) -> (r: u32)
    ensures
        r == io_offset(address),
{
    if address & 0xffff == 0x8000 {
        0x800
    } else {
        address & 0x00ff_ffff
    }
}

impl IORegisters {
    /// Power-on state: sound bias 0x200, everything else clear.
    pub fn new() -> (r: Self)
        ensures
            r@ == IoView::power_on(),
    {
        Self {
            sound_bias: SoundBias(0x200),
            key_input: KeyInput(0),
            interrupt_enable: IE(0),
            interrupt_request: IF(0),
            ime: false,
            post_flag: 0,
            halt_cnt: 0,
            halted: false,
        }
    }

    /// The key status register, for the keypad to update.
    pub fn get_mut_key_input(&mut self) -> (r: &mut KeyInput)
        ensures
            r.0 == old(self)@.key_input,
            final(self)@ == (IoView { key_input: final(r).0, ..old(self)@ }),
    {
        &mut self.key_input
    }

    pub fn get_ie(&self) -> (r: &IE)
        ensures
            r.0 == self@.interrupt_enable,
    {
        &self.interrupt_enable
    }

    pub fn get_if(&self) -> (r: &IF)
        ensures
            r.0 == self@.interrupt_request,
    {
        &self.interrupt_request
    }

    /// The interrupt request flags, for the hardware to raise requests.
    pub fn get_mut_if(&mut self) -> (r: &mut IF)
        ensures
            r.0 == old(self)@.interrupt_request,
            final(self)@ == (IoView { interrupt_request: final(r).0, ..old(self)@ }),
    {
        &mut self.interrupt_request
    }

    pub fn get_ime(&self) -> (r: bool)
        ensures
            r == self@.ime,
    {
        self.ime
    }

    pub fn get_sound_bias(&self) -> (r: &SoundBias)
        ensures
            r.0 == self@.sound_bias,
    {
        &self.sound_bias
    }

    /// Whether the last HALTCNT write asked for STOP rather than HALT.
    pub fn get_is_stop(&self) -> (r: bool)
        ensures
            r == ((self@.halt_cnt >> 7) & 1 == 1),
    {
        (self.halt_cnt >> 7) & 1 == 1
    }

    /// Whether the processor waits for an interrupt.
    pub(crate) fn is_halted(&self) -> (r: bool)
        ensures
            r == self@.halted,
    {
        self.halted
    }

    /// Clears the halted state (an interrupt wakes the processor).
    pub fn set_halted(&mut self, halted: bool)
        ensures
            final(self)@ == (IoView { halted, ..old(self)@ }),
    {
        self.halted = halted;
    }

    pub fn read_8(&self, address: u32) -> (r: u8)
        ensures
            r == self@.read_8(address),
    {
        let addr = io_addr(address);
        proof {
            crate::bits::lemma_and_le_u32(addr, 1);
        }
        let shift: u32 = (addr & 0x1) * 8;
        let a = addr & !0x1u32;
        proof {
            let sb = self.sound_bias.0;
            let k = self.key_input.0;
            let e = self.interrupt_enable.0;
            let f = self.interrupt_request.0;
            crate::bits::lemma_and_le_u32(sb >> shift, 0xff);
            crate::bits::lemma_and_le_u16(k >> (shift as u16), 0xff);
            crate::bits::lemma_and_le_u16(e >> (shift as u16), 0xff);
            crate::bits::lemma_and_le_u16(f >> (shift as u16), 0xff);
        }
        if a == SOUNDBIAS_ADDRESS {
            ((self.sound_bias.0 >> shift) & 0xff) as u8
        } else if a == KEYINPUT_ADDRESS {
            ((self.key_input.0 >> shift) & 0xff) as u8
        } else if a == IE_ADDRESS {
            ((self.interrupt_enable.0 >> shift) & 0xff) as u8
        } else if a == IF_ADDRESS {
            ((self.interrupt_request.0 >> shift) & 0xff) as u8
        } else if a == IME_ADDRESS {
            if shift == 0 {
                if self.ime { 1 } else { 0 }
            } else {
                0
            }
        } else if a == POSTFLG_ADDRESS {
            if shift == 0 {
                self.post_flag
            } else {
                0
            }
        } else {
            0x0
        }
    }

    pub fn write_8(&mut self, address: u32, value: u8)
        ensures
            final(self)@ == old(self)@.write_8(address, value),
    {
        let addr = io_addr(address);
        proof {
            crate::bits::lemma_and_le_u32(addr, 1);
        }
        let shift: u32 = (addr & 0x1) * 8;
        let a = addr & !0x1u32;
        if a == SOUNDBIAS_ADDRESS {
            self.sound_bias.0 = (self.sound_bias.0 & !(0xffu32 << shift)) | ((value as u32) << shift);
        } else if a == IE_ADDRESS {
            self.interrupt_enable.0 = (self.interrupt_enable.0 & !(0xffu16 << shift)) | ((value as u16)
                << shift);
        } else if a == IF_ADDRESS {
            let current_if = self.interrupt_request.0;
            self.interrupt_request.0 = !((value as u16) << shift) & current_if;
        } else if a == IME_ADDRESS {
            if shift == 0 {
                self.ime = value & 1 == 1;
            }
        } else if a == POSTFLG_ADDRESS {
            if addr == HALTCNT_ADDRESS {
                self.halt_cnt = value;
                self.halted = true;
            } else {
                self.post_flag = value;
            }
        }
    }

    pub fn read_16(&self, address: u32) -> (r: u16)
        ensures
            r == self@.read_16(address),
    {
        let addr = io_addr(address);
        if addr == SOUNDBIAS_ADDRESS {
            self.sound_bias.0 as u16
        } else if addr == KEYINPUT_ADDRESS {
            self.key_input.0
        } else if addr == IE_ADDRESS {
            self.interrupt_enable.0
        } else if addr == IF_ADDRESS {
            self.interrupt_request.0
        } else if addr == IME_ADDRESS {
            if self.ime { 1 } else { 0 }
        } else if addr == POSTFLG_ADDRESS {
            self.post_flag as u16
        } else {
            0x0
        }
    }

    pub fn write_16(&mut self, address: u32, value: u16)
        ensures
            final(self)@ == old(self)@.write_16(address, value),
    {
        let addr = io_addr(address);
        if addr == IE_ADDRESS {
            self.interrupt_enable.0 = value;
        } else if addr == IF_ADDRESS {
            let current_if = self.interrupt_request.0;
            self.interrupt_request.0 = !value & current_if;
        } else if addr == IME_ADDRESS {
            self.ime = value & 1 == 1;
        } else if addr == POSTFLG_ADDRESS {
            self.post_flag = value as u8;
            self.halt_cnt = (value >> 8) as u8;
            self.halted = true;
        } else if addr == SOUNDBIAS_ADDRESS {
            self.sound_bias.0 = (self.sound_bias.0 & 0xffff_0000) | (value as u32);
        }
    }

    pub fn read_32(&self, address: u32) -> (r: u32)
        ensures
            r == self@.read_32(address),
    {
        let addr = io_addr(address);
        if addr == SOUNDBIAS_ADDRESS {
            self.sound_bias.0
        } else if addr == KEYINPUT_ADDRESS {
            self.key_input.0 as u32
        } else if addr == IE_ADDRESS {
            self.interrupt_enable.0 as u32 | ((self.interrupt_request.0 as u32) << 16)
        } else if addr == IME_ADDRESS {
            if self.ime { 1 } else { 0 }
        } else if addr == POSTFLG_ADDRESS {
            self.post_flag as u32
        } else {
            0x0
        }
    }

    pub fn write_32(&mut self, address: u32, value: u32)
        ensures
            final(self)@ == old(self)@.write_32(address, value),
    {
        let addr = io_addr(address);
        if addr == IE_ADDRESS {
            self.interrupt_enable.0 = value as u16;
            let current_if = self.interrupt_request.0;
            self.interrupt_request.0 = !((value >> 16) as u16) & current_if;
        } else if addr == IME_ADDRESS {
            self.ime = value & 1 == 1;
        } else if addr == POSTFLG_ADDRESS {
            self.post_flag = value as u8;
            self.halt_cnt = (value >> 8) as u8;
            self.halted = true;
        } else if addr == SOUNDBIAS_ADDRESS {
            self.sound_bias.0 = value;
        }
    }
}

/// Bit facts behind the register laws: the addresses of IE, IF and
/// SOUNDBIAS are their own offsets, acknowledging clears exactly the bits
/// written, and a half-word written into SOUNDBIAS reads back.
proof fn lemma_register_bits(value: u16, x: u16, i: u16, s: u32)
    by (bit_vector)
    requires
        i < 16,
    ensures
        IF_ADDRESS & 0xffff != 0x8000,
        IF_ADDRESS & 0x00ff_ffff == IF_ADDRESS,
        IE_ADDRESS & 0xffff != 0x8000,
        IE_ADDRESS & 0x00ff_ffff == IE_ADDRESS,
        SOUNDBIAS_ADDRESS & 0xffff != 0x8000,
        SOUNDBIAS_ADDRESS & 0x00ff_ffff == SOUNDBIAS_ADDRESS,
        (value >> i) & 1u16 == 1u16 ==> ((!value & x) >> i) & 1u16 != 1u16,
        (value >> i) & 1u16 != 1u16 ==> ((((!value & x) >> i) & 1u16 == 1u16) == ((x >> i) & 1u16 == 1u16)),
        ((s & 0xffff_0000) | (value as u32)) as u16 == value,
{
}

/// Writing a 1 to a bit of IF clears that request and leaves the others;
/// writing 0 changes nothing.
pub proof fn lemma_if_acknowledge(r: IoView, value: u16, i: u16)
    requires
        i < 16,
    ensures
        bit16(value, i) ==> !bit16(r.write_16(IF_ADDRESS, value).interrupt_request, i),
        !bit16(value, i) ==> bit16(r.write_16(IF_ADDRESS, value).interrupt_request, i) == bit16(
            r.interrupt_request,
            i,
        ),
{
    lemma_register_bits(value, r.interrupt_request, i, r.sound_bias);
}

/// A word written at IE acknowledges IF with its high half, as a
/// half-word written at IF does: the bits set there are cleared, the others
/// kept.
pub proof fn lemma_if_acknowledge_word(r: IoView, value: u32, i: u16)
    requires
        i < 16,
    ensures
        r.write_32(IE_ADDRESS, value).interrupt_request == r.write_16(IF_ADDRESS, (value >> 16) as u16).interrupt_request,
        bit16((value >> 16) as u16, i) ==> !bit16(r.write_32(IE_ADDRESS, value).interrupt_request, i),
        !bit16((value >> 16) as u16, i) ==> bit16(r.write_32(IE_ADDRESS, value).interrupt_request, i)
            == bit16(r.interrupt_request, i),
{
    lemma_register_bits((value >> 16) as u16, r.interrupt_request, i, r.sound_bias);
}

/// A register written with a half-word reads back the same half-word
/// (IE, IME's low bit, and the low half of SOUNDBIAS).
pub proof fn lemma_io_read_after_write_16(r: IoView, value: u16)
    ensures
        r.write_16(IE_ADDRESS, value).read_16(IE_ADDRESS) == value,
        r.write_16(SOUNDBIAS_ADDRESS, value).read_16(SOUNDBIAS_ADDRESS) == value,
{
    lemma_register_bits(value, r.interrupt_request, 0, r.sound_bias);
}

} // verus!
