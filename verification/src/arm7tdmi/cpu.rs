//! The processor state: the banked register file and the status registers.
use vstd::prelude::*;

use crate::bits::{bit32, with_bit32};
use crate::arm7tdmi::psr::{PSR, psr_mode, with_mode, lemma_with_bit_keeps_mode, lemma_with_mode};
use crate::arm7tdmi::{EOperatingMode, EExceptionType, mode_bits, valid_mode, mode_from_bits};

verus! {

// Special registers
pub const STACK_POINTER_REGISTER: u8 = 13;
pub const LINK_REGISTER_REGISTER: u8 = 14;
pub const PROGRAM_COUNTER_REGISTER: u8 = 15;

/// Where register `i` of mode `mode` lives in the physical register file:
/// slots 0..=15 hold the registers shared with User mode, 16..=22 the FIQ
/// registers r8..r14, and then r13 and r14 of Supervisor (23, 24), Abort
/// (25, 26), IRQ (27, 28) and Undefined (29, 30) mode.
pub open spec fn phys_index(mode: u32, i: int) -> int {
    if i < 8 || i == 15 {
        i
    } else if mode == 0x11 {
        16 + (i - 8)
    } else if i < 13 {
        i
    } else if mode == 0x13 {
        23 + (i - 13)
    } else if mode == 0x17 {
        25 + (i - 13)
    } else if mode == 0x12 {
        27 + (i - 13)
    } else if mode == 0x1b {
        29 + (i - 13)
    } else {
        i
    }
}

/// Which saved PSR belongs to a mode: 0 FIQ, 1 Supervisor, 2 Abort, 3 IRQ,
/// 4 Undefined; none (-1) for User and System mode.
pub open spec fn spsr_slot(mode: u32) -> int {
    if mode == 0x11 {
        0
    } else if mode == 0x13 {
        1
    } else if mode == 0x17 {
        2
    } else if mode == 0x12 {
        3
    } else if mode == 0x1b {
        4
    } else {
        -1
    }
}

/// The abstract processor state.
#[verifier::ext_equal]
pub struct CpuView {
    /// The 31 physical registers (see `phys_index`).
    pub regs: Seq<u32>,
    /// The current program status register.
    pub cpsr: u32,
    /// The five saved program status registers (see `spsr_slot`).
    pub spsr: Seq<u32>,
}

impl CpuView {
    pub open spec fn mode(self) -> u32 {
        psr_mode(self.cpsr)
    }

    /// The processor is in one of the seven modes.
    pub open spec fn wf(self) -> bool {
        valid_mode(self.mode())
    }

    /// THUMB state.
    pub open spec fn thumb(self) -> bool {
        bit32(self.cpsr, 5)
    }

    pub open spec fn flag_c(self) -> bool {
        bit32(self.cpsr, 29)
    }

    /// The address of the instruction being executed.
    pub open spec fn pc(self) -> u32 {
        self.regs[15]
    }

    /// Register `i` as the current mode sees it.
    pub open spec fn reg(self, i: int) -> u32 {
        self.regs[phys_index(self.mode(), i)]
    }

    /// Register `i` as an instruction operand: the program counter reads
    /// two instructions ahead (8 bytes in ARM state, 4 in THUMB state).
    pub open spec fn operand(self, i: int) -> u32 {
        if i == 15 {
            self.regs[15].wrapping_add(if self.thumb() { 4u32 } else { 8u32 })
        } else {
            self.reg(i)
        }
    }

    /// Writes register `i` of the current mode.
    pub open spec fn set_reg(self, i: int, v: u32) -> CpuView {
        CpuView { regs: self.regs.update(phys_index(self.mode(), i), v), ..self }
    }

    /// The saved PSR of mode `m`; the CPSR for modes without one.
    pub open spec fn spsr_of(self, m: u32) -> u32 {
        if spsr_slot(m) >= 0 {
            self.spsr[spsr_slot(m)]
        } else {
            self.cpsr
        }
    }

    /// Writes the saved PSR of mode `m` (the CPSR for modes without one).
    pub open spec fn with_spsr(self, m: u32, v: u32) -> CpuView {
        if spsr_slot(m) >= 0 {
            CpuView { spsr: self.spsr.update(spsr_slot(m), v), ..self }
        } else {
            CpuView { cpsr: v, ..self }
        }
    }

    pub open spec fn with_cpsr(self, v: u32) -> CpuView {
        CpuView { cpsr: v, ..self }
    }

    pub open spec fn set_flag(self, bit: u32, b: bool) -> CpuView {
        CpuView { cpsr: with_bit32(self.cpsr, bit, b), ..self }
    }

    pub open spec fn set_n(self, b: bool) -> CpuView {
        self.set_flag(31, b)
    }

    pub open spec fn set_z(self, b: bool) -> CpuView {
        self.set_flag(30, b)
    }

    pub open spec fn set_c(self, b: bool) -> CpuView {
        self.set_flag(29, b)
    }

    pub open spec fn set_v(self, b: bool) -> CpuView {
        self.set_flag(28, b)
    }

    pub open spec fn set_t(self, b: bool) -> CpuView {
        self.set_flag(5, b)
    }

    pub open spec fn set_mode(self, m: u32) -> CpuView {
        CpuView { cpsr: with_mode(self.cpsr, m), ..self }
    }

    /// The register file as the current mode sees it, without the
    /// program-counter read-ahead.
    pub open spec fn visible_registers(self) -> Seq<u32> {
        Seq::new(16, |i: int| self.reg(i))
    }
}

/// The state after taking exception `kind`: the old CPSR is saved in the
/// SPSR of the exception's mode, the link register of that mode holds the
/// return address, the processor enters ARM state with IRQs disabled (and
/// FIQs too for Reset and FIQ) and continues at the exception vector.
pub open spec fn exception_mode(kind: EExceptionType) -> u32 {
    match kind {
        EExceptionType::Reset => 0x13,
        EExceptionType::Undefined => 0x1b,
        EExceptionType::SoftwareInterrupt => 0x13,
        EExceptionType::PrefetchAbort => 0x17,
        EExceptionType::DataAbort => 0x17,
        EExceptionType::Irq => 0x12,
        EExceptionType::Fiq => 0x11,
    }
}

pub open spec fn exception_vector(kind: EExceptionType) -> u32 {
    match kind {
        EExceptionType::Reset => 0x00,
        EExceptionType::Undefined => 0x04,
        EExceptionType::SoftwareInterrupt => 0x08,
        EExceptionType::PrefetchAbort => 0x0c,
        EExceptionType::DataAbort => 0x10,
        EExceptionType::Irq => 0x18,
        EExceptionType::Fiq => 0x1c,
    }
}

/// The return address saved in the link register: the next instruction for
/// an undefined instruction or a software interrupt (taken while that
/// instruction executes), the next instruction plus 4 for an interrupt or
/// a prefetch abort (taken between instructions), and the aborted
/// instruction plus 8 for a data abort.
pub open spec fn exception_return(c: CpuView, kind: EExceptionType) -> u32 {
    match kind {
        EExceptionType::Reset => c.pc(),
        EExceptionType::Undefined => c.pc().wrapping_add(if c.thumb() { 2u32 } else { 4u32 }),
        EExceptionType::SoftwareInterrupt => c.pc().wrapping_add(if c.thumb() { 2u32 } else { 4u32 }),
        EExceptionType::PrefetchAbort => c.pc().wrapping_add(4),
        EExceptionType::DataAbort => c.pc().wrapping_add(8),
        EExceptionType::Irq => c.pc().wrapping_add(4),
        EExceptionType::Fiq => c.pc().wrapping_add(4),
    }
}

pub open spec fn exception_disables_fiq(kind: EExceptionType) -> bool {
    kind == EExceptionType::Reset || kind == EExceptionType::Fiq
}

pub open spec fn take_exception(c: CpuView, kind: EExceptionType) -> CpuView {
    let m = exception_mode(kind);
    let entered = c.set_mode(m).with_spsr(m, c.cpsr);
    let linked = entered.set_reg(14, exception_return(c, kind));
    let masked = linked.set_t(false).set_flag(7, true);
    let masked2 = if exception_disables_fiq(kind) { masked.set_flag(6, true) } else { masked };
    masked2.set_reg(15, exception_vector(kind))
}

/// The processor: registers, banked registers and status registers.
pub struct CPU {
    regs: [u32; 31],
    cpsr: PSR,
    spsr_fiq: PSR,
    spsr_svc: PSR,
    spsr_abt: PSR,
    spsr_irq: PSR,
    spsr_und: PSR,
}

impl View for CPU {
    type V = CpuView;

    closed spec fn view(&self) -> CpuView {
        CpuView {
            regs: self.regs@,
            cpsr: self.cpsr@,
            spsr: seq![self.spsr_fiq@, self.spsr_svc@, self.spsr_abt@, self.spsr_irq@, self.spsr_und@],
        }
    }
}

/// The physical slot of register `index` in mode `mode`.
fn phys(mode: u32, index: u8) -> (r: usize)
    requires
        index < 16,
    ensures
        r as int == phys_index(mode, index as int),
        r < 31,
{
    if index < 8 || index == 15 {
        index as usize
    } else if mode == 0x11 {
        16 + (index as usize - 8)
    } else if index < 13 {
        index as usize
    } else if mode == 0x13 {
        23 + (index as usize - 13)
    } else if mode == 0x17 {
        25 + (index as usize - 13)
    } else if mode == 0x12 {
        27 + (index as usize - 13)
    } else if mode == 0x1b {
        29 + (index as usize - 13)
    } else {
        index as usize
    }
}

impl CPU {
    /// Lengths of the view's sequences.
    pub proof fn lemma_view_lens(&self)
        ensures
            self@.regs.len() == 31,
            self@.spsr.len() == 5,
    {
        broadcast use vstd::array::array_len_matches_n;
        assert(self.regs@.len() == 31);
    }

    /// A processor with all registers zero and every PSR in System mode.
    pub fn new() -> (r: Self)
        ensures
            r@.regs == Seq::new(31, |i: int| 0u32),
            r@.cpsr == 0x1fu32,
            r@.spsr == seq![0x1fu32, 0x1fu32, 0x1fu32, 0x1fu32, 0x1fu32],
            r@.wf(),
    {
        let r = Self {
            regs: [0; 31],
            cpsr: PSR::new(),
            spsr_fiq: PSR::new(),
            spsr_svc: PSR::new(),
            spsr_abt: PSR::new(),
            spsr_irq: PSR::new(),
            spsr_und: PSR::new(),
        };
        proof {
            broadcast use vstd::array::axiom_spec_array_fill_for_copy_type;
            broadcast use vstd::array::array_len_matches_n;
            assert(r@.regs =~= Seq::new(31, |i: int| 0u32));
            lemma_with_mode(0, 0x1f);
        }
        r
    }

    /// The sixteen registers as the current mode sees them (the program
    /// counter without read-ahead).
    pub fn get_registers(&self) -> (r: Vec<u32>)
        requires
            self@.wf(),
        ensures
            r@ == self@.visible_registers(),
    {
        let mode = self.cpsr.get_mode_bits();
        let mut result: Vec<u32> = Vec::new();
        let mut i: u8 = 0;
        while i < 16
            invariant
                i <= 16,
                mode == self@.mode(),
                result@ == self@.visible_registers().take(i as int),
            decreases 16 - i,
        {
            proof {
                self.lemma_view_lens();
            }
            let p = phys(mode, i);
            result.push(self.regs[p]);
            proof {
                assert(self@.visible_registers().take(i as int + 1) =~= self@.visible_registers().take(
                    i as int,
                ).push(self@.reg(i as int)));
            }
            i = i + 1;
        }
        proof {
            assert(self@.visible_registers().take(16) =~= self@.visible_registers());
        }
        result
    }

    /// The address of the instruction being executed.
    pub fn get_current_pc(&self) -> (r: u32)
        ensures
            r == self@.pc(),
    {
        proof {
            self.lemma_view_lens();
        }
        self.regs[15]
    }

    /// Register `index` as an instruction operand (see `CpuView::operand`).
    pub fn get_register_value(&self, index: u8) -> (r: u32)
        requires
            index < 16,
            index != 15 ==> self@.wf(),
        ensures
            r == self@.operand(index as int),
    {
        proof {
            self.lemma_view_lens();
        }
        if index == PROGRAM_COUNTER_REGISTER {
            let pc_offset: u32 = if self.get_cpsr().get_t() { 4 } else { 8 };
            return self.regs[15].wrapping_add(pc_offset);
        }
        let mode = self.get_operating_mode();
        let p = phys(mode.to_u8() as u32, index);
        self.regs[p]
    }

    /// Writes register `index` of the current mode.
    pub fn set_register_value(&mut self, index: u8, value: u32)
        requires
            index < 16,
            old(self)@.wf(),
        ensures
            final(self)@ == old(self)@.set_reg(index as int, value),
    {
        proof {
            self.lemma_view_lens();
        }
        let mode = self.get_operating_mode();
        let p = phys(mode.to_u8() as u32, index);
        self.regs[p] = value;
        proof {
            broadcast use vstd::array::array_len_matches_n;
            assert(final(self)@.regs =~= old(self)@.regs.update(p as int, value));
        }
    }

    pub fn get_cpsr(&self) -> (r: &PSR)
        ensures
            r@ == self@.cpsr,
    {
        &self.cpsr
    }

    pub fn get_mut_cpsr(&mut self) -> (r: &mut PSR)
        ensures
            r@ == old(self)@.cpsr,
            final(self)@ == old(self)@.with_cpsr(final(r)@),
    {
        &mut self.cpsr
    }

    /// The saved PSR of `mode` (the CPSR for User and System mode).
    pub fn get_spsr(&self, mode: EOperatingMode) -> (r: &PSR)
        ensures
            r@ == self@.spsr_of(mode_bits(mode)),
    {
        match mode {
            EOperatingMode::FiqMode => &self.spsr_fiq,
            EOperatingMode::IrqMode => &self.spsr_irq,
            EOperatingMode::SupervisorMode => &self.spsr_svc,
            EOperatingMode::AbortMode => &self.spsr_abt,
            EOperatingMode::UndefinedMode => &self.spsr_und,
            _ => &self.cpsr,
        }
    }

    /// The saved PSR of `mode`, to be changed in place (the CPSR for User and
    /// System mode).
    pub fn get_mut_spsr(&mut self, mode: EOperatingMode) -> (r: &mut PSR)
        ensures
            r@ == old(self)@.spsr_of(mode_bits(mode)),
            final(self)@ == old(self)@.with_spsr(mode_bits(mode), final(r)@),
    {
        match mode {
            EOperatingMode::FiqMode => &mut self.spsr_fiq,
            EOperatingMode::IrqMode => &mut self.spsr_irq,
            EOperatingMode::SupervisorMode => &mut self.spsr_svc,
            EOperatingMode::AbortMode => &mut self.spsr_abt,
            EOperatingMode::UndefinedMode => &mut self.spsr_und,
            _ => &mut self.cpsr,
        }
    }

    /// Replaces the saved PSR of `mode` (the CPSR for User and System mode).
    pub fn set_spsr_value(&mut self, mode: EOperatingMode, value: u32)
        ensures
            final(self)@ == old(self)@.with_spsr(mode_bits(mode), value),
    {
        match mode {
            EOperatingMode::FiqMode => self.spsr_fiq.set_value(value),
            EOperatingMode::IrqMode => self.spsr_irq.set_value(value),
            EOperatingMode::SupervisorMode => self.spsr_svc.set_value(value),
            EOperatingMode::AbortMode => self.spsr_abt.set_value(value),
            EOperatingMode::UndefinedMode => self.spsr_und.set_value(value),
            _ => self.cpsr.set_value(value),
        }
        proof {
            assert(final(self)@.spsr =~= old(self)@.with_spsr(mode_bits(mode), value).spsr);
        }
    }

    /// The current operating mode.
    pub fn get_operating_mode(&self) -> (r: EOperatingMode)
        requires
            self@.wf(),
        ensures
            mode_bits(r) == self@.mode(),
    {
        match EOperatingMode::from_u32(self.cpsr.get_mode_bits()) {
            Some(m) => m,
            None => {
                proof {
                    assert(false);
                }
                EOperatingMode::SystemMode
            },
        }
    }

    /// Enters `mode`.
    pub fn set_operating_mode(&mut self, mode: EOperatingMode)
        ensures
            final(self)@ == old(self)@.set_mode(mode_bits(mode)),
            final(self)@.wf(),
            final(self)@.mode() == mode_bits(mode),
    {
        self.cpsr.set_mode_bits(mode.to_u8());
        proof {
            lemma_with_mode(old(self)@.cpsr, mode_bits(mode));
        }
    }

    /// Switches from `old_mode` to `new_mode`. Banked registers are chosen
    /// by the mode at each access, so switching only records the new mode.
    pub fn change_operating_mode(&mut self, new_mode: EOperatingMode, old_mode: EOperatingMode)
        ensures
            final(self)@ == old(self)@.set_mode(mode_bits(new_mode)),
            final(self)@.wf(),
    {
        self.set_operating_mode(new_mode);
    }

    /// Takes exception `kind` (see `take_exception`).
    pub fn exception(&mut self, kind: EExceptionType)
        requires
            old(self)@.wf(),
        ensures
            final(self)@ == take_exception(old(self)@, kind),
            final(self)@.wf(),
    {
        proof {
            self.lemma_view_lens();
        }
        let (mode, vector, disable_fiq) = match kind {
            EExceptionType::Reset => (EOperatingMode::SupervisorMode, 0x00u32, true),
            EExceptionType::Undefined => (EOperatingMode::UndefinedMode, 0x04u32, false),
            EExceptionType::SoftwareInterrupt => (EOperatingMode::SupervisorMode, 0x08u32, false),
            EExceptionType::PrefetchAbort => (EOperatingMode::AbortMode, 0x0cu32, false),
            EExceptionType::DataAbort => (EOperatingMode::AbortMode, 0x10u32, false),
            EExceptionType::Irq => (EOperatingMode::IrqMode, 0x18u32, false),
            EExceptionType::Fiq => (EOperatingMode::FiqMode, 0x1cu32, true),
        };
        let pc = self.regs[15];
        let thumb = self.cpsr.get_t();
        let return_address = match kind {
            EExceptionType::Reset => pc,
            EExceptionType::Undefined | EExceptionType::SoftwareInterrupt => pc.wrapping_add(
                if thumb { 2 } else { 4 },
            ),
            EExceptionType::DataAbort => pc.wrapping_add(8),
            _ => pc.wrapping_add(4),
        };
        let old_cpsr = self.cpsr.get_value();
        self.set_operating_mode(mode);
        self.set_spsr_value(mode, old_cpsr);
        self.set_register_value(LINK_REGISTER_REGISTER, return_address);
        let ghost c0 = self.cpsr@;
        self.cpsr.set_t(false);
        let ghost c1 = self.cpsr@;
        self.cpsr.set_i(true);
        proof {
            lemma_with_bit_keeps_mode(c0, 5, false);
            lemma_with_bit_keeps_mode(c1, 7, true);
        }
        if disable_fiq {
            let ghost c2 = self.cpsr@;
            self.cpsr.set_f(true);
            proof {
                lemma_with_bit_keeps_mode(c2, 6, true);
            }
        }
        self.set_register_value(PROGRAM_COUNTER_REGISTER, vector);
    }
}

} // verus!

verus! {

/// Each mode sees sixteen distinct physical registers.
pub proof fn lemma_phys_index_injective(mode: u32, i: int, j: int)
    requires
        0 <= i < 16,
        0 <= j < 16,
        i != j,
    ensures
        phys_index(mode, i) != phys_index(mode, j),
        0 <= phys_index(mode, i) < 31,
{
}

/// A register write reads back, and leaves every other register of the
/// same mode, the status registers and the mode unchanged.
pub proof fn lemma_register_read_after_write(c: CpuView, i: int, j: int, v: u32)
    requires
        c.regs.len() == 31,
        0 <= i < 16,
        0 <= j < 16,
    ensures
        c.set_reg(i, v).reg(i) == v,
        i != j ==> c.set_reg(i, v).reg(j) == c.reg(j),
        c.set_reg(i, v).cpsr == c.cpsr,
        c.set_reg(i, v).spsr == c.spsr,
        c.set_reg(i, v).regs.len() == 31,
{
}

/// Banking: a write to r13 or r14 of a privileged exception mode (or to
/// r8..r14 of FIQ mode) is not seen in User or System mode, and a write in
/// User or System mode is not seen by those banked registers.
pub proof fn lemma_banked_registers_isolated(c: CpuView, i: int, v: u32, j: int)
    requires
        c.regs.len() == 31,
        0 <= j < 16,
        8 <= i < 15,
        c.mode() == 0x11 || (i >= 13 && (c.mode() == 0x12 || c.mode() == 0x13 || c.mode() == 0x17
            || c.mode() == 0x1b)),
    ensures
        c.set_reg(i, v).set_mode(0x10).reg(j) == c.set_mode(0x10).reg(j),
        c.set_reg(i, v).set_mode(0x1f).reg(j) == c.set_mode(0x1f).reg(j),
{
    crate::arm7tdmi::psr::lemma_with_mode(c.cpsr, 0x10);
    crate::arm7tdmi::psr::lemma_with_mode(c.cpsr, 0x1f);
    crate::arm7tdmi::psr::lemma_with_mode(c.set_reg(i, v).cpsr, 0x10);
    crate::arm7tdmi::psr::lemma_with_mode(c.set_reg(i, v).cpsr, 0x1f);
}

/// User and System mode share one register file.
pub proof fn lemma_user_system_share_registers(c: CpuView, j: int)
    requires
        0 <= j < 16,
    ensures
        c.set_mode(0x10).reg(j) == c.set_mode(0x1f).reg(j),
{
    crate::arm7tdmi::psr::lemma_with_mode(c.cpsr, 0x10);
    crate::arm7tdmi::psr::lemma_with_mode(c.cpsr, 0x1f);
}

/// An exception saves the interrupted CPSR in the exception mode's SPSR,
/// enters that mode in ARM state with IRQs masked, and jumps to the vector.
pub proof fn lemma_exception_entry(c: CpuView, kind: EExceptionType)
    requires
        c.regs.len() == 31,
        c.spsr.len() == 5,
        c.wf(),
    ensures
        take_exception(c, kind).mode() == exception_mode(kind),
        take_exception(c, kind).spsr_of(exception_mode(kind)) == c.cpsr,
        take_exception(c, kind).pc() == exception_vector(kind),
        take_exception(c, kind).reg(14) == exception_return(c, kind),
        !take_exception(c, kind).thumb(),
        bit32(take_exception(c, kind).cpsr, 7),
{
    let m = exception_mode(kind);
    crate::arm7tdmi::psr::lemma_with_mode(c.cpsr, m);
    let e = c.set_mode(m).with_spsr(m, c.cpsr);
    let l = e.set_reg(14, exception_return(c, kind));
    crate::bits::lemma_with_bit32(l.cpsr, 5, false);
    lemma_with_bit_keeps_mode(l.cpsr, 5, false);
    let t = l.set_t(false);
    crate::bits::lemma_with_bit32(t.cpsr, 7, true);
    lemma_with_bit_keeps_mode(t.cpsr, 7, true);
    let mk = t.set_flag(7, true);
    crate::bits::lemma_with_bit32(mk.cpsr, 6, true);
    lemma_with_bit_keeps_mode(mk.cpsr, 6, true);
}

} // verus!

verus! {

/// Whether restoring the CPSR from the current mode's SPSR lands in a
/// valid mode (always true in User and System mode, where nothing is
/// restored).
pub open spec fn restore_ok(c: CpuView) -> bool {
    c.mode() == 0x10 || c.mode() == 0x1f || valid_mode(psr_mode(c.spsr_of(c.mode())))
}

/// Returning from an exception: in a privileged mode other than System the
/// CPSR is reloaded from the mode's SPSR; in User and System mode nothing
/// happens.
pub open spec fn restore_spsr(c: CpuView) -> CpuView {
    if c.mode() == 0x10 || c.mode() == 0x1f {
        c
    } else {
        c.with_cpsr(c.spsr_of(c.mode()))
    }
}

/// Setting a PSR's mode field to the mode it already has changes nothing.
pub proof fn lemma_with_own_mode(v: u32)
    ensures
        with_mode(v, psr_mode(v)) == v,
{
    lemma_with_mode(v, 0);
}

/// Returning from an exception (reloading the CPSR from the exception
/// mode's SPSR) gives back the status word the exception interrupted, and
/// with it that mode's view of r0..r14 when the exception was taken from
/// another mode.
pub proof fn lemma_exception_return(c: CpuView, kind: EExceptionType, j: int)
    requires
        c.regs.len() == 31,
        c.spsr.len() == 5,
        c.wf(),
        0 <= j < 15,
    ensures
        restore_ok(take_exception(c, kind)),
        restore_spsr(take_exception(c, kind)).cpsr == c.cpsr,
        c.mode() != exception_mode(kind) ==> restore_spsr(take_exception(c, kind)).reg(j) == c.reg(j),
{
    lemma_exception_entry(c, kind);
    let t = take_exception(c, kind);
    let m = exception_mode(kind);
    assert(t.mode() != 0x10 && t.mode() != 0x1f);
    assert(restore_spsr(t).cpsr == c.cpsr);
    let e = c.set_mode(m).with_spsr(m, c.cpsr);
    assert(e.regs == c.regs);
    crate::arm7tdmi::psr::lemma_with_mode(c.cpsr, m);
    assert(e.mode() == m);
}

impl CPU {
    pub fn set_flag_n(&mut self, b: bool)
        ensures
            final(self)@ == old(self)@.set_n(b),
            final(self)@.mode() == old(self)@.mode(),
    {
        let ghost c = self.cpsr@;
        self.cpsr.set_n(b);
        proof {
            lemma_with_bit_keeps_mode(c, 31, b);
        }
    }

    pub fn set_flag_z(&mut self, b: bool)
        ensures
            final(self)@ == old(self)@.set_z(b),
            final(self)@.mode() == old(self)@.mode(),
    {
        let ghost c = self.cpsr@;
        self.cpsr.set_z(b);
        proof {
            lemma_with_bit_keeps_mode(c, 30, b);
        }
    }

    pub fn set_flag_c(&mut self, b: bool)
        ensures
            final(self)@ == old(self)@.set_c(b),
            final(self)@.mode() == old(self)@.mode(),
    {
        let ghost c = self.cpsr@;
        self.cpsr.set_c(b);
        proof {
            lemma_with_bit_keeps_mode(c, 29, b);
        }
    }

    pub fn set_flag_v(&mut self, b: bool)
        ensures
            final(self)@ == old(self)@.set_v(b),
            final(self)@.mode() == old(self)@.mode(),
    {
        let ghost c = self.cpsr@;
        self.cpsr.set_v(b);
        proof {
            lemma_with_bit_keeps_mode(c, 28, b);
        }
    }

    pub fn set_flag_t(&mut self, b: bool)
        ensures
            final(self)@ == old(self)@.set_t(b),
            final(self)@.mode() == old(self)@.mode(),
    {
        let ghost c = self.cpsr@;
        self.cpsr.set_t(b);
        proof {
            lemma_with_bit_keeps_mode(c, 5, b);
        }
    }

    /// Overwrites the CPSR with the current mode's SPSR (see `restore_spsr`).
    pub fn restore_cpsr_from_spsr(&mut self)
        requires
            old(self)@.wf(),
            restore_ok(old(self)@),
        ensures
            final(self)@ == restore_spsr(old(self)@),
            final(self)@.wf(),
    {
        let old_mode = self.get_operating_mode();
        if old_mode != EOperatingMode::UserMode && old_mode != EOperatingMode::SystemMode {
            let spsr = self.get_spsr(old_mode).get_value();
            self.cpsr.set_value(spsr);
            let new_mode = self.get_operating_mode();
            self.change_operating_mode(new_mode, old_mode);
            proof {
                lemma_with_own_mode(spsr);
            }
        }
    }
}

} // verus!
