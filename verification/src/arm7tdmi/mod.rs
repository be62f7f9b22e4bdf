//! The ARM7TDMI processor: operating modes, condition codes, the program
//! status registers, the banked register file and the ARM and THUMB
//! instruction sets.
use vstd::prelude::*;

use crate::bits::bit32;

pub mod psr;
pub mod cpu;
pub mod alu;
pub mod arm;
pub mod thumb;


verus! {

/// Processor operating modes, as encoded in the low five bits of a PSR.
#[derive(Debug, Copy, Clone, PartialEq, Eq, Structural)]
pub enum EOperatingMode {
    UserMode,
    FiqMode,
    IrqMode,
    SupervisorMode,
    AbortMode,
    UndefinedMode,
    SystemMode,
}

/// The exceptions the processor can take.
#[derive(Debug, Copy, Clone, PartialEq, Eq, Structural)]
pub enum EExceptionType {
    Reset,
    Undefined,
    SoftwareInterrupt,
    PrefetchAbort,
    DataAbort,
    Irq,
    Fiq,
}

/// Barrel shifter operations.
#[derive(Debug, Copy, Clone, PartialEq, Eq, Structural)]
pub enum EShiftType {
    LSL,
    LSR,
    ASR,
    ROR,
}

/// What the processor must do after an instruction: go on to the next
/// one, or refetch because the program counter was written.
#[derive(Debug, Copy, Clone, PartialEq, Eq, Structural)]
pub enum CpuResult {
    Continue,
    FlushPipeline,
}

/// The five-bit encoding of a mode.
pub open spec fn mode_bits(m: EOperatingMode) -> u32 {
    match m {
        EOperatingMode::UserMode => 0x10,
        EOperatingMode::FiqMode => 0x11,
        EOperatingMode::IrqMode => 0x12,
        EOperatingMode::SupervisorMode => 0x13,
        EOperatingMode::AbortMode => 0x17,
        EOperatingMode::UndefinedMode => 0x1b,
        EOperatingMode::SystemMode => 0x1f,
    }
}

/// Whether `b` encodes one of the seven modes.
pub open spec fn valid_mode(b: u32) -> bool {
    b == 0x10 || b == 0x11 || b == 0x12 || b == 0x13 || b == 0x17 || b == 0x1b || b == 0x1f
}

/// The mode that a valid encoding stands for.
pub open spec fn mode_from_bits(b: u32) -> Option<EOperatingMode> {
    if b == 0x10 {
        Some(EOperatingMode::UserMode)
    } else if b == 0x11 {
        Some(EOperatingMode::FiqMode)
    } else if b == 0x12 {
        Some(EOperatingMode::IrqMode)
    } else if b == 0x13 {
        Some(EOperatingMode::SupervisorMode)
    } else if b == 0x17 {
        Some(EOperatingMode::AbortMode)
    } else if b == 0x1b {
        Some(EOperatingMode::UndefinedMode)
    } else if b == 0x1f {
        Some(EOperatingMode::SystemMode)
    } else {
        None
    }
}

/// Decoding an encoding gives back the mode it encodes, and a mode is found
/// exactly for the valid encodings.
pub proof fn lemma_mode_bits_round_trip(m: EOperatingMode, b: u32)
    ensures
        mode_from_bits(mode_bits(m)) == Some(m),
        valid_mode(mode_bits(m)),
        mode_from_bits(b) is Some <==> valid_mode(b),
        valid_mode(b) ==> mode_bits(mode_from_bits(b).unwrap()) == b,
{
}

impl EOperatingMode {
    /// The five-bit encoding of the mode.
    pub fn to_u8(self) -> (r: u8)
        ensures
            r as u32 == mode_bits(self),
    {
        match self {
            EOperatingMode::UserMode => 0x10,
            EOperatingMode::FiqMode => 0x11,
            EOperatingMode::IrqMode => 0x12,
            EOperatingMode::SupervisorMode => 0x13,
            EOperatingMode::AbortMode => 0x17,
            EOperatingMode::UndefinedMode => 0x1b,
            EOperatingMode::SystemMode => 0x1f,
        }
    }

    /// The mode a five-bit encoding stands for, if any.
    pub fn from_u32(b: u32) -> (r: Option<EOperatingMode>)
        ensures
            r == mode_from_bits(b),
    {
        if b == 0x10 {
            Some(EOperatingMode::UserMode)
        } else if b == 0x11 {
            Some(EOperatingMode::FiqMode)
        } else if b == 0x12 {
            Some(EOperatingMode::IrqMode)
        } else if b == 0x13 {
            Some(EOperatingMode::SupervisorMode)
        } else if b == 0x17 {
            Some(EOperatingMode::AbortMode)
        } else if b == 0x1b {
            Some(EOperatingMode::UndefinedMode)
        } else if b == 0x1f {
            Some(EOperatingMode::SystemMode)
        } else {
            None
        }
    }
}

impl EShiftType {
    /// The shift type encoded by the two bits `b`.
    pub open spec fn spec_from_bits(b: u32) -> EShiftType {
        if b & 3 == 0 {
            EShiftType::LSL
        } else if b & 3 == 1 {
            EShiftType::LSR
        } else if b & 3 == 2 {
            EShiftType::ASR
        } else {
            EShiftType::ROR
        }
    }

    /// The shift type encoded by the low two bits of `b`.
    pub fn from_bits(b: u32) -> (r: EShiftType)
        ensures
            r == Self::spec_from_bits(b),
    {
        if b & 3 == 0 {
            EShiftType::LSL
        } else if b & 3 == 1 {
            EShiftType::LSR
        } else if b & 3 == 2 {
            EShiftType::ASR
        } else {
            EShiftType::ROR
        }
    }
}

/// The value of the low `bits` bits of `x` read as a two's complement number.
pub open spec fn sign_extended(x: u32, bits: u8) -> int {
    if x as int >= vstd::arithmetic::power2::pow2((bits - 1) as nat) {
        x - vstd::arithmetic::power2::pow2(bits as nat)
    } else {
        x as int
    }
}

/// Flipping the top bit of a `p + 1`-bit number subtracts or adds `2^p`.
proof fn lemma_flip_top_bit(x: u32, p: u32)
    by (bit_vector)
    requires
        p < 31,
        x < (1u32 << (p + 1)),
    ensures
        x >= (1u32 << p) ==> x ^ (1u32 << p) == x - (1u32 << p),
        x < (1u32 << p) ==> x ^ (1u32 << p) == x + (1u32 << p),
{
}

/// Sign-extends the `bits`-bit two's complement number `x` to 32 bits.
pub fn sign_extend(x: u32, bits: u8) -> (r: i32)
    requires
        1 <= bits <= 31,
        (x as int) < vstd::arithmetic::power2::pow2(bits as nat),
    ensures
        r as int == sign_extended(x, bits),
{
    let m: u32 = 1u32 << (bits - 1);
    let xm: u32 = x ^ m;
    proof {
        let p: u32 = (bits - 1) as u32;
        lemma_shl_pow2(p);
        lemma_shl_pow2((p + 1) as u32);
        vstd::arithmetic::power2::lemma_pow2_unfold(bits as nat);
        lemma_flip_top_bit(x, p);
    }
    (xm as i32) - (m as i32)
}

/// `1 << n` is two to the `n`.
pub proof fn lemma_shl_pow2(n: u32)
    requires
        n < 32,
    ensures
        (1u32 << n) as int == vstd::arithmetic::power2::pow2(n as nat),
        (1u64 << n) as int == vstd::arithmetic::power2::pow2(n as nat),
{
    vstd::arithmetic::power2::lemma_pow2_pos(n as nat);
    vstd::arithmetic::power2::lemma_pow2_strictly_increases(n as nat, 32);
    vstd::arithmetic::power2::lemma2_to64();
    vstd::bits::lemma_u32_shl_is_mul(1, n);
    vstd::bits::lemma_u64_shl_is_mul(1, n as u64);
}

/// Whether condition `cond` holds for the flags of `cpsr`.
pub open spec fn cond_holds(cpsr: u32, cond: u8) -> bool {
    let n = bit32(cpsr, 31);
    let z = bit32(cpsr, 30);
    let c = bit32(cpsr, 29);
    let v = bit32(cpsr, 28);
    if cond == 0x0 {
        z
    } else if cond == 0x1 {
        !z
    } else if cond == 0x2 {
        c
    } else if cond == 0x3 {
        !c
    } else if cond == 0x4 {
        n
    } else if cond == 0x5 {
        !n
    } else if cond == 0x6 {
        v
    } else if cond == 0x7 {
        !v
    } else if cond == 0x8 {
        c && !z
    } else if cond == 0x9 {
        !c || z
    } else if cond == 0xa {
        n == v
    } else if cond == 0xb {
        n != v
    } else if cond == 0xc {
        !z && n == v
    } else if cond == 0xd {
        z || n != v
    } else {
        true
    }
}

} // verus!

verus! {

/// Whether condition `cond` holds for the current flags.
pub fn cond_passed(cpu: &cpu::CPU, cond: u8) -> (r: bool)
    ensures
        r == cond_holds(cpu@.cpsr, cond),
{
    let psr = cpu.get_cpsr();
    match cond {
        0x0 => psr.get_z(),  // Equal (Zero)
        0x1 => !psr.get_z(),  // Not Equal (Nonzero)
        0x2 => psr.get_c(),  // Carry set
        0x3 => !psr.get_c(),  // Carry cleared
        0x4 => psr.get_n(),  // Signed negative
        0x5 => !psr.get_n(),  // Signed positive or zero
        0x6 => psr.get_v(),  // Signed overflow
        0x7 => !psr.get_v(),  // Signed no overflow
        0x8 => psr.get_c() && !psr.get_z(),  // Unsigned higher
        0x9 => !psr.get_c() || psr.get_z(),  // Unsigned lower or same
        0xa => psr.get_n() == psr.get_v(),  // Signed greater or equal
        0xb => psr.get_n() != psr.get_v(),  // Signed less than
        0xc => !psr.get_z() && psr.get_n() == psr.get_v(),  // Signed greater than
        0xd => psr.get_z() || psr.get_n() != psr.get_v(),  // Signed less or equal
        _ => true,
    }
}

/// Each even condition and its successor (EQ/NE, CS/CC, MI/PL, VS/VC,
/// HI/LS, GE/LT, GT/LE) are complementary.
pub proof fn lemma_cond_complementary(cpsr: u32, cond: u8)
    requires
        cond < 0xe && cond % 2 == 0,
    ensures
        cond_holds(cpsr, (cond + 1) as u8) == !cond_holds(cpsr, cond),
{
}

/// The always condition and the reserved encoding hold in every state.
pub proof fn lemma_cond_always(cpsr: u32, cond: u8)
    requires
        cond >= 0xe,
    ensures
        cond_holds(cpsr, cond),
{
}

} // verus!

verus! {

/// A word load from any address: the aligned word that contains it,
/// rotated so that the addressed byte comes first.
pub open spec fn load32(b: crate::system::BusView, address: u32) -> u32 {
    alu::rotr(b.read_32(address & !3u32), ((address & 3) * 8) as u32)
}

/// Loads a word from `address` as the LDR instructions do (see `load32`).
pub fn load_32_from_memory(bus: &crate::system::SystemBus, address: u32) -> (r: u32)
    requires
        bus@.wf(),
    ensures
        r == load32(bus@, address),
{
    proof {
        crate::bits::lemma_and_le_u32(address, 3);
    }
    alu::rotate_right(bus.read_32(address & !3u32), (address & 3) * 8)
}

} // verus!

verus! {

/// One instruction at the program counter, fetched as a half-word in THUMB
/// state and as a word in ARM state, and executed. The program counter is
/// left to the instruction itself.
pub open spec fn decode_step(c: cpu::CpuView, b: crate::system::BusView) -> (cpu::CpuView, crate::system::BusView) {
    if c.thumb() {
        thumb::thumb_step(c, b, b.read_16(c.pc()))
    } else {
        let (c1, b1, _) = arm::arm_step(c, b, b.read_32(c.pc()));
        (c1, b1)
    }
}

/// Whether the instruction at the program counter is one `decode` executes.
pub open spec fn decode_defined(c: cpu::CpuView, b: crate::system::BusView) -> bool {
    if c.thumb() {
        thumb::thumb_defined(b.read_16(c.pc()))
    } else {
        arm::arm_defined(c, b.read_32(c.pc()))
    }
}

/// Whether `decode` accepts the processor and bus in their present state.
pub fn can_decode(cpu: &cpu::CPU, bus: &crate::system::SystemBus) -> (r: bool)
    requires
        cpu@.wf(),
        bus@.wf(),
    ensures
        r == decode_defined(cpu@, bus@),
{
    let pc = cpu.get_current_pc();
    if cpu.get_cpsr().get_t() {
        let instruction = bus.read_16(pc);
        instruction & 0xff80 != 0x4780
    } else {
        let instruction = bus.read_32(pc);
        arm::arm_instruction_defined(cpu, instruction)
    }
}

/// Fetches the instruction at the program counter and executes it.
pub fn decode(cpu: &mut cpu::CPU, bus: &mut crate::system::SystemBus)
    requires
        old(cpu)@.wf(),
        old(bus)@.wf(),
        decode_defined(old(cpu)@, old(bus)@),
    ensures
        (final(cpu)@, final(bus)@) == decode_step(old(cpu)@, old(bus)@),
        final(cpu)@.wf(),
        final(bus)@.wf(),
{
    let pc = cpu.get_current_pc();
    if cpu.get_cpsr().get_t() {
        let instruction = bus.read_16(pc);
        thumb::operate_thumb(instruction, cpu, bus);
    } else {
        let instruction = bus.read_32(pc);
        let _ = arm::execute_arm(cpu, bus, instruction);
    }
}

} // verus!

verus! {

/// The program counter moved past one instruction: 2 bytes in THUMB
/// state, 4 in ARM state.
pub open spec fn advance(c: cpu::CpuView, thumb: bool) -> cpu::CpuView {
    c.set_reg(15, c.pc().wrapping_add(if thumb { 2u32 } else { 4u32 }))
}

/// One processor step: the instruction at the program counter is executed
/// (see `decode_step`), and unless it moved the program counter itself the
/// processor goes on to the next instruction.
pub open spec fn cpu_step(c: cpu::CpuView, b: crate::system::BusView) -> (cpu::CpuView, crate::system::BusView) {
    let (c1, b1, r) = if c.thumb() {
        let ins = b.read_16(c.pc());
        let (t1, u1) = thumb::thumb_step(c, b, ins);
        (t1, u1, thumb::thumb_result(c, ins))
    } else {
        arm::arm_step(c, b, b.read_32(c.pc()))
    };
    if r == CpuResult::Continue {
        (advance(c1, c.thumb()), b1)
    } else {
        (c1, b1)
    }
}

impl cpu::CPU {
    /// Executes the instruction at the program counter and moves on to the
    /// next one, unless the instruction branched.
    pub fn step(&mut self, bus: &mut crate::system::SystemBus)
        requires
            old(self)@.wf(),
            old(bus)@.wf(),
            decode_defined(old(self)@, old(bus)@),
        ensures
            (final(self)@, final(bus)@) == cpu_step(old(self)@, old(bus)@),
            final(self)@.wf(),
            final(bus)@.wf(),
    {
        let pc = self.get_current_pc();
        let thumb = self.get_cpsr().get_t();
        let result = if thumb {
            let instruction = bus.read_16(pc);
            thumb::execute_thumb(instruction, self, bus)
        } else {
            let instruction = bus.read_32(pc);
            arm::execute_arm(self, bus, instruction)
        };
        if result == CpuResult::Continue {
            let next = self.get_current_pc().wrapping_add(if thumb { 2 } else { 4 });
            self.set_register_value(cpu::PROGRAM_COUNTER_REGISTER, next);
        }
    }
}

} // verus!
