//! The machine: a flat 65536-byte memory with big-endian word access, and the
//! execution engine that owns it together with the accumulator, the program
//! counter and the four flags.
//!
//! The behaviour of the engine is stated against a mathematical model: the
//! ghost type [`MachineState`] and the spec functions [`step_spec`] (one
//! fetch-decode-execute step) and [`run_spec`] (a bounded sequence of steps).
//! Every address is taken modulo the 16-bit address space: word access at
//! address `0xFFFF` wraps, touching the bytes at `0xFFFF` and `0x0000`.

use vstd::arithmetic::div_mod::lemma_fundamental_div_mod;
use vstd::prelude::*;

use crate::instruction::{
    spec_decode, CompactOp, ImplicitOp, Opcode, OperandMode, OperandedOp,
};

verus! {

/// Reduce an integer to the 16-bit range, modulo `2^16`. Meant for values one
/// wrapping operation away from the range, as its `recommends` says.
pub open spec fn to_u16(n: int) -> u16
    recommends
        -0x10000 <= n < 0x20000,
{
    if n < 0 {
        (n + 0x10000) as u16
    } else if n > 0xFFFF {
        (n - 0x10000) as u16
    } else {
        n as u16
    }
}

/// The value of a 16-bit word read as a signed (two's-complement) integer.
pub open spec fn signed16(v: u16) -> int {
    if v < 0x8000 {
        v as int
    } else {
        v as int - 0x10000
    }
}

/// Whether an integer fits the signed 16-bit range; its complement is the
/// overflow-flag condition of the arithmetic instructions.
pub open spec fn in_i16(n: int) -> bool {
    -0x8000 <= n <= 0x7FFF
}

/// The byte of `mem` at address `addr`.
pub open spec fn byte_at(mem: Seq<u8>, addr: u16) -> u8 {
    mem[addr as int]
}

/// The big-endian word at `addr`: the byte there is the most significant
/// half, the byte at `addr + 1` (modulo the address space) the least.
pub open spec fn word_at(mem: Seq<u8>, addr: u16) -> u16 {
    (byte_at(mem, addr) as int * 256 + byte_at(mem, to_u16(addr + 1)) as int) as u16
}

/// `mem` with the big-endian halves of `value` written at `addr` and at
/// `addr + 1` (modulo the address space).
pub open spec fn word_write(mem: Seq<u8>, addr: u16, value: u16) -> Seq<u8> {
    mem.update(addr as int, (value / 256) as u8).update(
        to_u16(addr + 1) as int,
        (value % 256) as u8,
    )
}

/// A fixed-size flat byte store covering the whole 16-bit address space.
/// It has no logic beyond addressing; the wraparound policy for word access
/// at the top of the address space is stated in the module documentation.
pub struct Memory {
    bytes: [u8; 65536],
}

impl View for Memory {
    type V = Seq<u8>;

    closed spec fn view(&self) -> Seq<u8> {
        self.bytes@
    }
}

impl Memory {
    /// A memory with every byte zero.
    pub fn empty() -> (r: Memory)
        ensures
            r@.len() == 0x10000,
            forall|i: int| 0 <= i < 0x10000 ==> r@[i] == 0u8,
    {
        Memory { bytes: [0u8; 65536] }
    }

    /// Read the byte at `addr`.
    pub fn read_byte(&self, addr: u16) -> (r: u8)
        ensures
            r == byte_at(self@, addr),
    {
        self.bytes[addr as usize]
    }

    /// Write one byte at `addr`; no other byte is touched.
    pub fn write_byte(&mut self, addr: u16, value: u8)
        ensures
            final(self)@ == old(self)@.update(addr as int, value),
    {
        self.bytes[addr as usize] = value;
    }

    /// Read the big-endian word at `addr`; the low half comes from
    /// `addr + 1` modulo the address space.
    pub fn read_word(&self, addr: u16) -> (r: u16)
        ensures
            r == word_at(self@, addr),
    {
        let hi = self.bytes[addr as usize];
        let lo = self.bytes[addr.wrapping_add(1) as usize];
        (hi as u16) * 256 + (lo as u16)
    }

    /// Write `value` as a big-endian word at `addr`; the low half goes to
    /// `addr + 1` modulo the address space.
    pub fn write_word(&mut self, addr: u16, value: u16)
        ensures
            final(self)@ == word_write(old(self)@, addr, value),
    {
        self.bytes[addr as usize] = (value / 256) as u8;
        self.bytes[addr.wrapping_add(1) as usize] = (value % 256) as u8;
    }
}

/// The mathematical model of one machine: the memory contents and all the
/// register and flag state.
#[verifier::ext_equal]
pub ghost struct MachineState {
    pub mem: Seq<u8>,
    pub acc: u16,
    pub pc: u16,
    pub halt: bool,
    pub test: bool,
    pub carry: bool,
    pub overflow: bool,
}

/// The effect of an implicit instruction on a state whose program counter
/// already points past the opcode byte.
pub open spec fn implicit_effect(s: MachineState, op: ImplicitOp) -> MachineState {
    match op {
        ImplicitOp::NoOp => s,
        ImplicitOp::TestCarry => MachineState { test: s.carry, ..s },
        ImplicitOp::TestOverflow => MachineState { test: s.overflow, ..s },
        ImplicitOp::InvertTest => MachineState { test: !s.test, ..s },
        ImplicitOp::BitwiseNot => MachineState { acc: !s.acc, ..s },
        ImplicitOp::Negate => MachineState { acc: to_u16(0 - s.acc), ..s },
        ImplicitOp::Halt => MachineState { halt: true, ..s },
    }
}

/// Arithmetic right shift of a 16-bit word by `x` places (`1 <= x <= 4`):
/// a logical right shift whose vacated top bits repeat the sign bit.
pub open spec fn sar16(a: u16, x: u16) -> u16
    recommends
        1 <= x <= 4,
{
    if a < 0x8000 {
        a >> x
    } else {
        (a >> x) | (0xFFFFu16 << ((16 - x) as u16))
    }
}

/// The effect of a compact instruction on a state whose program counter
/// already points past the opcode byte. `x` is the biased embedded operand,
/// in range 1..=4.
pub open spec fn compact_effect(s: MachineState, op: CompactOp, x: u16) -> MachineState {
    match op {
        CompactOp::Increment => MachineState { acc: to_u16(s.acc + x), ..s },
        CompactOp::Decrement => MachineState { acc: to_u16(s.acc - x), ..s },
        CompactOp::Skip => MachineState { pc: to_u16(s.pc + x), ..s },
        CompactOp::CondSkip => if s.test {
            MachineState { pc: to_u16(s.pc + x), test: false, ..s }
        } else {
            s
        },
        CompactOp::LeftShift => MachineState { acc: s.acc << x, ..s },
        CompactOp::LeftShiftC => MachineState {
            acc: ((s.acc << 1u16) | (if s.carry {
                1u16
            } else {
                0u16
            })) << ((x - 1) as u16),
            ..s
        },
        CompactOp::RightShiftUnsigned => MachineState { acc: s.acc >> x, ..s },
        CompactOp::RightShiftUnsignedC => MachineState {
            acc: ((s.acc >> 1u16) | (if s.carry {
                0x8000u16
            } else {
                0u16
            })) >> ((x - 1) as u16),
            ..s
        },
        CompactOp::RightShiftSigned => MachineState { acc: sar16(s.acc, x), ..s },
    }
}

/// The effect of an addition on the accumulator: unsigned wrapping sum of the
/// accumulator, the effective value and (for the with-carry variant) the
/// carry flag; the carry flag records unsigned overflow of that sum, the
/// overflow flag signed overflow of its signed counterpart.
pub open spec fn add_effect(s: MachineState, x: u16, use_carry: bool) -> MachineState {
    let c: int = if use_carry && s.carry {
        1
    } else {
        0
    };
    MachineState {
        acc: to_u16(s.acc + x + c),
        carry: s.acc + x + c > 0xFFFF,
        overflow: !in_i16(signed16(s.acc) + signed16(x) + c),
        ..s
    }
}

/// The effect of a subtraction on the accumulator. The carry flag feeds into
/// the subtrahend: the value taken from the accumulator is `x - c`, evaluated
/// as a plain integer, so with `x == 0` and the carry flag set the
/// accumulator gains one. The carry flag records that the difference left the
/// unsigned 16-bit range in either direction, the overflow flag that its
/// signed counterpart left the signed range.
pub open spec fn sub_effect(s: MachineState, x: u16, use_carry: bool) -> MachineState {
    let c: int = if use_carry && s.carry {
        1
    } else {
        0
    };
    MachineState {
        acc: to_u16(s.acc - x + c),
        carry: s.acc - x + c < 0 || s.acc - x + c > 0xFFFF,
        overflow: !in_i16(signed16(s.acc) - signed16(x) + c),
        ..s
    }
}

/// The effect of an operanded instruction once its effective value `x` is
/// resolved, on a state whose program counter already points past the operand
/// word.
pub open spec fn op_apply(s: MachineState, op: OperandedOp, x: u16) -> MachineState {
    match op {
        OperandedOp::SetAcc => MachineState { acc: x, ..s },
        OperandedOp::Load => MachineState { acc: word_at(s.mem, x), ..s },
        OperandedOp::Store => MachineState { mem: word_write(s.mem, x, s.acc), ..s },
        OperandedOp::Jump => MachineState { pc: x, ..s },
        OperandedOp::CondJump => if s.test {
            MachineState { pc: x, test: false, ..s }
        } else {
            s
        },
        OperandedOp::Add(use_carry) => add_effect(s, x, use_carry),
        OperandedOp::Subtract(use_carry) => sub_effect(s, x, use_carry),
        OperandedOp::BitwiseAnd => MachineState { acc: s.acc & x, ..s },
        OperandedOp::BitwiseOr => MachineState { acc: s.acc | x, ..s },
        OperandedOp::BitwiseXor => MachineState { acc: s.acc ^ x, ..s },
        OperandedOp::TestGtUnsigned => MachineState { test: s.acc > x, ..s },
        OperandedOp::TestGtSigned => MachineState { test: signed16(s.acc) > signed16(x), ..s },
        OperandedOp::TestLtUnsigned => MachineState { test: s.acc < x, ..s },
        OperandedOp::TestLtSigned => MachineState { test: signed16(s.acc) < signed16(x), ..s },
        OperandedOp::TestEqual => MachineState { test: s.acc == x, ..s },
    }
}

/// The effect of an operanded instruction on a state whose program counter
/// points at the operand word: fetch that word, advance the counter past it,
/// resolve the effective value according to the addressing mode (one further
/// memory read under `Direct`), then apply the operation.
pub open spec fn operanded_effect(s: MachineState, op: OperandedOp, mode: OperandMode) -> MachineState {
    let operand = word_at(s.mem, s.pc);
    let x = match mode {
        OperandMode::Immediate => operand,
        OperandMode::Direct => word_at(s.mem, operand),
    };
    let advanced = MachineState { pc: to_u16(s.pc + 2), ..s };
    op_apply(advanced, op, x)
}

/// One fetch-decode-execute step: decode the byte at the program counter,
/// advance the counter past it, and apply the decoded instruction. `None`
/// means the byte is outside the documented opcode space, which is fatal.
pub open spec fn step_spec(s: MachineState) -> Option<MachineState> {
    match spec_decode(byte_at(s.mem, s.pc)) {
        None => None,
        Some(opcode) => {
            let fetched = MachineState { pc: to_u16(s.pc + 1), ..s };
            Some(
                match opcode {
                    Opcode::Implicit(op) => implicit_effect(fetched, op),
                    Opcode::Compact(op, bits) => compact_effect(fetched, op, (bits + 1) as u16),
                    Opcode::Operanded(op, mode) => operanded_effect(fetched, op, mode),
                },
            )
        },
    }
}

/// The one fatal condition of the machine: the byte at the program counter
/// does not decode to any instruction.
#[derive(Clone, Copy, Debug, PartialEq, Eq, Structural)]
pub enum StepError {
    /// Holds the opcode byte that failed to decode.
    UndefinedOpcode(u8),
}

/// How a bounded run ended: a normal halt, a fatal decode failure, or a
/// machine still running when the step budget was spent.
#[derive(Clone, Copy, Debug, PartialEq, Eq, Structural)]
pub enum RunOutcome {
    Halted,
    Fault(StepError),
    Running,
}

/// The outcome and final state of running at most `fuel` steps: stop with
/// `Halted` as soon as the halt flag is observed, with `Fault` when the next
/// opcode byte does not decode, and with `Running` when the budget is spent
/// first. The state a fault leaves behind is the state that produced it,
/// unchanged.
pub open spec fn run_spec(s: MachineState, fuel: nat) -> (RunOutcome, MachineState)
    decreases fuel,
{
    if s.halt {
        (RunOutcome::Halted, s)
    } else if fuel == 0 {
        (RunOutcome::Running, s)
    } else {
        match step_spec(s) {
            None => (RunOutcome::Fault(StepError::UndefinedOpcode(byte_at(s.mem, s.pc))), s),
            Some(next) => run_spec(next, (fuel - 1) as nat),
        }
    }
}

/// The execution engine: sole owner of one memory together with the
/// accumulator, the program counter and the four flags.
pub struct Machine {
    pub memory: Memory,
    pub accumulator: u16,
    pub program_counter: u16,
    pub flag_halt: bool,
    pub flag_test: bool,
    pub flag_carry: bool,
    pub flag_overflow: bool,
}

impl View for Machine {
    type V = MachineState;

    open spec fn view(&self) -> MachineState {
        MachineState {
            mem: self.memory@,
            acc: self.accumulator,
            pc: self.program_counter,
            halt: self.flag_halt,
            test: self.flag_test,
            carry: self.flag_carry,
            overflow: self.flag_overflow,
        }
    }
}

/// The signed (two's-complement) reading of a 16-bit word, widened so that
/// the comparisons and overflow conditions can be computed without leaving
/// the range of the type.
fn signed_of(v: u16) -> (r: i32)
    ensures
        r == signed16(v),
{
    if v < 0x8000 {
        v as i32
    } else {
        (v as i32) - 0x10000
    }
}

impl Machine {
    /// A machine over the given memory, in the initial state: both registers
    /// zero (so execution will begin at address 0) and every flag clear.
    pub fn new(memory: Memory) -> (m: Machine)
        ensures
            m@.mem == memory@,
            m@.acc == 0,
            m@.pc == 0,
            !m@.halt,
            !m@.test,
            !m@.carry,
            !m@.overflow,
    {
        Machine {
            memory,
            accumulator: 0,
            program_counter: 0,
            flag_halt: false,
            flag_test: false,
            flag_carry: false,
            flag_overflow: false,
        }
    }

    /// Run until the halt flag is observed set, the opcode byte at the
    /// program counter fails to decode (the one fatal condition, surfaced as
    /// `Fault` distinctly from a normal halt), or `max_steps` instructions
    /// have been executed without either. The outcome and the final state are
    /// exactly those of [`run_spec`].
    pub fn run(&mut self, max_steps: u64) -> (r: RunOutcome)
        ensures
            r == run_spec(old(self)@, max_steps as nat).0,
            final(self)@ == run_spec(old(self)@, max_steps as nat).1,
            r is Halted ==> final(self)@.halt,
            r is Running ==> !final(self)@.halt,
            r matches RunOutcome::Fault(e) ==> !final(self)@.halt && step_spec(final(self)@)
                is None && e == StepError::UndefinedOpcode(
                byte_at(final(self)@.mem, final(self)@.pc),
            ),
    {
        let mut fuel = max_steps;
        while !self.flag_halt
            invariant
                run_spec(old(self)@, max_steps as nat) == run_spec(self@, fuel as nat),
            decreases fuel,
        {
            if fuel == 0 {
                return RunOutcome::Running;
            }
            match self.tick() {
                Ok(()) => {
                    fuel = fuel - 1;
                },
                Err(e) => {
                    return RunOutcome::Fault(e);
                },
            }
        }
        RunOutcome::Halted
    }

    /// One fetch-decode-execute step, exactly [`step_spec`]: on a defined
    /// opcode the state advances to the stepped state; on an undefined one
    /// nothing changes and the offending byte comes back as the error.
    pub fn tick(&mut self) -> (r: Result<(), StepError>)
        ensures
            match step_spec(old(self)@) {
                Some(next) => r is Ok && final(self)@ == next,
                None => r matches Err(e) && e == StepError::UndefinedOpcode(
                    byte_at(old(self)@.mem, old(self)@.pc),
                ) && final(self)@ == old(self)@,
            },
    {
        let opcode_byte = self.memory.read_byte(self.program_counter);
        match Opcode::decode(opcode_byte) {
            None => Err(StepError::UndefinedOpcode(opcode_byte)),
            Some(opcode) => {
                self.program_counter = self.program_counter.wrapping_add(1);
                match opcode {
                    Opcode::Implicit(op) => self.do_implicit(op),
                    Opcode::Compact(op, operand) => self.do_compact(op, operand),
                    Opcode::Operanded(op, mode) => self.do_operanded(op, mode),
                }
                Ok(())
            },
        }
    }

    /// Apply an implicit instruction; the program counter already points past
    /// the opcode byte.
    fn do_implicit(&mut self, op: ImplicitOp)
        ensures
            final(self)@ == implicit_effect(old(self)@, op),
    {
        match op {
            ImplicitOp::NoOp => {},
            ImplicitOp::TestCarry => self.flag_test = self.flag_carry,
            ImplicitOp::TestOverflow => self.flag_test = self.flag_overflow,
            ImplicitOp::InvertTest => self.flag_test = !self.flag_test,
            ImplicitOp::BitwiseNot => self.accumulator = !self.accumulator,
            ImplicitOp::Negate => self.accumulator = 0u16.wrapping_sub(self.accumulator),
            ImplicitOp::Halt => self.flag_halt = true,
        }
    }

    /// Apply a compact instruction; `operand` is the raw embedded two bits,
    /// interpreted as `operand + 1`.
    fn do_compact(&mut self, op: CompactOp, operand: u8)
        requires
            operand < 4,
        ensures
            final(self)@ == compact_effect(old(self)@, op, (operand + 1) as u16),
    {
        let x: u16 = operand as u16 + 1;
        match op {
            CompactOp::Increment => self.accumulator = self.accumulator.wrapping_add(x),
            CompactOp::Decrement => self.accumulator = self.accumulator.wrapping_sub(x),
            CompactOp::Skip => self.program_counter = self.program_counter.wrapping_add(x),
            CompactOp::CondSkip => if self.flag_test {
                self.program_counter = self.program_counter.wrapping_add(x);
                self.flag_test = false;
            },
            CompactOp::LeftShift => self.accumulator = self.accumulator << x,
            CompactOp::LeftShiftC => {
                let carry_in: u16 = if self.flag_carry {
                    1
                } else {
                    0
                };
                self.accumulator = ((self.accumulator << 1u16) | carry_in) << (x - 1);
            },
            CompactOp::RightShiftUnsigned => self.accumulator = self.accumulator >> x,
            CompactOp::RightShiftUnsignedC => {
                let carry_in: u16 = if self.flag_carry {
                    0x8000
                } else {
                    0
                };
                self.accumulator = ((self.accumulator >> 1u16) | carry_in) >> (x - 1);
            },
            CompactOp::RightShiftSigned => {
                let shifted = self.accumulator >> x;
                self.accumulator = if self.accumulator >= 0x8000 {
                    shifted | (0xFFFFu16 << (16 - x))
                } else {
                    shifted
                };
            },
        }
    }

    /// Fetch the operand word, advance the program counter past it, resolve
    /// the effective value according to the addressing mode, and apply the
    /// operation.
    fn do_operanded(&mut self, op: OperandedOp, mode: OperandMode)
        ensures
            final(self)@ == operanded_effect(old(self)@, op, mode),
    {
        let operand = self.memory.read_word(self.program_counter);
        self.program_counter = self.program_counter.wrapping_add(2);
        let x = match mode {
            OperandMode::Immediate => operand,
            OperandMode::Direct => self.memory.read_word(operand),
        };
        match op {
            OperandedOp::SetAcc => self.accumulator = x,
            OperandedOp::Load => self.accumulator = self.memory.read_word(x),
            OperandedOp::Store => self.memory.write_word(x, self.accumulator),
            OperandedOp::Jump => self.program_counter = x,
            OperandedOp::CondJump => if self.flag_test {
                self.program_counter = x;
                self.flag_test = false;
            },
            OperandedOp::Add(use_carry) => self.add_to_accumulator(x, use_carry),
            OperandedOp::Subtract(use_carry) => self.subtract_from_accumulator(x, use_carry),
            OperandedOp::BitwiseAnd => self.accumulator = self.accumulator & x,
            OperandedOp::BitwiseOr => self.accumulator = self.accumulator | x,
            OperandedOp::BitwiseXor => self.accumulator = self.accumulator ^ x,
            OperandedOp::TestGtUnsigned => self.flag_test = self.accumulator > x,
            OperandedOp::TestGtSigned => self.flag_test = signed_of(self.accumulator) > signed_of(
                x,
            ),
            OperandedOp::TestLtUnsigned => self.flag_test = self.accumulator < x,
            OperandedOp::TestLtSigned => self.flag_test = signed_of(self.accumulator) < signed_of(
                x,
            ),
            OperandedOp::TestEqual => self.flag_test = self.accumulator == x,
        }
    }

    /// Add the effective value (and, for the with-carry variant, the carry
    /// flag) to the accumulator, recording unsigned overflow in the carry
    /// flag and signed overflow in the overflow flag.
    fn add_to_accumulator(&mut self, x: u16, use_carry: bool)
        ensures
            final(self)@ == add_effect(old(self)@, x, use_carry),
    {
        let c: i32 = if use_carry && self.flag_carry {
            1
        } else {
            0
        };
        let total: i32 = self.accumulator as i32 + x as i32 + c;
        let signed_total: i32 = signed_of(self.accumulator) + signed_of(x) + c;
        self.flag_carry = total > 0xFFFF;
        self.flag_overflow = signed_total < -0x8000 || signed_total > 0x7FFF;
        self.accumulator = if total > 0xFFFF {
            (total - 0x10000) as u16
        } else {
            total as u16
        };
    }

    /// Subtract the effective value, less the carry flag under the with-carry
    /// variant, from the accumulator; the flags record the unsigned and
    /// signed overflow of the widened difference.
    fn subtract_from_accumulator(&mut self, x: u16, use_carry: bool)
        ensures
            final(self)@ == sub_effect(old(self)@, x, use_carry),
    {
        let c: i32 = if use_carry && self.flag_carry {
            1
        } else {
            0
        };
        let total: i32 = self.accumulator as i32 - x as i32 + c;
        let signed_total: i32 = signed_of(self.accumulator) - signed_of(x) + c;
        self.flag_carry = total < 0 || total > 0xFFFF;
        self.flag_overflow = signed_total < -0x8000 || signed_total > 0x7FFF;
        self.accumulator = if total < 0 {
            (total + 0x10000) as u16
        } else if total > 0xFFFF {
            (total - 0x10000) as u16
        } else {
            total as u16
        };
    }
}

/// Law: `Increment` then `Decrement` with the same operand value returns the
/// machine, accumulator included, to exactly the state it started from: the
/// two wrapping operations cancel modulo `2^16`, and neither touches any
/// other part of the state.
pub proof fn lemma_increment_then_decrement(s: MachineState, x: u16)
    ensures
        compact_effect(compact_effect(s, CompactOp::Increment, x), CompactOp::Decrement, x) == s,
{
    assert(compact_effect(compact_effect(s, CompactOp::Increment, x), CompactOp::Decrement, x)
        =~= s);
}

/// Law: with the carry flag set, `LeftShiftC` by one place leaves the same
/// accumulator as `LeftShift` by one place with `1` OR-ed into bit 0 of the
/// result.
pub proof fn lemma_left_shift_carry_bit(s: MachineState)
    requires
        s.carry,
    ensures
        compact_effect(s, CompactOp::LeftShiftC, 1).acc == (compact_effect(
            s,
            CompactOp::LeftShift,
            1,
        ).acc | 1),
{
    let a = s.acc;
    assert(((a << 1u16) | 1u16) << 0u16 == ((a << 1u16) | 1u16)) by (bit_vector);
}

/// Law: on operands whose sign bits differ, every unsigned comparison
/// disagrees with its signed counterpart: the operand that is the larger
/// word is the smaller signed value.
pub proof fn lemma_signed_unsigned_comparisons_disagree(s: MachineState, x: u16)
    requires
        (s.acc < 0x8000) != (x < 0x8000),
    ensures
        op_apply(s, OperandedOp::TestGtUnsigned, x).test != op_apply(
            s,
            OperandedOp::TestGtSigned,
            x,
        ).test,
        op_apply(s, OperandedOp::TestLtUnsigned, x).test != op_apply(
            s,
            OperandedOp::TestLtSigned,
            x,
        ).test,
{
}

/// Law: a word written anywhere, the top of the address space included, is
/// read back unchanged from the same address: the two byte addresses of a
/// word never collide, because the second is taken modulo the address space.
pub proof fn lemma_word_write_then_read(mem: Seq<u8>, addr: u16, value: u16)
    requires
        mem.len() == 0x10000,
    ensures
        word_at(word_write(mem, addr, value), addr) == value,
{
    lemma_fundamental_div_mod(value as int, 256);
}

} // verus!
