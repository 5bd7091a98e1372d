//! The execution engine: fetch-decode-execute with cycle accounting, the
//! two-level prefix dispatch, interrupt-master-enable handling, and the
//! Halted/Stopped mode transitions.
//!
//! `step` is the single externally-driven operation; `run` is a convenience
//! wrapper that steps repeatedly. Architecturally invalid opcodes fail with
//! a typed `ExecError::IllegalOpcode` reporting the opcode and its address,
//! and leave the machine untouched.

use vstd::arithmetic::div_mod::{lemma_add_mod_noop, lemma_fundamental_div_mod};
use vstd::prelude::*;

use crate::alu;
use crate::memory::{LoadError, Memory, word_at, ADDRESS_SPACE};
use crate::opcode::{
    ext_cycles, primary, primary_class, primary_cycles, primary_len, OpType,
};
use crate::register::{
    flag_c, flag_h, flag_n, flag_z, flags_byte, pair, reset_registers, Registers, CARRY_FLAG,
    HALF_CARRY_FLAG, SUBTRACT_FLAG, ZERO_FLAG,
};

verus! {

/// Execution mode of the engine.
#[derive(Clone, Copy, PartialEq, Eq, Structural, Debug)]
pub enum CpuState {
    Running,
    Halted,
    Stopped,
}

/// Failure of `step`.
#[derive(Clone, Copy, PartialEq, Eq, Structural, Debug)]
pub enum ExecError {
    /// The fetched byte resolved to an `Invalid`-class descriptor: the
    /// failing opcode and the address it was fetched from.
    IllegalOpcode { opcode: u8, addr: u16 },
}

/// The stack pointer after a 16-bit push: decremented by two, wrapping.
pub open spec fn pushed_sp(sp: u16) -> u16 {
    ((sp + 0x10000 - 2) % 0x10000) as u16
}

/// Memory after a 16-bit push at stack pointer `sp`: the value stored
/// little-endian at the decremented stack pointer.
pub open spec fn pushed_mem(mem: Seq<u8>, sp: u16, v: u16) -> Seq<u8> {
    mem.update(pushed_sp(sp) as int, (v % 256) as u8).update(
        ((pushed_sp(sp) + 1) % 0x10000) as int,
        (v / 256) as u8,
    )
}

/// Pushing a 16-bit value and then popping restores the stack pointer and
/// yields the value that was pushed.
pub proof fn lemma_stack_round_trip(mem: Seq<u8>, sp: u16, v: u16)
    requires
        mem.len() == ADDRESS_SPACE,
    ensures
        word_at(pushed_mem(mem, sp, v), pushed_sp(sp)) == v,
        (pushed_sp(sp) + 2) % 0x10000 == sp,
{
    let ps = pushed_sp(sp);
    assert((ps + 1) % 0x10000 != ps as int);
    assert(pushed_mem(mem, sp, v)[ps as int] == (v % 256) as u8);
    assert(pushed_mem(mem, sp, v)[((ps + 1) % 0x10000) as int] == (v / 256) as u8);
    lemma_fundamental_div_mod(v as int, 256);
}

/// The CPU: register file, memory bus, execution mode, and the
/// interrupt-master-enable flag with its one-instruction enable delay.
pub struct Cpu {
    reg: Registers,
    memory: Memory,
    state: CpuState,
    ime: bool,
    ime_pending: bool,
}

impl Cpu {
    /// The register file.
    pub closed spec fn regs(self) -> Registers {
        self.reg
    }

    /// The memory image.
    pub closed spec fn mem(self) -> Seq<u8> {
        self.memory@
    }

    /// The execution mode.
    pub closed spec fn cpu_state(self) -> CpuState {
        self.state
    }

    /// The interrupt-master-enable flag.
    pub closed spec fn ime_enabled(self) -> bool {
        self.ime
    }

    /// Whether an EI is pending: the enable takes effect at the start of
    /// the following step.
    pub closed spec fn ime_scheduled(self) -> bool {
        self.ime_pending
    }

    /// The engine invariant: the register-file flag invariant holds and the
    /// bus covers the whole address space.
    pub open spec fn wf(self) -> bool {
        self.regs().wf() && self.mem().len() == ADDRESS_SPACE
    }

    /// The observable machine state as one value.
    pub open spec fn machine(self) -> MachineView {
        MachineView {
            regs: self.regs(),
            mem: self.mem(),
            state: self.cpu_state(),
            ime: self.ime_enabled(),
            ime_sched: self.ime_scheduled(),
        }
    }

    /// A CPU in the documented post-boot state, with zeroed memory,
    /// running, interrupts disabled.
    pub fn new() -> (r: Cpu)
        ensures
            r.wf(),
            r.regs() == reset_registers(),
            r.cpu_state() == CpuState::Running,
            !r.ime_enabled(),
            !r.ime_scheduled(),
            forall|i: int| 0 <= i < ADDRESS_SPACE ==> r.mem()[i] == 0u8,
    {
        Cpu {
            reg: Registers::new(),
            memory: Memory::new(),
            state: CpuState::Running,
            ime: false,
            ime_pending: false,
        }
    }

    /// Restore the documented register defaults and resume running; memory
    /// and the interrupt-master-enable flag are left alone.
    pub fn reset(&mut self)
        requires
            old(self).wf(),
        ensures
            final(self).wf(),
            final(self).regs() == reset_registers(),
            final(self).cpu_state() == CpuState::Running,
            final(self).mem() == old(self).mem(),
            final(self).ime_enabled() == old(self).ime_enabled(),
            final(self).ime_scheduled() == old(self).ime_scheduled(),
    {
        self.reg = Registers::new();
        self.state = CpuState::Running;
    }

    /// Read-only copy of the register file, for inspection and testing.
    pub fn register_snapshot(&self) -> (r: Registers)
        ensures
            r == self.regs(),
    {
        self.reg
    }

    /// The execution mode, for an external interrupt controller to observe.
    pub fn state(&self) -> (r: CpuState)
        ensures
            r == self.cpu_state(),
    {
        self.state
    }

    /// The interrupt-master-enable flag, for an external interrupt
    /// controller to observe.
    pub fn interrupt_master_enable(&self) -> (r: bool)
        ensures
            r == self.ime_enabled(),
    {
        self.ime
    }

    /// Drive the interrupt-master-enable flag from outside (an interrupt
    /// controller acknowledging an interrupt clears it).
    pub fn set_interrupt_master_enable(&mut self, on: bool)
        ensures
            final(self).ime_enabled() == on,
            !final(self).ime_scheduled(),
            final(self).regs() == old(self).regs(),
            final(self).mem() == old(self).mem(),
            final(self).cpu_state() == old(self).cpu_state(),
            final(self).wf() == old(self).wf(),
    {
        self.ime = on;
        self.ime_pending = false;
    }

    /// Copy an image into memory at `base`; `LoadError::Overflow` if it
    /// would run past the top of the address space.
    pub fn load_image(&mut self, image: &Vec<u8>, base: u16) -> (r: Result<(), LoadError>)
        requires
            old(self).wf(),
        ensures
            final(self).wf(),
            r is Ok <==> base + image@.len() <= ADDRESS_SPACE,
            r is Ok ==> forall|i: int|
                0 <= i < image@.len() ==> final(self).mem()[base + i] == image@[i],
            r is Ok ==> forall|i: int|
                0 <= i < ADDRESS_SPACE && !(base <= i < base + image@.len())
                    ==> final(self).mem()[i] == old(self).mem()[i],
            r is Err ==> final(self).mem() == old(self).mem(),
            final(self).regs() == old(self).regs(),
            final(self).cpu_state() == old(self).cpu_state(),
            final(self).ime_enabled() == old(self).ime_enabled(),
            final(self).ime_scheduled() == old(self).ime_scheduled(),
    {
        self.memory.load_image(image, base)
    }

    /// Load a program image at the conventional entry address 0x0100 (the
    /// address execution starts at after reset).
    pub fn load_rom(&mut self, rom: Vec<u8>) -> (r: Result<(), LoadError>)
        requires
            old(self).wf(),
        ensures
            final(self).wf(),
            r is Ok <==> 0x0100 + rom@.len() <= ADDRESS_SPACE,
            r is Ok ==> forall|i: int|
                0 <= i < rom@.len() ==> final(self).mem()[0x0100 + i] == rom@[i],
            r is Ok ==> forall|i: int|
                0 <= i < ADDRESS_SPACE && !(0x0100 <= i < 0x0100 + rom@.len())
                    ==> final(self).mem()[i] == old(self).mem()[i],
            r is Err ==> final(self).mem() == old(self).mem(),
            final(self).regs() == old(self).regs(),
            final(self).cpu_state() == old(self).cpu_state(),
            final(self).ime_enabled() == old(self).ime_enabled(),
            final(self).ime_scheduled() == old(self).ime_scheduled(),
    {
        self.load_image(&rom, 0x0100)
    }

    /// Read the byte at `addr` on the bus.
    pub fn read_u8(&self, addr: u16) -> (r: u8)
        requires
            self.wf(),
        ensures
            r == self.mem()[addr as int],
    {
        self.memory.read(addr)
    }

    /// Write the byte at `addr` on the bus.
    pub fn write_u8(&mut self, addr: u16, byte: u8)
        requires
            old(self).wf(),
        ensures
            final(self).wf(),
            final(self).mem() == old(self).mem().update(addr as int, byte),
            final(self).regs() == old(self).regs(),
            final(self).cpu_state() == old(self).cpu_state(),
            final(self).ime_enabled() == old(self).ime_enabled(),
            final(self).ime_scheduled() == old(self).ime_scheduled(),
    {
        self.memory.write(addr, byte);
    }

    /// Fetch the byte at the program counter and advance it by one,
    /// wrapping at the top of the address space.
    pub(crate) fn fetch_byte(&mut self) -> (r: u8)
        requires
            old(self).wf(),
        ensures
            final(self).wf(),
            r == old(self).mem()[old(self).regs().pc as int],
            final(self).regs() == (Registers {
                pc: ((old(self).regs().pc + 1) % 0x10000) as u16,
                ..old(self).regs()
            }),
            final(self).mem() == old(self).mem(),
            final(self).cpu_state() == old(self).cpu_state(),
            final(self).ime_enabled() == old(self).ime_enabled(),
            final(self).ime_scheduled() == old(self).ime_scheduled(),
    {
        let opcode = self.memory.read(self.reg.pc);
        self.reg.pc = wrap_inc16(self.reg.pc);
        opcode
    }

    /// Push a 16-bit value: decrement SP by two (wrapping) and store the
    /// value little-endian at the new SP.
    pub(crate) fn push16(&mut self, v: u16)
        requires
            old(self).wf(),
        ensures
            final(self).wf(),
            final(self).regs() == (Registers {
                sp: pushed_sp(old(self).regs().sp),
                ..old(self).regs()
            }),
            final(self).mem() == pushed_mem(old(self).mem(), old(self).regs().sp, v),
            final(self).cpu_state() == old(self).cpu_state(),
            final(self).ime_enabled() == old(self).ime_enabled(),
            final(self).ime_scheduled() == old(self).ime_scheduled(),
    {
        let sp = wrap_sub2(self.reg.sp);
        self.reg.sp = sp;
        self.memory.write16(sp, v);
    }

    /// Pop a 16-bit value from the stack: read it at SP and increment SP by
    /// two (wrapping).
    pub(crate) fn pop16(&mut self) -> (r: u16)
        requires
            old(self).wf(),
        ensures
            final(self).wf(),
            r == word_at(old(self).mem(), old(self).regs().sp),
            final(self).regs() == (Registers {
                sp: ((old(self).regs().sp + 2) % 0x10000) as u16,
                ..old(self).regs()
            }),
            final(self).mem() == old(self).mem(),
            final(self).cpu_state() == old(self).cpu_state(),
            final(self).ime_enabled() == old(self).ime_enabled(),
            final(self).ime_scheduled() == old(self).ime_scheduled(),
    {
        let v = self.memory.read16(self.reg.sp);
        self.reg.sp = wrap_add2(self.reg.sp);
        v
    }

    /// Decode one already-fetched opcode byte against the primary table
    /// and execute its semantic action; the program counter has already
    /// moved past the opcode byte. Returns the cycles consumed, including
    /// the larger "taken" cost of a taken conditional branch.
    pub(crate) fn run_opcode(&mut self, opcode: u8) -> (cycles: u8)
        requires
            old(self).wf(),
            primary_class(opcode) != OpType::Invalid,
        ensures
            final(self).wf(),
            primary_class(opcode) != OpType::Jump && primary_class(opcode) != OpType::Call
                && primary_class(opcode) != OpType::Return && opcode != 0xCB ==> final(self).regs().pc == ((old(self).regs().pc + primary_len(opcode) - 1) % 0x10000) as u16
                && cycles == primary_cycles(opcode),
            opcode == 0xCB ==> final(self).regs().pc == ((old(self).regs().pc + 1)
                % 0x10000) as u16 && cycles == ext_cycles(
                old(self).mem()[old(self).regs().pc as int],
            ),
            primary_class(opcode) == OpType::Jump || primary_class(opcode) == OpType::Call
                || primary_class(opcode) == OpType::Return ==> cycles == branch_cycles(
                opcode,
                old(self).regs().f,
            ),
            class_post(
                old(self).regs(),
                old(self).mem(),
                final(self).regs(),
                final(self).mem(),
                opcode,
                old(self).mem()[old(self).regs().pc as int],
            ),
            final(self).cpu_state() == (if opcode == 0x76 {
                CpuState::Halted
            } else if opcode == 0x10 {
                CpuState::Stopped
            } else {
                old(self).cpu_state()
            }),
            final(self).ime_enabled() == (if opcode == 0xF3 {
                false
            } else if opcode == 0xD9 {
                true
            } else {
                old(self).ime_enabled()
            }),
            final(self).ime_scheduled() == (if opcode == 0xFB {
                true
            } else if opcode == 0xF3 {
                false
            } else {
                old(self).ime_scheduled()
            }),
    {
        let d = primary(opcode);
        match d.typ {
            OpType::Load => self.op_load(opcode),
            OpType::ALU => self.op_alu(opcode),
            OpType::Misc => self.op_misc(opcode),
            OpType::RotShift => self.op_rotshift(opcode),
            OpType::BitOp => self.op_extended(),
            OpType::Jump => self.op_jump(opcode),
            OpType::Call => self.op_call(opcode),
            OpType::Return => self.op_return(opcode),
            OpType::Invalid => {
                proof {
                    assert(false);
                }
                4
            },
        }
    }

    /// One fetch-decode-execute step. In Halted or Stopped mode the CPU
    /// idles for one cycle's worth of time (until an external signal drives
    /// it) and nothing changes. Otherwise the opcode at the program counter
    /// is decoded: an `Invalid`-class opcode fails with `IllegalOpcode`,
    /// naming the opcode and its address and leaving the machine untouched;
    /// any other opcode executes, the program counter having advanced over
    /// the whole encoding, and the cycles consumed are returned. A pending
    /// EI from the previous step takes effect first.
    pub fn step(&mut self) -> (r: Result<u8, ExecError>)
        requires
            old(self).wf(),
        ensures
            final(self).wf(),
            final(self).regs().f % 16 == 0,
            old(self).cpu_state() != CpuState::Running ==> r == Ok::<u8, ExecError>(4u8) && *final(self) == *old(self),
            old(self).cpu_state() == CpuState::Running ==> step_post(
                old(self).machine(),
                final(self).machine(),
                r,
                old(self).mem()[old(self).regs().pc as int],
            ),
    {
        match self.state {
            CpuState::Halted => {
                return Ok(4);
            },
            CpuState::Stopped => {
                return Ok(4);
            },
            CpuState::Running => {},
        }
        let pc0 = self.reg.pc;
        let op = self.memory.read(pc0);
        let d = primary(op);
        if matches!(d.typ, OpType::Invalid) {
            return Err(ExecError::IllegalOpcode { opcode: op, addr: pc0 });
        }
        if self.ime_pending {
            self.ime = true;
            self.ime_pending = false;
        }
        let fetched = self.fetch_byte();
        proof {
            lemma_add_mod_noop(pc0 as int, 1, 0x10000);
            lemma_add_mod_noop((pc0 + 1) as int, primary_len(op) - 1, 0x10000);
            lemma_add_mod_noop((pc0 + 1) as int, 1, 0x10000);
        }
        let cycles = self.run_opcode(fetched);
        Ok(cycles)
    }

    /// Step repeatedly, up to `max_steps` times, summing the cycles
    /// consumed; stops early with the error if an illegal opcode is hit.
    /// The single-step interface is the primary contract: a full emulator
    /// interleaves `step` with peripheral clocking.
    pub fn run(&mut self, max_steps: u64) -> (r: Result<u64, ExecError>)
        requires
            old(self).wf(),
            max_steps < 0x0100_0000_0000_0000,
        ensures
            final(self).wf(),
            r matches Ok(t) ==> runs_to(
                old(self).machine(),
                final(self).machine(),
                max_steps as nat,
                t as int,
            ),
            r matches Err(e) ==> step_fails(final(self).machine(), e) && exists|n: nat, t: int|
                n < max_steps && #[trigger] runs_to(
                    old(self).machine(),
                    final(self).machine(),
                    n,
                    t,
                ),
            max_steps == 0 ==> r == Ok::<u64, ExecError>(0u64) && *final(self) == *old(self),
            old(self).cpu_state() != CpuState::Running ==> r == Ok::<u64, ExecError>(
                (4 * max_steps) as u64,
            ) && *final(self) == *old(self),
    {
        let mut total: u64 = 0;
        let mut i: u64 = 0;
        while i < max_steps
            invariant
                self.wf(),
                i <= max_steps,
                max_steps < 0x0100_0000_0000_0000,
                total <= i * 255,
                runs_to(old(self).machine(), self.machine(), i as nat, total as int),
                i == 0 ==> total == 0 && *self == *old(self),
                old(self).cpu_state() != CpuState::Running ==> total == 4 * i && *self == *old(
                    self,
                ),
            decreases max_steps - i,
        {
            let ghost pre_view = self.machine();
            let ghost sum = total as int;
            match self.step() {
                Ok(cycles) => {
                    proof {
                        assert(view_step_ok(pre_view, self.machine(), cycles));
                        assert(runs_to(
                            old(self).machine(),
                            pre_view,
                            i as nat,
                            (sum + cycles) - cycles,
                        ));
                        assert(runs_to(
                            old(self).machine(),
                            self.machine(),
                            (i + 1) as nat,
                            sum + cycles,
                        ));
                    }
                    total = total + cycles as u64;
                },
                Err(e) => {
                    proof {
                        assert(self.machine() == pre_view);
                        assert(runs_to(old(self).machine(), self.machine(), i as nat, sum));
                    }
                    return Err(e);
                },
            }
            i = i + 1;
        }
        Ok(total)
    }

    /// Read the 8-bit operand selected by the three low opcode bits: B, C,
    /// D, E, H, L, the byte at (HL), A.
    pub(crate) fn read_r8(&self, idx: u8) -> (r: u8)
        requires
            self.wf(),
            idx < 8,
        ensures
            r == r8_of(self.regs(), self.mem(), idx),
    {
        if idx == 0 {
            self.reg.b
        } else if idx == 1 {
            self.reg.c
        } else if idx == 2 {
            self.reg.d
        } else if idx == 3 {
            self.reg.e
        } else if idx == 4 {
            self.reg.h
        } else if idx == 5 {
            self.reg.l
        } else if idx == 6 {
            self.memory.read(self.reg.hl())
        } else {
            self.reg.a
        }
    }

    /// Write the 8-bit operand selected by the three low opcode bits; index
    /// six stores to the byte at (HL). Flags, SP and PC are untouched.
    pub(crate) fn write_r8(&mut self, idx: u8, v: u8)
        requires
            old(self).wf(),
            idx < 8,
        ensures
            final(self).wf(),
            idx == 6 ==> final(self).mem() == old(self).mem().update(
                old(self).regs().hl_pair() as int,
                v,
            ) && final(self).regs() == old(self).regs(),
            idx != 6 ==> final(self).mem() == old(self).mem(),
            idx == 0 ==> final(self).regs() == (Registers { b: v, ..old(self).regs() }),
            idx == 1 ==> final(self).regs() == (Registers { c: v, ..old(self).regs() }),
            idx == 2 ==> final(self).regs() == (Registers { d: v, ..old(self).regs() }),
            idx == 3 ==> final(self).regs() == (Registers { e: v, ..old(self).regs() }),
            idx == 4 ==> final(self).regs() == (Registers { h: v, ..old(self).regs() }),
            idx == 5 ==> final(self).regs() == (Registers { l: v, ..old(self).regs() }),
            idx == 7 ==> final(self).regs() == (Registers { a: v, ..old(self).regs() }),
            same_ctrl(*old(self), *final(self)),
    {
        if idx == 0 {
            self.reg.b = v;
        } else if idx == 1 {
            self.reg.c = v;
        } else if idx == 2 {
            self.reg.d = v;
        } else if idx == 3 {
            self.reg.e = v;
        } else if idx == 4 {
            self.reg.h = v;
        } else if idx == 5 {
            self.reg.l = v;
        } else if idx == 6 {
            let addr = self.reg.hl();
            self.memory.write(addr, v);
        } else {
            self.reg.a = v;
        }
    }

    /// Apply one of the eight accumulator operations (group index 0-7:
    /// ADD, ADC, SUB, SBC, AND, XOR, OR, CP) with the given operand.
    pub(crate) fn apply_alu8(&mut self, g: u8, b: u8)
        requires
            old(self).wf(),
            g < 8,
        ensures
            final(self).wf(),
            final(self).regs() == (Registers {
                a: alu8(g, old(self).regs().a, b, old(self).regs().f).0,
                f: alu8(g, old(self).regs().a, b, old(self).regs().f).1,
                ..old(self).regs()
            }),
            final(self).mem() == old(self).mem(),
            same_ctrl(*old(self), *final(self)),
    {
        let a = self.reg.a;
        let cin = self.reg.flag(CARRY_FLAG);
        if g == 0 {
            let (v, fl) = alu::add8(a, b, false);
            self.reg.a = v;
            self.reg.set_flags(fl.z, fl.n, fl.h, fl.c);
        } else if g == 1 {
            let (v, fl) = alu::add8(a, b, cin);
            self.reg.a = v;
            self.reg.set_flags(fl.z, fl.n, fl.h, fl.c);
        } else if g == 2 {
            let (v, fl) = alu::sub8(a, b, false);
            self.reg.a = v;
            self.reg.set_flags(fl.z, fl.n, fl.h, fl.c);
        } else if g == 3 {
            let (v, fl) = alu::sub8(a, b, cin);
            self.reg.a = v;
            self.reg.set_flags(fl.z, fl.n, fl.h, fl.c);
        } else if g == 4 {
            let (v, fl) = alu::and8(a, b);
            self.reg.a = v;
            self.reg.set_flags(fl.z, fl.n, fl.h, fl.c);
        } else if g == 5 {
            let (v, fl) = alu::xor8(a, b);
            self.reg.a = v;
            self.reg.set_flags(fl.z, fl.n, fl.h, fl.c);
        } else if g == 6 {
            let (v, fl) = alu::or8(a, b);
            self.reg.a = v;
            self.reg.set_flags(fl.z, fl.n, fl.h, fl.c);
        } else {
            let (_v, fl) = alu::sub8(a, b, false);
            self.reg.set_flags(fl.z, fl.n, fl.h, fl.c);
        }
    }

    /// Execute an `ALU`-class instruction: the accumulator operations on a
    /// register, (HL) or immediate operand, the 8-bit increments and
    /// decrements (which never touch Carry), and ADD HL,rr.
    #[verifier::rlimit(100)]
    #[verifier::spinoff_prover]
    pub(crate) fn op_alu(&mut self, opcode: u8) -> (cycles: u8)
        requires
            old(self).wf(),
            primary_class(opcode) == OpType::ALU,
        ensures
            final(self).wf(),
            cycles == primary_cycles(opcode),
            same_ctrl(*old(self), *final(self)),
            alu_post(
                old(self).regs(),
                old(self).mem(),
                final(self).regs(),
                final(self).mem(),
                opcode,
            ),
    {
        if 0x80 <= opcode && opcode <= 0xBF {
            let g = (opcode - 0x80) / 8;
            let b = self.read_r8(opcode % 8);
            self.apply_alu8(g, b);
            if opcode % 8 == 6 {
                8
            } else {
                4
            }
        } else if opcode >= 0xC0 {
            let g = (opcode - 0xC0) / 8;
            let b = self.fetch_byte();
            self.apply_alu8(g, b);
            8
        } else if opcode % 8 == 4 || opcode % 8 == 5 {
            let t = opcode / 8;
            let v = self.read_r8(t);
            let c = self.reg.flag(CARRY_FLAG);
            let (v2, fl) = if opcode % 8 == 4 {
                alu::inc8(v, c)
            } else {
                alu::dec8(v, c)
            };
            self.write_r8(t, v2);
            self.reg.set_flags(fl.z, fl.n, fl.h, fl.c);
            if t == 6 {
                12
            } else {
                4
            }
        } else {
            let rr = if opcode == 0x09 {
                self.reg.bc()
            } else if opcode == 0x19 {
                self.reg.de()
            } else if opcode == 0x29 {
                self.reg.hl()
            } else {
                self.reg.sp
            };
            let hl = self.reg.hl();
            let (v, h, c) = alu::add16(hl, rr);
            let z = self.reg.flag(ZERO_FLAG);
            self.reg.set_hl(v);
            self.reg.set_flags(z, false, h, c);
            8
        }
    }

    /// Execute a `Load`-class instruction: the register/memory/immediate
    /// moves, the 16-bit immediate loads, PUSH and POP, the two 0xFF00-page
    /// loads, and the SP-relative arithmetic loads (the only loads that
    /// touch flags).
    #[verifier::rlimit(100)]
    #[verifier::spinoff_prover]
    pub(crate) fn op_load(&mut self, opcode: u8) -> (cycles: u8)
        requires
            old(self).wf(),
            primary_class(opcode) == OpType::Load,
        ensures
            final(self).wf(),
            cycles == primary_cycles(opcode),
            same_ctrl(*old(self), *final(self)),
            load_post(
                old(self).regs(),
                old(self).mem(),
                final(self).regs(),
                final(self).mem(),
                opcode,
            ),
    {
        if 0x40 <= opcode && opcode <= 0x7F {
            let src = opcode % 8;
            let dst = (opcode - 0x40) / 8;
            let v = self.read_r8(src);
            self.write_r8(dst, v);
            if src == 6 || dst == 6 {
                8
            } else {
                4
            }
        } else if opcode < 0x40 && opcode % 8 == 6 {
            let t = opcode / 8;
            let n = self.fetch_byte();
            self.write_r8(t, n);
            if t == 6 {
                12
            } else {
                8
            }
        } else {
            match opcode {
                0x01 => {
                    let v = self.fetch_word();
                    self.reg.set_bc(v);
                    12
                },
                0x11 => {
                    let v = self.fetch_word();
                    self.reg.set_de(v);
                    12
                },
                0x21 => {
                    let v = self.fetch_word();
                    self.reg.set_hl(v);
                    12
                },
                0x31 => {
                    let v = self.fetch_word();
                    self.reg.sp = v;
                    12
                },
                0x02 => {
                    let addr = self.reg.bc();
                    self.memory.write(addr, self.reg.a);
                    8
                },
                0x12 => {
                    let addr = self.reg.de();
                    self.memory.write(addr, self.reg.a);
                    8
                },
                0x22 => {
                    let addr = self.reg.hl();
                    self.memory.write(addr, self.reg.a);
                    self.reg.set_hl(wrap_inc16(addr));
                    8
                },
                0x32 => {
                    let addr = self.reg.hl();
                    self.memory.write(addr, self.reg.a);
                    self.reg.set_hl(wrap_dec16(addr));
                    8
                },
                0x0A => {
                    let addr = self.reg.bc();
                    self.reg.a = self.memory.read(addr);
                    8
                },
                0x1A => {
                    let addr = self.reg.de();
                    self.reg.a = self.memory.read(addr);
                    8
                },
                0x2A => {
                    let addr = self.reg.hl();
                    self.reg.a = self.memory.read(addr);
                    self.reg.set_hl(wrap_inc16(addr));
                    8
                },
                0x3A => {
                    let addr = self.reg.hl();
                    self.reg.a = self.memory.read(addr);
                    self.reg.set_hl(wrap_dec16(addr));
                    8
                },
                0x08 => {
                    let addr = self.fetch_word();
                    self.memory.write16(addr, self.reg.sp);
                    20
                },
                0xC5 => {
                    let v = self.reg.bc();
                    self.push16(v);
                    16
                },
                0xD5 => {
                    let v = self.reg.de();
                    self.push16(v);
                    16
                },
                0xE5 => {
                    let v = self.reg.hl();
                    self.push16(v);
                    16
                },
                0xF5 => {
                    let v = self.reg.af();
                    self.push16(v);
                    16
                },
                0xC1 => {
                    let v = self.pop16();
                    self.reg.set_bc(v);
                    12
                },
                0xD1 => {
                    let v = self.pop16();
                    self.reg.set_de(v);
                    12
                },
                0xE1 => {
                    let v = self.pop16();
                    self.reg.set_hl(v);
                    12
                },
                0xF1 => {
                    let v = self.pop16();
                    self.reg.set_af(v);
                    12
                },
                0xE0 => {
                    let n = self.fetch_byte();
                    self.memory.write(0xFF00 + n as u16, self.reg.a);
                    12
                },
                0xF0 => {
                    let n = self.fetch_byte();
                    self.reg.a = self.memory.read(0xFF00 + n as u16);
                    12
                },
                0xE2 => {
                    self.memory.write(0xFF00 + self.reg.c as u16, self.reg.a);
                    8
                },
                0xF2 => {
                    self.reg.a = self.memory.read(0xFF00 + self.reg.c as u16);
                    8
                },
                0xEA => {
                    let addr = self.fetch_word();
                    self.memory.write(addr, self.reg.a);
                    16
                },
                0xFA => {
                    let addr = self.fetch_word();
                    self.reg.a = self.memory.read(addr);
                    16
                },
                0xF9 => {
                    self.reg.sp = self.reg.hl();
                    8
                },
                0xE8 => {
                    let n = self.fetch_byte();
                    let sp = self.reg.sp;
                    let (h, c) = sp_offset_carries(sp, n);
                    self.reg.sp = alu::add_signed(sp, n);
                    self.reg.set_flags(false, false, h, c);
                    16
                },
                0xF8 => {
                    let n = self.fetch_byte();
                    let sp = self.reg.sp;
                    let (h, c) = sp_offset_carries(sp, n);
                    let v = alu::add_signed(sp, n);
                    self.reg.set_hl(v);
                    self.reg.set_flags(false, false, h, c);
                    12
                },
                _ => {
                    proof {
                        assert(false);
                    }
                    4
                },
            }
        }
    }

    /// Whether the condition a conditional control-flow opcode encodes
    /// holds under the current flags.
    pub(crate) fn cond_check(&self, opcode: u8) -> (r: bool)
        requires
            is_conditional(opcode),
        ensures
            r == cond_met(opcode, self.regs().f),
    {
        let idx = (opcode / 8) % 4;
        if idx == 0 {
            !self.reg.flag(ZERO_FLAG)
        } else if idx == 1 {
            self.reg.flag(ZERO_FLAG)
        } else if idx == 2 {
            !self.reg.flag(CARRY_FLAG)
        } else {
            self.reg.flag(CARRY_FLAG)
        }
    }

    /// Execute a `Jump`-class instruction: relative and absolute jumps,
    /// conditional or not, JP (HL), and the RST restart vectors (which push
    /// the return address). Flags are never changed.
    #[verifier::rlimit(100)]
    #[verifier::spinoff_prover]
    pub(crate) fn op_jump(&mut self, opcode: u8) -> (cycles: u8)
        requires
            old(self).wf(),
            primary_class(opcode) == OpType::Jump,
        ensures
            final(self).wf(),
            cycles == branch_cycles(opcode, old(self).regs().f),
            same_ctrl(*old(self), *final(self)),
            jump_post(
                old(self).regs(),
                old(self).mem(),
                final(self).regs(),
                final(self).mem(),
                opcode,
            ),
    {
        match opcode {
            0x18 => {
                let n = self.fetch_byte();
                self.reg.pc = alu::add_signed(self.reg.pc, n);
                12
            },
            0x20 | 0x28 | 0x30 | 0x38 => {
                let n = self.fetch_byte();
                if self.cond_check(opcode) {
                    self.reg.pc = alu::add_signed(self.reg.pc, n);
                    12
                } else {
                    8
                }
            },
            0xC3 => {
                let t = self.fetch_word();
                self.reg.pc = t;
                16
            },
            0xC2 | 0xCA | 0xD2 | 0xDA => {
                let t = self.fetch_word();
                if self.cond_check(opcode) {
                    self.reg.pc = t;
                    16
                } else {
                    12
                }
            },
            0xE9 => {
                self.reg.pc = self.reg.hl();
                4
            },
            _ => {
                let ret = self.reg.pc;
                self.push16(ret);
                self.reg.pc = (opcode - 0xC7) as u16;
                16
            },
        }
    }

    /// Execute a `Call`-class instruction: CALL nn and its conditional
    /// variants. When taken, the address of the following instruction is
    /// pushed and the immediate becomes the program counter.
    pub(crate) fn op_call(&mut self, opcode: u8) -> (cycles: u8)
        requires
            old(self).wf(),
            primary_class(opcode) == OpType::Call,
        ensures
            final(self).wf(),
            same_ctrl(*old(self), *final(self)),
            cycles == branch_cycles(opcode, old(self).regs().f),
            call_post(
                old(self).regs(),
                old(self).mem(),
                final(self).regs(),
                final(self).mem(),
                opcode,
            ),
    {
        let t = self.fetch_word();
        let taken = if opcode == 0xCD {
            true
        } else {
            self.cond_check(opcode)
        };
        if taken {
            let ret = self.reg.pc;
            self.push16(ret);
            self.reg.pc = t;
            24
        } else {
            12
        }
    }

    /// Execute a `Return`-class instruction: RET, its conditional variants,
    /// and RETI, which additionally re-enables the interrupt-master-enable
    /// flag. When taken, 16 bits are popped into the program counter.
    pub(crate) fn op_return(&mut self, opcode: u8) -> (cycles: u8)
        requires
            old(self).wf(),
            primary_class(opcode) == OpType::Return,
        ensures
            final(self).wf(),
            final(self).cpu_state() == old(self).cpu_state(),
            final(self).ime_scheduled() == old(self).ime_scheduled(),
            final(self).ime_enabled() == (if opcode == 0xD9 {
                true
            } else {
                old(self).ime_enabled()
            }),
            cycles == branch_cycles(opcode, old(self).regs().f),
            return_post(
                old(self).regs(),
                old(self).mem(),
                final(self).regs(),
                final(self).mem(),
                opcode,
            ),
    {
        match opcode {
            0xC9 => {
                let t = self.pop16();
                self.reg.pc = t;
                16
            },
            0xD9 => {
                let t = self.pop16();
                self.reg.pc = t;
                self.ime = true;
                16
            },
            _ => {
                if self.cond_check(opcode) {
                    let t = self.pop16();
                    self.reg.pc = t;
                    20
                } else {
                    8
                }
            },
        }
    }

    /// Execute one extended-table instruction: fetch the byte after the
    /// 0xCB prefix and dispatch it to the rotate/shift/swap group or the
    /// BIT/RES/SET bit operations.
    pub(crate) fn op_extended(&mut self) -> (cycles: u8)
        requires
            old(self).wf(),
        ensures
            final(self).wf(),
            same_ctrl(*old(self), *final(self)),
            final(self).regs().sp == old(self).regs().sp,
            cycles == ext_cycles(old(self).mem()[old(self).regs().pc as int]),
            cb_post(
                old(self).regs(),
                old(self).mem(),
                final(self).regs(),
                final(self).mem(),
                old(self).mem()[old(self).regs().pc as int],
            ),
    {
        let op2 = self.fetch_byte();
        let t = op2 % 8;
        let g = op2 / 8;
        if g < 8 {
            let v = self.read_r8(t);
            let cin = self.reg.flag(CARRY_FLAG);
            let (v2, c) = if g == 0 {
                alu::rlc8(v)
            } else if g == 1 {
                alu::rrc8(v)
            } else if g == 2 {
                alu::rl8(v, cin)
            } else if g == 3 {
                alu::rr8(v, cin)
            } else if g == 4 {
                alu::sla8(v)
            } else if g == 5 {
                alu::sra8(v)
            } else if g == 6 {
                (alu::swap8(v), false)
            } else {
                alu::srl8(v)
            };
            self.write_r8(t, v2);
            self.reg.set_flags(v2 == 0, false, false, c);
            if t == 6 {
                16
            } else {
                8
            }
        } else if g < 16 {
            let v = self.read_r8(t);
            let b = alu::bit_test(v, g - 8);
            let c = self.reg.flag(CARRY_FLAG);
            self.reg.set_flags(!b, false, true, c);
            if t == 6 {
                12
            } else {
                8
            }
        } else if g < 24 {
            let v = self.read_r8(t);
            let v2 = alu::bit_res(v, g - 16);
            self.write_r8(t, v2);
            if t == 6 {
                16
            } else {
                8
            }
        } else {
            let v = self.read_r8(t);
            let v2 = alu::bit_set(v, g - 24);
            self.write_r8(t, v2);
            if t == 6 {
                16
            } else {
                8
            }
        }
    }

    /// Fetch the little-endian 16-bit immediate at the program counter and
    /// advance it by two.
    pub(crate) fn fetch_word(&mut self) -> (r: u16)
        requires
            old(self).wf(),
        ensures
            final(self).wf(),
            r == word_at(old(self).mem(), old(self).regs().pc),
            final(self).regs() == (Registers {
                pc: ((old(self).regs().pc + 2) % 0x10000) as u16,
                ..old(self).regs()
            }),
            final(self).mem() == old(self).mem(),
            same_ctrl(*old(self), *final(self)),
    {
        let lo = self.fetch_byte();
        let hi = self.fetch_byte();
        proof {
            lemma_add_mod_noop(old(self).regs().pc as int, 1, 0x10000);
            lemma_add_mod_noop((old(self).regs().pc + 1) as int, 1, 0x10000);
            assert((old(self).regs().pc + 1) % 0x10000 + 1 == (old(self).regs().pc as int + 2)
                || old(self).regs().pc as int + 1 == 0x10000);
        }
        (lo as u16) + (hi as u16) * 256
    }

    /// Execute a `Misc`-class instruction: NOP, STOP, HALT, DI, EI, and the
    /// 16-bit increments and decrements (which touch no flag).
    pub(crate) fn op_misc(&mut self, opcode: u8) -> (cycles: u8)
        requires
            old(self).wf(),
            primary_class(opcode) == OpType::Misc,
        ensures
            final(self).wf(),
            cycles == primary_cycles(opcode),
            misc_post(
                old(self).regs(),
                old(self).mem(),
                final(self).regs(),
                final(self).mem(),
                opcode,
            ),
            final(self).cpu_state() == (if opcode == 0x76 {
                CpuState::Halted
            } else if opcode == 0x10 {
                CpuState::Stopped
            } else {
                old(self).cpu_state()
            }),
            final(self).ime_enabled() == (if opcode == 0xF3 {
                false
            } else {
                old(self).ime_enabled()
            }),
            final(self).ime_scheduled() == (if opcode == 0xFB {
                true
            } else if opcode == 0xF3 {
                false
            } else {
                old(self).ime_scheduled()
            }),
    {
        match opcode {
            0x00 => 4,
            0x10 => {
                self.state = CpuState::Stopped;
                4
            },
            0x76 => {
                self.state = CpuState::Halted;
                4
            },
            0xF3 => {
                self.ime = false;
                self.ime_pending = false;
                4
            },
            0xFB => {
                self.ime_pending = true;
                4
            },
            0x03 => {
                let v = wrap_inc16(self.reg.bc());
                self.reg.set_bc(v);
                8
            },
            0x13 => {
                let v = wrap_inc16(self.reg.de());
                self.reg.set_de(v);
                8
            },
            0x23 => {
                let v = wrap_inc16(self.reg.hl());
                self.reg.set_hl(v);
                8
            },
            0x33 => {
                self.reg.sp = wrap_inc16(self.reg.sp);
                8
            },
            0x0B => {
                let v = wrap_dec16(self.reg.bc());
                self.reg.set_bc(v);
                8
            },
            0x1B => {
                let v = wrap_dec16(self.reg.de());
                self.reg.set_de(v);
                8
            },
            0x2B => {
                let v = wrap_dec16(self.reg.hl());
                self.reg.set_hl(v);
                8
            },
            0x3B => {
                self.reg.sp = wrap_dec16(self.reg.sp);
                8
            },
            _ => {
                proof {
                    assert(false);
                }
                4
            },
        }
    }

    /// Execute a primary-table `RotShift`-class instruction: the four
    /// accumulator rotates (which clear Zero), DAA, CPL, SCF and CCF. Only
    /// A and F change.
    pub(crate) fn op_rotshift(&mut self, opcode: u8) -> (cycles: u8)
        requires
            old(self).wf(),
            primary_class(opcode) == OpType::RotShift,
        ensures
            final(self).wf(),
            cycles == primary_cycles(opcode),
            same_ctrl(*old(self), *final(self)),
            rotshift_post(
                old(self).regs(),
                old(self).mem(),
                final(self).regs(),
                final(self).mem(),
                opcode,
            ),
    {
        match opcode {
            0x07 => {
                let (a, c) = alu::rlc8(self.reg.a);
                self.reg.a = a;
                self.reg.set_flags(false, false, false, c);
                4
            },
            0x0F => {
                let (a, c) = alu::rrc8(self.reg.a);
                self.reg.a = a;
                self.reg.set_flags(false, false, false, c);
                4
            },
            0x17 => {
                let cin = self.reg.flag(CARRY_FLAG);
                let (a, c) = alu::rl8(self.reg.a, cin);
                self.reg.a = a;
                self.reg.set_flags(false, false, false, c);
                4
            },
            0x1F => {
                let cin = self.reg.flag(CARRY_FLAG);
                let (a, c) = alu::rr8(self.reg.a, cin);
                self.reg.a = a;
                self.reg.set_flags(false, false, false, c);
                4
            },
            0x27 => {
                let n = self.reg.flag(SUBTRACT_FLAG);
                let h = self.reg.flag(HALF_CARRY_FLAG);
                let c = self.reg.flag(CARRY_FLAG);
                let (a, fl) = alu::daa(self.reg.a, n, h, c);
                self.reg.a = a;
                self.reg.set_flags(fl.z, fl.n, fl.h, fl.c);
                4
            },
            0x2F => {
                let z = self.reg.flag(ZERO_FLAG);
                let c = self.reg.flag(CARRY_FLAG);
                self.reg.a = 255 - self.reg.a;
                self.reg.set_flags(z, true, true, c);
                4
            },
            0x37 => {
                let z = self.reg.flag(ZERO_FLAG);
                self.reg.set_flags(z, false, false, true);
                4
            },
            0x3F => {
                let z = self.reg.flag(ZERO_FLAG);
                let c = self.reg.flag(CARRY_FLAG);
                self.reg.set_flags(z, false, false, !c);
                4
            },
            _ => {
                proof {
                    assert(false);
                }
                4
            },
        }
    }
}

/// The result `(a', f')` of the 8-bit accumulator operation selected by
/// the three-bit group index: ADD, ADC, SUB, SBC, AND, XOR, OR, CP applied
/// to A and an operand, under the flags byte `f` (whose Carry feeds ADC
/// and SBC). CP computes the SUB flags but leaves A alone.
pub open spec fn alu8(g: u8, a: u8, b: u8, f: u8) -> (u8, u8) {
    let cin = alu::carry_in(flag_c(f));
    if g == 0 {
        let v = ((a + b) % 256) as u8;
        (v, flags_byte(v == 0, false, a % 16 + b % 16 > 15, a + b > 255))
    } else if g == 1 {
        let v = ((a + b + cin) % 256) as u8;
        (v, flags_byte(v == 0, false, a % 16 + b % 16 + cin > 15, a + b + cin > 255))
    } else if g == 2 {
        let v = ((a - b + 256) % 256) as u8;
        (v, flags_byte(v == 0, true, a % 16 < b % 16, (a as int) < b))
    } else if g == 3 {
        let v = ((a - b - cin + 256) % 256) as u8;
        (v, flags_byte(v == 0, true, a % 16 < b % 16 + cin, (a as int) < b + cin))
    } else if g == 4 {
        let v = a & b;
        (v, flags_byte(v == 0, false, true, false))
    } else if g == 5 {
        let v = a ^ b;
        (v, flags_byte(v == 0, false, false, false))
    } else if g == 6 {
        let v = a | b;
        (v, flags_byte(v == 0, false, false, false))
    } else {
        let v = ((a - b + 256) % 256) as u8;
        (a, flags_byte(v == 0, true, a % 16 < b % 16, (a as int) < b))
    }
}

/// The 8-bit operand selected by a three-bit register index: B, C, D, E,
/// H, L, the byte at (HL), A.
pub open spec fn r8_of(regs: Registers, mem: Seq<u8>, idx: u8) -> u8 {
    if idx == 0 {
        regs.b
    } else if idx == 1 {
        regs.c
    } else if idx == 2 {
        regs.d
    } else if idx == 3 {
        regs.e
    } else if idx == 4 {
        regs.h
    } else if idx == 5 {
        regs.l
    } else if idx == 6 {
        mem[regs.hl_pair() as int]
    } else {
        regs.a
    }
}

/// The observable machine state: registers, memory image, execution mode
/// and the interrupt-master-enable state, as one plain value. The
/// iterated-stepping relation below folds `step` over these.
pub struct MachineView {
    pub regs: Registers,
    pub mem: Seq<u8>,
    pub state: CpuState,
    pub ime: bool,
    pub ime_sched: bool,
}

/// One successful step at the observable level: outside Running mode an
/// idle tick of four cycles that changes nothing, otherwise one executed
/// instruction as `step_post` states it.
pub open spec fn view_step_ok(pre: MachineView, post: MachineView, cycles: u8) -> bool {
    if pre.state == CpuState::Running {
        step_post(pre, post, Ok(cycles), pre.mem[pre.regs.pc as int])
    } else {
        post == pre && cycles == 4
    }
}

/// `n` successful steps from `pre` reach `post` and consume `cycles` in
/// total.
pub open spec fn runs_to(pre: MachineView, post: MachineView, n: nat, cycles: int) -> bool
    decreases n,
{
    if n == 0 {
        post == pre && cycles == 0
    } else {
        exists|mid: MachineView, c: u8|
            runs_to(pre, mid, (n - 1) as nat, cycles - c) && #[trigger] view_step_ok(mid, post, c)
    }
}

/// The one way a step fails: the engine is running and the byte at the
/// program counter is an `Invalid`-class opcode, which `step` reports
/// without touching the machine.
pub open spec fn step_fails(m: MachineView, e: ExecError) -> bool {
    &&& m.state == CpuState::Running
    &&& primary_class(m.mem[m.regs.pc as int]) == OpType::Invalid
    &&& e == (ExecError::IllegalOpcode { opcode: m.mem[m.regs.pc as int], addr: m.regs.pc })
}

/// Everything `step` guarantees of one executed instruction when the
/// engine was running: which opcodes fail and how, how the program counter
/// advances for the straight-line instructions, the exact cycle count, the
/// mode and interrupt-master-enable transitions, and — through
/// `class_post` — the full register and memory effect of every
/// instruction. `op` is the byte at the program counter.
pub open spec fn step_post(
    pre: MachineView,
    post: MachineView,
    r: Result<u8, ExecError>,
    op: u8,
) -> bool {
    let pc0 = pre.regs.pc;
    let f = pre.regs.f;
    if primary_class(op) == OpType::Invalid {
        r == Err::<u8, ExecError>(ExecError::IllegalOpcode { opcode: op, addr: pc0 }) && post == pre
    } else {
        &&& r is Ok
        &&& (primary_class(op) != OpType::Jump && primary_class(op) != OpType::Call
            && primary_class(op) != OpType::Return && op != 0xCB ==> post.regs.pc == ((pc0
            + primary_len(op)) % 0x10000) as u16 && r == Ok::<u8, ExecError>(primary_cycles(op)))
        &&& (op == 0xCB ==> post.regs.pc == ((pc0 + 2) % 0x10000) as u16 && r == Ok::<
            u8,
            ExecError,
        >(ext_cycles(pre.mem[((pc0 + 1) % 0x10000) as int])))
        &&& (primary_class(op) == OpType::Jump || primary_class(op) == OpType::Call
            || primary_class(op) == OpType::Return ==> r == Ok::<u8, ExecError>(
            branch_cycles(op, f),
        ))
        &&& post.state == (if op == 0x76 {
            CpuState::Halted
        } else if op == 0x10 {
            CpuState::Stopped
        } else {
            CpuState::Running
        })
        &&& post.ime == (if op == 0xF3 {
            false
        } else if op == 0xD9 {
            true
        } else {
            pre.ime || pre.ime_sched
        })
        &&& post.ime_sched == (op == 0xFB)
        &&& class_post(
            Registers { pc: ((pc0 + 1) % 0x10000) as u16, ..pre.regs },
            pre.mem,
            post.regs,
            post.mem,
            op,
            pre.mem[((pc0 + 1) % 0x10000) as int],
        )
    }
}

/// Effect of a `Jump`-class instruction: where the program counter goes,
/// that flags and (but for RST's push) registers and memory are untouched,
/// and the stack effect of the RST restart vectors.
pub open spec fn jump_post(
    pre_r: Registers,
    pre_m: Seq<u8>,
    post_r: Registers,
    post_m: Seq<u8>,
    opcode: u8,
) -> bool {
    &&& (post_r.f == pre_r.f)
    &&& (opcode % 8 != 7 ==> post_m == pre_m && post_r == (
            Registers { pc: post_r.pc, ..pre_r }))
    &&& (opcode < 0x40 && (!is_conditional(opcode) || cond_met(opcode, pre_r.f))
                ==> post_r.pc == alu::offset16(
                ((pre_r.pc + 1) % 0x10000) as u16,
                pre_m[pre_r.pc as int],
            ))
    &&& (opcode < 0x40 && is_conditional(opcode) && !cond_met(opcode, pre_r.f)
                ==> post_r.pc == ((pre_r.pc + 1) % 0x10000) as u16)
    &&& ((opcode == 0xC3 || (0xC0 < opcode && opcode % 8 == 2 && is_conditional(opcode)
                && cond_met(opcode, pre_r.f))) ==> post_r.pc == word_at(
                pre_m,
                pre_r.pc,
            ))
    &&& (0xC0 < opcode && opcode % 8 == 2 && is_conditional(opcode) && !cond_met(
                opcode,
                pre_r.f,
            ) ==> post_r.pc == ((pre_r.pc + 2) % 0x10000) as u16)
    &&& (opcode == 0xE9 ==> post_r.pc == pre_r.hl_pair())
    &&& (opcode % 8 == 7 && opcode >= 0xC0 ==> post_r == (Registers {
                pc: (opcode - 0xC7) as u16,
                sp: pushed_sp(pre_r.sp),
                ..pre_r
            }) && post_m == pushed_mem(
                pre_m,
                pre_r.sp,
                pre_r.pc,
            ))
}

/// The per-class data effect of one decoded instruction, dispatched on
/// its class. `pre_r` and `pre_m` hold the state with the program counter
/// already past the opcode byte, and `op2` is the byte at that program
/// counter (the extended opcode after a 0xCB prefix, otherwise the first
/// immediate).
pub open spec fn class_post(
    pre_r: Registers,
    pre_m: Seq<u8>,
    post_r: Registers,
    post_m: Seq<u8>,
    opcode: u8,
    op2: u8,
) -> bool {
    let c = primary_class(opcode);
    &&& (c == OpType::Load ==> load_post(pre_r, pre_m, post_r, post_m, opcode))
    &&& (c == OpType::ALU ==> alu_post(pre_r, pre_m, post_r, post_m, opcode))
    &&& (c == OpType::Misc ==> misc_post(pre_r, pre_m, post_r, post_m, opcode))
    &&& (c == OpType::RotShift ==> rotshift_post(pre_r, pre_m, post_r, post_m, opcode))
    &&& (c == OpType::Jump ==> jump_post(pre_r, pre_m, post_r, post_m, opcode))
    &&& (c == OpType::Call ==> call_post(pre_r, pre_m, post_r, post_m, opcode))
    &&& (c == OpType::Return ==> return_post(pre_r, pre_m, post_r, post_m, opcode))
    &&& (c == OpType::BitOp ==> cb_post(pre_r, pre_m, post_r, post_m, op2))
}

/// Effect of a `Call`-class instruction: taken, the address of the
/// following instruction is pushed and the immediate becomes the program
/// counter; not taken, only the program counter moves past the immediate.
pub open spec fn call_post(
    pre_r: Registers,
    pre_m: Seq<u8>,
    post_r: Registers,
    post_m: Seq<u8>,
    opcode: u8,
) -> bool {
    &&& post_r.f == pre_r.f
    &&& (!is_conditional(opcode) || cond_met(opcode, pre_r.f) ==> post_r == (Registers {
        pc: word_at(pre_m, pre_r.pc),
        sp: pushed_sp(pre_r.sp),
        ..pre_r
    }) && post_m == pushed_mem(pre_m, pre_r.sp, ((pre_r.pc + 2) % 0x10000) as u16))
    &&& (is_conditional(opcode) && !cond_met(opcode, pre_r.f) ==> post_r == (Registers {
        pc: ((pre_r.pc + 2) % 0x10000) as u16,
        ..pre_r
    }) && post_m == pre_m)
}

/// Effect of a `Return`-class instruction: taken, 16 bits are popped into
/// the program counter; not taken, nothing moves. Memory is never written.
pub open spec fn return_post(
    pre_r: Registers,
    pre_m: Seq<u8>,
    post_r: Registers,
    post_m: Seq<u8>,
    opcode: u8,
) -> bool {
    &&& post_m == pre_m
    &&& post_r.f == pre_r.f
    &&& (!is_conditional(opcode) || cond_met(opcode, pre_r.f) ==> post_r == (Registers {
        pc: word_at(pre_m, pre_r.sp),
        sp: ((pre_r.sp + 2) % 0x10000) as u16,
        ..pre_r
    }))
    &&& (is_conditional(opcode) && !cond_met(opcode, pre_r.f) ==> post_r == pre_r)
}

/// Effect of a `Load`-class instruction on registers and memory: every
/// move, the 16-bit immediate loads, PUSH and POP, the 0xFF00-page loads,
/// and the SP-relative arithmetic loads.
pub open spec fn load_post(
    pre_r: Registers,
    pre_m: Seq<u8>,
    post_r: Registers,
    post_m: Seq<u8>,
    opcode: u8,
) -> bool {
    &&& (post_r.pc == ((pre_r.pc + primary_len(opcode) - 1)
                % 0x10000) as u16)
    &&& (opcode != 0xE8 && opcode != 0xF8 && !(opcode == 0xF1) ==> post_r.f == pre_r.f)
    &&& (0x40 <= opcode && opcode <= 0x7F && (opcode - 0x40) / 8 != 6 ==> post_r
                == set_r8(
                pre_r,
                (((opcode - 0x40) / 8) as u8),
                r8_of(pre_r, pre_m, opcode % 8),
            ) && post_m == pre_m)
    &&& (0x40 <= opcode && opcode <= 0x7F && (opcode - 0x40) / 8 == 6 ==> post_r
                == pre_r && post_m == pre_m.update(
                pre_r.hl_pair() as int,
                r8_of(pre_r, pre_m, opcode % 8),
            ))
    &&& (opcode < 0x40 && opcode % 8 == 6 ==> ld_imm8_post(pre_r, pre_m, post_r, post_m, opcode))
    &&& (opcode == 0x01 ==> post_r == (Registers {
                pc: ((pre_r.pc + 2) % 0x10000) as u16,
                ..pre_r.with_bc(word_at(pre_m, pre_r.pc))
            }) && post_m == pre_m)
    &&& (opcode == 0x11 ==> post_r == (Registers {
                pc: ((pre_r.pc + 2) % 0x10000) as u16,
                ..pre_r.with_de(word_at(pre_m, pre_r.pc))
            }) && post_m == pre_m)
    &&& (opcode == 0x21 ==> post_r == (Registers {
                pc: ((pre_r.pc + 2) % 0x10000) as u16,
                ..pre_r.with_hl(word_at(pre_m, pre_r.pc))
            }) && post_m == pre_m)
    &&& (opcode == 0x31 ==> post_r == (Registers {
                pc: ((pre_r.pc + 2) % 0x10000) as u16,
                sp: word_at(pre_m, pre_r.pc),
                ..pre_r
            }) && post_m == pre_m)
    &&& (opcode == 0x02 ==> post_r == pre_r && post_m == pre_m.update(pre_r.bc_pair() as int, pre_r.a))
    &&& (opcode == 0x12 ==> post_r == pre_r && post_m == pre_m.update(pre_r.de_pair() as int, pre_r.a))
    &&& (opcode == 0x22 ==> post_r == pre_r.with_hl(
                ((pre_r.hl_pair() + 1) % 0x10000) as u16,
            ) && post_m == pre_m.update(
                pre_r.hl_pair() as int,
                pre_r.a,
            ))
    &&& (opcode == 0x32 ==> post_r == pre_r.with_hl(
                ((pre_r.hl_pair() + 0x10000 - 1) % 0x10000) as u16,
            ) && post_m == pre_m.update(
                pre_r.hl_pair() as int,
                pre_r.a,
            ))
    &&& (opcode == 0x0A ==> post_r == (Registers {
                a: pre_m[pre_r.bc_pair() as int],
                ..pre_r
            }) && post_m == pre_m)
    &&& (opcode == 0x1A ==> post_r == (Registers {
                a: pre_m[pre_r.de_pair() as int],
                ..pre_r
            }) && post_m == pre_m)
    &&& (opcode == 0x2A ==> post_r == (Registers {
                a: pre_m[pre_r.hl_pair() as int],
                ..pre_r.with_hl(((pre_r.hl_pair() + 1) % 0x10000) as u16)
            }) && post_m == pre_m)
    &&& (opcode == 0x3A ==> post_r == (Registers {
                a: pre_m[pre_r.hl_pair() as int],
                ..pre_r.with_hl(
                    ((pre_r.hl_pair() + 0x10000 - 1) % 0x10000) as u16,
                )
            }) && post_m == pre_m)
    &&& (opcode == 0x08 ==> post_r.pc == ((pre_r.pc + 2)
                % 0x10000) as u16 && post_m == pre_m.update(
                word_at(pre_m, pre_r.pc) as int,
                (pre_r.sp % 256) as u8,
            ).update(
                ((word_at(pre_m, pre_r.pc) + 1) % 0x10000) as int,
                (pre_r.sp / 256) as u8,
            ))
    &&& (opcode == 0xC5 || opcode == 0xD5 || opcode == 0xE5 || opcode == 0xF5 ==> post_m == pushed_mem(
                pre_m,
                pre_r.sp,
                push_operand(pre_r, opcode),
            ) && post_r == (Registers {
                sp: pushed_sp(pre_r.sp),
                ..pre_r
            }))
    &&& (opcode == 0xC1 ==> post_r == (Registers {
                sp: ((pre_r.sp + 2) % 0x10000) as u16,
                ..pre_r.with_bc(word_at(pre_m, pre_r.sp))
            }) && post_m == pre_m)
    &&& (opcode == 0xD1 ==> post_r == (Registers {
                sp: ((pre_r.sp + 2) % 0x10000) as u16,
                ..pre_r.with_de(word_at(pre_m, pre_r.sp))
            }) && post_m == pre_m)
    &&& (opcode == 0xE1 ==> post_r == (Registers {
                sp: ((pre_r.sp + 2) % 0x10000) as u16,
                ..pre_r.with_hl(word_at(pre_m, pre_r.sp))
            }) && post_m == pre_m)
    &&& (opcode == 0xF1 ==> post_r == (Registers {
                sp: ((pre_r.sp + 2) % 0x10000) as u16,
                a: (word_at(pre_m, pre_r.sp) / 256) as u8,
                f: (((word_at(pre_m, pre_r.sp) % 256) / 16) * 16) as u8,
                ..pre_r
            }) && post_m == pre_m)
    &&& (opcode == 0xE0 ==> post_r.pc == ((pre_r.pc + 1)
                % 0x10000) as u16 && post_m == pre_m.update(
                0xFF00 + pre_m[pre_r.pc as int],
                pre_r.a,
            ))
    &&& (opcode == 0xF0 ==> post_r == (Registers {
                a: pre_m[0xFF00 + pre_m[pre_r.pc as int]],
                pc: ((pre_r.pc + 1) % 0x10000) as u16,
                ..pre_r
            }) && post_m == pre_m)
    &&& (opcode == 0xE2 ==> post_r == pre_r && post_m == pre_m.update(0xFF00 + pre_r.c, pre_r.a))
    &&& (opcode == 0xF2 ==> post_r == (Registers {
                a: pre_m[0xFF00 + pre_r.c],
                ..pre_r
            }) && post_m == pre_m)
    &&& (opcode == 0xEA ==> post_r.pc == ((pre_r.pc + 2)
                % 0x10000) as u16 && post_m == pre_m.update(
                word_at(pre_m, pre_r.pc) as int,
                pre_r.a,
            ))
    &&& (opcode == 0xFA ==> post_r == (Registers {
                a: pre_m[word_at(pre_m, pre_r.pc) as int],
                pc: ((pre_r.pc + 2) % 0x10000) as u16,
                ..pre_r
            }) && post_m == pre_m)
    &&& (opcode == 0xF9 ==> post_r == (Registers {
                sp: pre_r.hl_pair(),
                ..pre_r
            }) && post_m == pre_m)
    &&& (opcode == 0xE8 ==> post_r == (Registers {
                sp: alu::offset16(pre_r.sp, pre_m[pre_r.pc as int]),
                f: sp_offset_flags(pre_r.sp, pre_m[pre_r.pc as int]),
                pc: ((pre_r.pc + 1) % 0x10000) as u16,
                ..pre_r
            }) && post_m == pre_m)
    &&& (opcode == 0xF8 ==> post_r == (Registers {
                f: sp_offset_flags(pre_r.sp, pre_m[pre_r.pc as int]),
                pc: ((pre_r.pc + 1) % 0x10000) as u16,
                ..pre_r.with_hl(
                    alu::offset16(pre_r.sp, pre_m[pre_r.pc as int]),
                )
            }) && post_m == pre_m)
}

/// Effect of an `ALU`-class instruction on registers and memory: the
/// eight accumulator operations on a register, (HL) or immediate operand,
/// the 8-bit increments and decrements, and ADD HL,rr.
pub open spec fn alu_post(
    pre_r: Registers,
    pre_m: Seq<u8>,
    post_r: Registers,
    post_m: Seq<u8>,
    op: u8,
) -> bool {
    &&& post_r.sp == pre_r.sp
    &&& (op != 0x34 && op != 0x35 ==> post_m == pre_m)
    &&& (0x80 <= op && op <= 0xBF ==> post_r == (Registers {
        a: alu8((((op - 0x80) / 8) as u8), pre_r.a, r8_of(pre_r, pre_m, op % 8), pre_r.f).0,
        f: alu8((((op - 0x80) / 8) as u8), pre_r.a, r8_of(pre_r, pre_m, op % 8), pre_r.f).1,
        ..pre_r
    }))
    &&& (op >= 0xC0 ==> post_r == (Registers {
        a: alu8((((op - 0xC0) / 8) as u8), pre_r.a, pre_m[pre_r.pc as int], pre_r.f).0,
        f: alu8((((op - 0xC0) / 8) as u8), pre_r.a, pre_m[pre_r.pc as int], pre_r.f).1,
        pc: ((pre_r.pc + 1) % 0x10000) as u16,
        ..pre_r
    }))
    &&& (op < 0x40 && op % 8 == 4 ==> inc_post(pre_r, pre_m, post_r, post_m, op / 8))
    &&& (op < 0x40 && op % 8 == 5 ==> dec_post(pre_r, pre_m, post_r, post_m, op / 8))
    &&& (op < 0x40 && op % 8 == 1 ==> post_r == (Registers {
        f: flags_byte(
            flag_z(pre_r.f),
            false,
            pre_r.hl_pair() % 0x1000 + rr_operand(pre_r, op) % 0x1000 > 0xFFF,
            pre_r.hl_pair() + rr_operand(pre_r, op) > 0xFFFF,
        ),
        ..pre_r.with_hl(((pre_r.hl_pair() + rr_operand(pre_r, op)) % 0x10000) as u16)
    }))
}

/// Effect of a primary-table `RotShift`-class instruction: only A and F
/// change; the four accumulator rotates clear Zero, Subtract and
/// Half-Carry; DAA, CPL, SCF and CCF follow their flag rules.
pub open spec fn rotshift_post(
    pre_r: Registers,
    pre_m: Seq<u8>,
    post_r: Registers,
    post_m: Seq<u8>,
    op: u8,
) -> bool {
    let a = pre_r.a;
    let f = pre_r.f;
    &&& post_m == pre_m
    &&& post_r == (Registers { a: post_r.a, f: post_r.f, ..pre_r })
    &&& (op == 0x07 ==> post_r.a == (a * 2) % 256 + a / 128 && post_r.f == flags_byte(
        false,
        false,
        false,
        a >= 128,
    ))
    &&& (op == 0x0F ==> post_r.a == a / 2 + (a % 2) * 128 && post_r.f == flags_byte(
        false,
        false,
        false,
        a % 2 == 1,
    ))
    &&& (op == 0x17 ==> post_r.a == (a * 2) % 256 + alu::carry_in(flag_c(f)) && post_r.f
        == flags_byte(false, false, false, a >= 128))
    &&& (op == 0x1F ==> post_r.a == a / 2 + alu::carry_in(flag_c(f)) * 128 && post_r.f
        == flags_byte(false, false, false, a % 2 == 1))
    &&& (op == 0x27 ==> post_r.a == alu::daa_result(a, flag_n(f), flag_h(f), flag_c(f))
        && post_r.f == flags_byte(
        post_r.a == 0,
        flag_n(f),
        false,
        alu::daa_carry(a, flag_n(f), flag_c(f)),
    ))
    &&& (op == 0x2F ==> post_r.a == 255 - a && post_r.f == flags_byte(
        flag_z(f),
        true,
        true,
        flag_c(f),
    ))
    &&& (op == 0x37 ==> post_r.a == a && post_r.f == flags_byte(flag_z(f), false, false, true))
    &&& (op == 0x3F ==> post_r.a == a && post_r.f == flags_byte(flag_z(f), false, false, !flag_c(f)))
}

/// Effect of a `Misc`-class instruction on registers and memory: NOP,
/// STOP, HALT, DI and EI leave both alone; the 16-bit increments and
/// decrements wrap their pair and touch no flag.
pub open spec fn misc_post(
    pre_r: Registers,
    pre_m: Seq<u8>,
    post_r: Registers,
    post_m: Seq<u8>,
    op: u8,
) -> bool {
    &&& post_m == pre_m
    &&& post_r.pc == pre_r.pc
    &&& post_r.f == pre_r.f
    &&& post_r.a == pre_r.a
    &&& (op == 0x03 ==> post_r == pre_r.with_bc(((pre_r.bc_pair() + 1) % 0x10000) as u16))
    &&& (op == 0x13 ==> post_r == pre_r.with_de(((pre_r.de_pair() + 1) % 0x10000) as u16))
    &&& (op == 0x23 ==> post_r == pre_r.with_hl(((pre_r.hl_pair() + 1) % 0x10000) as u16))
    &&& (op == 0x33 ==> post_r == (Registers { sp: ((pre_r.sp + 1) % 0x10000) as u16, ..pre_r }))
    &&& (op == 0x0B ==> post_r == pre_r.with_bc(((pre_r.bc_pair() + 0x10000 - 1) % 0x10000) as u16))
    &&& (op == 0x1B ==> post_r == pre_r.with_de(((pre_r.de_pair() + 0x10000 - 1) % 0x10000) as u16))
    &&& (op == 0x2B ==> post_r == pre_r.with_hl(((pre_r.hl_pair() + 0x10000 - 1) % 0x10000) as u16))
    &&& (op == 0x3B ==> post_r == (Registers {
        sp: ((pre_r.sp + 0x10000 - 1) % 0x10000) as u16,
        ..pre_r
    }))
    &&& (op == 0x00 || op == 0x10 || op == 0x76 || op == 0xF3 || op == 0xFB ==> post_r == pre_r)
}

/// Whether a control-flow opcode is conditional (JR cc, JP cc, CALL cc,
/// RET cc).
pub open spec fn is_conditional(op: u8) -> bool {
    (op == 0x20 || op == 0x28 || op == 0x30 || op == 0x38) || (0xC0 <= op && op <= 0xDC && (op % 8
        == 0 || op % 8 == 2 || op % 8 == 4))
}

/// Whether the condition encoded in a conditional control-flow opcode
/// (not-zero, zero, not-carry, carry) holds under the flags byte `f`.
pub open spec fn cond_met(op: u8, f: u8) -> bool {
    let idx = (op / 8) % 4;
    if idx == 0 {
        !flag_z(f)
    } else if idx == 1 {
        flag_z(f)
    } else if idx == 2 {
        !flag_c(f)
    } else {
        flag_c(f)
    }
}

/// The cycle cost of a conditional control-flow instruction when the
/// branch is taken: 12 for JR, 16 for JP, 24 for CALL, 20 for RET.
pub open spec fn taken_cycles(op: u8) -> u8 {
    if op < 0x40 {
        12
    } else if primary_class(op) == OpType::Call {
        24
    } else if primary_class(op) == OpType::Return {
        20
    } else {
        16
    }
}

/// The cycles a control-flow instruction reports: the base cost unless a
/// conditional branch is taken.
pub open spec fn branch_cycles(op: u8, f: u8) -> u8 {
    if is_conditional(op) && cond_met(op, f) {
        taken_cycles(op)
    } else {
        primary_cycles(op)
    }
}

/// The result and carry-out of the extended-table rotate/shift/swap group
/// selected by `g` (RLC, RRC, RL, RR, SLA, SRA, SWAP, SRL) on `v` under
/// the flags byte `f` (whose Carry feeds RL and RR).
pub open spec fn cb_rot(g: u8, v: u8, f: u8) -> (u8, bool) {
    if g == 0 {
        ((((v * 2) % 256 + v / 128)) as u8, v >= 128)
    } else if g == 1 {
        (((v / 2 + (v % 2) * 128)) as u8, v % 2 == 1)
    } else if g == 2 {
        ((((v * 2) % 256 + alu::carry_in(flag_c(f)))) as u8, v >= 128)
    } else if g == 3 {
        (((v / 2 + alu::carry_in(flag_c(f)) * 128)) as u8, v % 2 == 1)
    } else if g == 4 {
        ((((v * 2) % 256)) as u8, v >= 128)
    } else if g == 5 {
        (((v / 2 + (v / 128) * 128)) as u8, v % 2 == 1)
    } else if g == 6 {
        ((((v % 16) * 16 + v / 16)) as u8, false)
    } else {
        ((v / 2) as u8, v % 2 == 1)
    }
}

/// Effect of one extended-table instruction `op2` (after the 0xCB prefix):
/// the rotate/shift/swap group stores its result and flags, BIT only sets
/// flags (Zero from the complemented bit, Half-Carry set, Carry kept), RES
/// and SET store the modified byte and leave the flags alone. The program
/// counter moves past the second opcode byte.
pub open spec fn cb_post(
    pre_r: Registers,
    pre_m: Seq<u8>,
    post_r: Registers,
    post_m: Seq<u8>,
    op2: u8,
) -> bool {
    let t = op2 % 8;
    let g = op2 / 8;
    let v = r8_of(pre_r, pre_m, t);
    let pc2 = ((pre_r.pc + 1) % 0x10000) as u16;
    if g < 8 {
        let v2 = cb_rot(g, v, pre_r.f).0;
        let f2 = flags_byte(v2 == 0, false, false, cb_rot(g, v, pre_r.f).1);
        if t == 6 {
            post_r == (Registers { pc: pc2, f: f2, ..pre_r }) && post_m == pre_m.update(
                pre_r.hl_pair() as int,
                v2,
            )
        } else {
            post_r == (Registers { pc: pc2, f: f2, ..set_r8(pre_r, t, v2) }) && post_m == pre_m
        }
    } else if g < 16 {
        let f2 = flags_byte(!alu::bit_of(v, (g - 8) as u8), false, true, flag_c(pre_r.f));
        post_r == (Registers { pc: pc2, f: f2, ..pre_r }) && post_m == pre_m
    } else {
        let v2 = if g < 24 {
            alu::bit_res_val(v, (g - 16) as u8)
        } else {
            alu::bit_set_val(v, (g - 24) as u8)
        };
        if t == 6 {
            post_r == (Registers { pc: pc2, ..pre_r }) && post_m == pre_m.update(
                pre_r.hl_pair() as int,
                v2,
            )
        } else {
            post_r == (Registers { pc: pc2, ..set_r8(pre_r, t, v2) }) && post_m == pre_m
        }
    }
}

/// The register file with the 8-bit operand at a three-bit index replaced;
/// index six (the byte at (HL)) lives in memory, so the registers are
/// unchanged there.
pub open spec fn set_r8(regs: Registers, idx: u8, v: u8) -> Registers {
    if idx == 0 {
        Registers { b: v, ..regs }
    } else if idx == 1 {
        Registers { c: v, ..regs }
    } else if idx == 2 {
        Registers { d: v, ..regs }
    } else if idx == 3 {
        Registers { e: v, ..regs }
    } else if idx == 4 {
        Registers { h: v, ..regs }
    } else if idx == 5 {
        Registers { l: v, ..regs }
    } else if idx == 6 {
        regs
    } else {
        Registers { a: v, ..regs }
    }
}

/// Effect of an 8-bit INC on the operand at index `t`: the operand is
/// incremented modulo 256, Zero and Half-Carry are computed, Subtract is
/// cleared and Carry is untouched.
pub open spec fn inc_post(
    pre_r: Registers,
    pre_m: Seq<u8>,
    post_r: Registers,
    post_m: Seq<u8>,
    t: u8,
) -> bool {
    let v = r8_of(pre_r, pre_m, t);
    let v2 = (((v + 1) % 256)) as u8;
    let f2 = flags_byte(v2 == 0, false, v % 16 == 15, flag_c(pre_r.f));
    post_r == (Registers { f: f2, ..set_r8(pre_r, t, v2) }) && post_m == (if t == 6 {
        pre_m.update(pre_r.hl_pair() as int, v2)
    } else {
        pre_m
    })
}

/// Effect of an 8-bit DEC on the operand at index `t`: decremented modulo
/// 256, Subtract set, Carry untouched.
pub open spec fn dec_post(
    pre_r: Registers,
    pre_m: Seq<u8>,
    post_r: Registers,
    post_m: Seq<u8>,
    t: u8,
) -> bool {
    let v = r8_of(pre_r, pre_m, t);
    let v2 = (((v + 255) % 256)) as u8;
    let f2 = flags_byte(v2 == 0, true, v % 16 == 0, flag_c(pre_r.f));
    post_r == (Registers { f: f2, ..set_r8(pre_r, t, v2) }) && post_m == (if t == 6 {
        pre_m.update(pre_r.hl_pair() as int, v2)
    } else {
        pre_m
    })
}

/// Effect of LD r,n / LD (HL),n: the immediate byte at the program counter
/// is stored into the operand at index `opcode / 8`, and the program
/// counter moves past the immediate.
pub open spec fn ld_imm8_post(
    pre_r: Registers,
    pre_m: Seq<u8>,
    post_r: Registers,
    post_m: Seq<u8>,
    opcode: u8,
) -> bool {
    let t = (opcode / 8) as u8;
    let n = pre_m[pre_r.pc as int];
    if t == 6 {
        post_r == (Registers { pc: ((pre_r.pc + 1) % 0x10000) as u16, ..pre_r }) && post_m
            == pre_m.update(pre_r.hl_pair() as int, n)
    } else {
        post_r == (Registers { pc: ((pre_r.pc + 1) % 0x10000) as u16, ..set_r8(pre_r, t, n) })
            && post_m == pre_m
    }
}

/// The 16-bit operand of PUSH: BC, DE, HL or AF by opcode.
pub open spec fn push_operand(regs: Registers, opcode: u8) -> u16 {
    if opcode == 0xC5 {
        regs.bc_pair()
    } else if opcode == 0xD5 {
        regs.de_pair()
    } else if opcode == 0xE5 {
        regs.hl_pair()
    } else {
        regs.af_pair()
    }
}

/// The flags ADD SP,n and LD HL,SP+n produce: Zero and Subtract cleared,
/// Half-Carry and Carry from the unsigned addition of the offset byte to
/// the low byte of SP.
pub open spec fn sp_offset_flags(sp: u16, n: u8) -> u8 {
    flags_byte(false, false, sp % 16 + n % 16 > 15, sp % 256 + n > 255)
}

/// The 16-bit operand of ADD HL,rr: BC, DE, HL or SP by opcode.
pub open spec fn rr_operand(regs: Registers, opcode: u8) -> u16 {
    if opcode == 0x09 {
        regs.bc_pair()
    } else if opcode == 0x19 {
        regs.de_pair()
    } else if opcode == 0x29 {
        regs.hl_pair()
    } else {
        regs.sp
    }
}

/// Execution mode and interrupt-master-enable state unchanged.
pub open spec fn same_ctrl(a: Cpu, b: Cpu) -> bool {
    a.cpu_state() == b.cpu_state() && a.ime_enabled() == b.ime_enabled() && a.ime_scheduled()
        == b.ime_scheduled()
}

/// Half-Carry and Carry of the SP-relative addition: carries out of bit 3
/// and bit 7 of the unsigned addition of the offset byte to SP's low byte.
pub(crate) fn sp_offset_carries(sp: u16, n: u8) -> (r: (bool, bool))
    ensures
        r.0 == (sp % 16 + n % 16 > 15),
        r.1 == (sp % 256 + n > 255),
{
    ((sp % 16) + (n % 16) as u16 > 15, (sp % 256) + n as u16 > 255)
}

/// Increment a 16-bit value, wrapping.
pub(crate) fn wrap_inc16(x: u16) -> (r: u16)
    ensures
        r == (x + 1) % 0x10000,
{
    if x == 0xFFFF {
        0
    } else {
        x + 1
    }
}

/// Decrement a 16-bit value, wrapping.
pub(crate) fn wrap_dec16(x: u16) -> (r: u16)
    ensures
        r == (x + 0x10000 - 1) % 0x10000,
{
    if x == 0 {
        0xFFFF
    } else {
        x - 1
    }
}

/// Add two to a 16-bit value, wrapping.
pub(crate) fn wrap_add2(x: u16) -> (r: u16)
    ensures
        r == (x + 2) % 0x10000,
{
    if x >= 0xFFFE {
        x - 0xFFFE
    } else {
        x + 2
    }
}

/// Subtract two from a 16-bit value, wrapping.
pub(crate) fn wrap_sub2(x: u16) -> (r: u16)
    ensures
        r == pushed_sp(x),
{
    if x < 2 {
        x + 0xFFFE
    } else {
        x - 2
    }
}

} // verus!
