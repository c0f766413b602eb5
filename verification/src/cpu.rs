//! The virtual CPU and its call bridge.
//!
//! A [`VirtualCpu`] owns the register file, the per-call stack frame
//! bookkeeping, the arena it executes against, and the session
//! environment. Native routines are run by a fetch/decode/execute loop
//! over a small subset of the target's fixed-width instruction set; an
//! opcode the loop cannot emulate is a fatal
//! [`Error::UnsupportedInstruction`], never a silent skip, and a
//! runaway execution is cut off by an instruction budget and surfaced
//! as the same fatal class.
//!
//! The meaning of an execution is pinned down by the specification
//! interpreter [`run`]: the executable loop is proved to return exactly
//! what `run` says for the entry state.

use vstd::prelude::*;

use crate::arena::{mem_in_range, mem_read_u32, mem_read_u64, mem_write_u64, Arena};
use crate::env::Environment;
use crate::error::Error;

verus! {

/// The address a bridged routine returns to; reaching it ends the run.
pub const RETURN_SENTINEL: u64 = 0xFFFF_FFFF_FFFF_FF00;

/// Ceiling on executed instructions per bridged call, bounding
/// pathological jumps to a wrong or zero address.
pub const INSN_BUDGET: u64 = 65536;

/// Number of general registers in the register file.
pub const REG_COUNT: usize = 32;

/// A decoded instruction. The loop emulates a deliberately small
/// subset of the target's instruction set; forms that reference the
/// stack/zero register slot are not emulated.
#[derive(Clone, Copy, Debug, PartialEq, Eq, Structural)]
pub enum Insn {
    /// No operation.
    Nop,
    /// Return to the address held in the link register (register 30).
    Ret,
    /// Move a 16-bit immediate, shifted left by `16 * hw`, into a
    /// register; `negate` moves the bitwise complement; `sf` selects
    /// the 64-bit form, the 32-bit form zeroes the upper half.
    MovWide { negate: bool, sf: bool, rd: u32, hw: u32, imm16: u32 },
    /// Load a 64-bit scalar at `reg[rn] + imm12 * 8`.
    Ldr { rt: u32, rn: u32, imm12: u32 },
    /// Store a 64-bit scalar to `reg[rn] + imm12 * 8`.
    Str { rt: u32, rn: u32, imm12: u32 },
    /// Anything else: fatal.
    Unsupported,
}

/// Instruction decoding, as data: a total function from a fetched
/// 32-bit word to the instruction it encodes.
pub open spec fn decode(w: u32) -> Insn {
    if w == 0xD503201F {
        Insn::Nop
    } else if w == 0xD65F03C0 {
        Insn::Ret
    } else if (w >> 23) & 0x3F == 0x25 {
        let opc = (w >> 29) & 0x3;
        let hw = (w >> 21) & 0x3;
        let rd = w & 0x1F;
        let imm16 = (w >> 5) & 0xFFFF;
        let sf = (w >> 31) == 1;
        if rd == 31 || (opc != 0 && opc != 2) || (!sf && hw >= 2) {
            Insn::Unsupported
        } else {
            Insn::MovWide { negate: opc == 0, sf, rd, hw, imm16 }
        }
    } else if (w >> 22) == 0x3E5 {
        let rt = w & 0x1F;
        let rn = (w >> 5) & 0x1F;
        let imm12 = (w >> 10) & 0xFFF;
        if rt == 31 || rn == 31 {
            Insn::Unsupported
        } else {
            Insn::Ldr { rt, rn, imm12 }
        }
    } else if (w >> 22) == 0x3E4 {
        let rt = w & 0x1F;
        let rn = (w >> 5) & 0x1F;
        let imm12 = (w >> 10) & 0xFFF;
        if rt == 31 || rn == 31 {
            Insn::Unsupported
        } else {
            Insn::Str { rt, rn, imm12 }
        }
    } else {
        Insn::Unsupported
    }
}

/// Executable decoder, proved to agree with [`decode`].
pub fn decode_insn(w: u32) -> (r: Insn)
    ensures
        r == decode(w),
        match r {
            Insn::MovWide { rd, hw, imm16, .. } => rd < 31 && hw < 4 && imm16 <= 0xFFFF,
            Insn::Ldr { rt, rn, imm12 } => rt < 31 && rn < 31 && imm12 <= 0xFFF,
            Insn::Str { rt, rn, imm12 } => rt < 31 && rn < 31 && imm12 <= 0xFFF,
            _ => true,
        },
{
    proof {
        assert((w & 0x1F) <= 0x1F) by (bit_vector);
        assert(((w >> 5) & 0x1F) <= 0x1F) by (bit_vector);
        assert(((w >> 10) & 0xFFF) <= 0xFFF) by (bit_vector);
        assert(((w >> 21) & 0x3) <= 0x3) by (bit_vector);
        assert(((w >> 5) & 0xFFFF) <= 0xFFFF) by (bit_vector);
    }
    if w == 0xD503201F {
        Insn::Nop
    } else if w == 0xD65F03C0 {
        Insn::Ret
    } else if (w >> 23) & 0x3F == 0x25 {
        let opc = (w >> 29) & 0x3;
        let hw = (w >> 21) & 0x3;
        let rd = w & 0x1F;
        let imm16 = (w >> 5) & 0xFFFF;
        let sf = (w >> 31) == 1;
        if rd == 31 || (opc != 0 && opc != 2) || (!sf && hw >= 2) {
            Insn::Unsupported
        } else {
            Insn::MovWide { negate: opc == 0, sf, rd, hw, imm16 }
        }
    } else if (w >> 22) == 0x3E5 {
        let rt = w & 0x1F;
        let rn = (w >> 5) & 0x1F;
        let imm12 = (w >> 10) & 0xFFF;
        if rt == 31 || rn == 31 {
            Insn::Unsupported
        } else {
            Insn::Ldr { rt, rn, imm12 }
        }
    } else if (w >> 22) == 0x3E4 {
        let rt = w & 0x1F;
        let rn = (w >> 5) & 0x1F;
        let imm12 = (w >> 10) & 0xFFF;
        if rt == 31 || rn == 31 {
            Insn::Unsupported
        } else {
            Insn::Str { rt, rn, imm12 }
        }
    } else {
        Insn::Unsupported
    }
}

/// The value a move-wide instruction writes to its register.
pub open spec fn movwide_value(negate: bool, sf: bool, hw: u32, imm16: u32) -> u64 {
    let sh = if hw == 0 {
        0u64
    } else if hw == 1 {
        16u64
    } else if hw == 2 {
        32u64
    } else {
        48u64
    };
    let pos = (imm16 as u64) << sh;
    let v = if negate {
        !pos
    } else {
        pos
    };
    if sf {
        v
    } else {
        v & 0xFFFF_FFFF
    }
}

/// Executable counterpart of [`movwide_value`].
fn movwide_value_exec(negate: bool, sf: bool, hw: u32, imm16: u32) -> (r: u64)
    requires
        hw < 4,
    ensures
        r == movwide_value(negate, sf, hw, imm16),
{
    let sh: u64 = if hw == 0 {
        0
    } else if hw == 1 {
        16
    } else if hw == 2 {
        32
    } else {
        48
    };
    let pos = (imm16 as u64) << sh;
    let v = if negate {
        !pos
    } else {
        pos
    };
    if sf {
        v
    } else {
        v & 0xFFFF_FFFF
    }
}

/// Wrapping 64-bit address arithmetic, as the target hardware does it.
pub open spec fn wrap_add_u64(a: u64, b: u64) -> u64 {
    vstd::wrapping::u64_specs::wrapping_add(a, b)
}

/// A machine state of the specification interpreter: register file,
/// memory contents, and program counter.
pub ghost struct MState {
    pub regs: Seq<u64>,
    pub mem: Seq<u8>,
    pub pc: u64,
}

/// The specification interpreter: what executing at most `fuel` more
/// instructions from state `s` yields. `base` is the arena base the
/// memory view is addressed from. Reaching [`RETURN_SENTINEL`] ends
/// the run successfully; exhausting the fuel, fetching or touching
/// memory out of range, and any instruction outside the emulated
/// subset are faults.
pub open spec fn run(base: int, s: MState, fuel: nat) -> Result<MState, Error>
    decreases fuel,
{
    if s.pc == RETURN_SENTINEL {
        Ok(s)
    } else if fuel == 0 {
        Err(Error::UnsupportedInstruction)
    } else if !mem_in_range(base, s.mem, s.pc as int, 4) {
        Err(Error::OutOfRange)
    } else {
        let w = mem_read_u32(base, s.mem, s.pc as int);
        match decode(w) {
            Insn::Nop => run(
                base,
                MState { regs: s.regs, mem: s.mem, pc: (s.pc + 4) as u64 },
                (fuel - 1) as nat,
            ),
            Insn::Ret => run(
                base,
                MState { regs: s.regs, mem: s.mem, pc: s.regs[30] },
                (fuel - 1) as nat,
            ),
            Insn::MovWide { negate, sf, rd, hw, imm16 } => run(
                base,
                MState {
                    regs: s.regs.update(rd as int, movwide_value(negate, sf, hw, imm16)),
                    mem: s.mem,
                    pc: (s.pc + 4) as u64,
                },
                (fuel - 1) as nat,
            ),
            Insn::Ldr { rt, rn, imm12 } => {
                let ea = wrap_add_u64(s.regs[rn as int], (imm12 * 8) as u64);
                if !mem_in_range(base, s.mem, ea as int, 8) {
                    Err(Error::OutOfRange)
                } else {
                    run(
                        base,
                        MState {
                            regs: s.regs.update(rt as int, mem_read_u64(base, s.mem, ea as int)),
                            mem: s.mem,
                            pc: (s.pc + 4) as u64,
                        },
                        (fuel - 1) as nat,
                    )
                }
            },
            Insn::Str { rt, rn, imm12 } => {
                let ea = wrap_add_u64(s.regs[rn as int], (imm12 * 8) as u64);
                if !mem_in_range(base, s.mem, ea as int, 8) {
                    Err(Error::OutOfRange)
                } else {
                    run(
                        base,
                        MState {
                            regs: s.regs,
                            mem: mem_write_u64(base, s.mem, ea as int, s.regs[rt as int]),
                            pc: (s.pc + 4) as u64,
                        },
                        (fuel - 1) as nat,
                    )
                }
            },
            Insn::Unsupported => Err(Error::UnsupportedInstruction),
        }
    }
}

/// What a bridged jump to `addr` yields, from the given register file
/// and memory: the target address is validated non-null and in-range
/// before any execution, and the link register is pointed at the
/// return sentinel.
pub open spec fn jump_outcome(base: int, mem: Seq<u8>, regs: Seq<u64>, addr: u64) -> Result<
    MState,
    Error,
> {
    if addr == 0 || !mem_in_range(base, mem, addr as int, 4) {
        Err(Error::OutOfRange)
    } else {
        run(base, MState { regs: regs.update(30, RETURN_SENTINEL), mem, pc: addr }, INSN_BUDGET as nat)
    }
}

/// Register file, stack-frame bookkeeping, the arena executed against,
/// and the session environment.
pub struct VirtualCpu {
    /// The emulated memory this CPU fetches from and operates on.
    pub mem: Arena,
    /// The per-session environment.
    pub env: Environment,
    /// The general register file; always [`REG_COUNT`] entries.
    pub regs: Vec<u64>,
    /// Top of the reserved per-call stack region; the stack grows
    /// downward from here.
    pub frame_base: u64,
    /// Floor of the reserved stack region.
    pub stack_limit: u64,
    /// Current stack bump pointer.
    pub sp: u64,
}

impl VirtualCpu {
    /// Well-formedness: the register file is full-size and the
    /// reserved stack region lies inside the arena.
    pub open spec fn wf(&self) -> bool {
        &&& self.mem.wf()
        &&& self.regs@.len() == REG_COUNT
        &&& self.stack_limit <= self.sp <= self.frame_base
        &&& self.mem.in_range(self.stack_limit as int, self.frame_base - self.stack_limit)
    }

    /// All fields except the register file, the memory contents and
    /// the bump pointer are equal: what every bridge step preserves.
    pub open spec fn same_session(&self, other: &VirtualCpu) -> bool {
        &&& self.mem.base == other.mem.base
        &&& self.mem.data@.len() == other.mem.data@.len()
        &&& self.env == other.env
        &&& self.frame_base == other.frame_base
        &&& self.stack_limit == other.stack_limit
    }

    /// Create a CPU over `mem` with a reserved stack frame region
    /// `[frame_base - frame_size, frame_base)`. All registers start
    /// zeroed and the bump pointer starts at the frame base.
    pub fn new(mem: Arena, env: Environment, frame_base: u64, frame_size: u64) -> (r: VirtualCpu)
        requires
            mem.wf(),
            frame_size <= frame_base,
            mem.in_range(frame_base - frame_size, frame_size as int),
        ensures
            r.wf(),
            r.mem == mem,
            r.env == env,
            r.frame_base == frame_base,
            r.stack_limit == frame_base - frame_size,
            r.sp == frame_base,
            forall|i: int| 0 <= i < REG_COUNT ==> r.regs@[i] == 0u64,
    {
        let mut regs: Vec<u64> = Vec::new();
        let mut i: usize = 0;
        while i < REG_COUNT
            invariant
                i <= REG_COUNT,
                regs@.len() == i,
                forall|j: int| 0 <= j < i ==> regs@[j] == 0u64,
            decreases REG_COUNT - i,
        {
            regs.push(0u64);
            i = i + 1;
        }
        VirtualCpu { mem, env, regs, frame_base, stack_limit: frame_base - frame_size, sp: frame_base }
    }

    /// Discard any previous frame: the stack bump pointer returns to
    /// the frame base, regardless of prior allocations. Nothing else
    /// changes.
    pub fn reset_stack(&mut self)
        ensures
            final(self).sp == old(self).frame_base,
            final(self).mem == old(self).mem,
            final(self).env == old(self).env,
            final(self).regs == old(self).regs,
            final(self).frame_base == old(self).frame_base,
            final(self).stack_limit == old(self).stack_limit,
            old(self).wf() ==> final(self).wf(),
    {
        self.sp = self.frame_base;
    }

    /// Bump-allocate `size` bytes downward from the current stack
    /// pointer, mimicking a growing-downward native stack. Returns the
    /// (uninitialized) base address of the new range; fails with
    /// `StackOverflow` once the reserved region is exhausted, never
    /// silently overruns.
    pub fn stack_alloc(&mut self, size: u64) -> (r: Result<u64, Error>)
        requires
            old(self).wf(),
        ensures
            final(self).wf(),
            final(self).mem == old(self).mem,
            final(self).env == old(self).env,
            final(self).regs == old(self).regs,
            final(self).frame_base == old(self).frame_base,
            final(self).stack_limit == old(self).stack_limit,
            r is Ok <==> old(self).sp as int - size as int >= old(self).stack_limit as int,
            r is Ok ==> r->Ok_0 == old(self).sp - size && final(self).sp == old(self).sp - size,
            r is Err ==> r->Err_0 == Error::StackOverflow && final(self).sp == old(self).sp,
    {
        if size > self.sp - self.stack_limit {
            return Err(Error::StackOverflow);
        }
        self.sp = self.sp - size;
        Ok(self.sp)
    }

    /// Read general register `i`.
    pub fn read_x(&self, i: usize) -> (r: u64)
        requires
            self.wf(),
            i < REG_COUNT,
        ensures
            r == self.regs@[i as int],
    {
        self.regs[i]
    }

    /// Write general register `i`.
    pub fn write_x(&mut self, i: usize, v: u64)
        requires
            old(self).wf(),
            i < REG_COUNT,
        ensures
            final(self).wf(),
            final(self).regs@ == old(self).regs@.update(i as int, v),
            final(self).mem == old(self).mem,
            final(self).env == old(self).env,
            final(self).sp == old(self).sp,
            final(self).frame_base == old(self).frame_base,
            final(self).stack_limit == old(self).stack_limit,
    {
        self.regs[i] = v;
    }

    /// Write the 32-bit low view of register `i`; the upper half is
    /// zeroed, following the target's calling convention.
    pub fn write_w(&mut self, i: usize, v: u32)
        requires
            old(self).wf(),
            i < REG_COUNT,
        ensures
            final(self).wf(),
            final(self).regs@ == old(self).regs@.update(i as int, v as u64),
            final(self).mem == old(self).mem,
            final(self).env == old(self).env,
            final(self).sp == old(self).sp,
            final(self).frame_base == old(self).frame_base,
            final(self).stack_limit == old(self).stack_limit,
    {
        self.regs[i] = v as u64;
    }

    /// Read the 32-bit low view of register `i`.
    pub fn read_w(&self, i: usize) -> (r: u32)
        requires
            self.wf(),
            i < REG_COUNT,
        ensures
            r == (self.regs@[i as int] & 0xFFFF_FFFF) as u32,
    {
        (self.regs[i] & 0xFFFF_FFFF) as u32
    }

    /// Read register `i` as a truth value, as the target's booleans
    /// are returned.
    pub fn read_bool(&self, i: usize) -> (r: bool)
        requires
            self.wf(),
            i < REG_COUNT,
        ensures
            r == (self.regs@[i as int] != 0),
    {
        self.regs[i] != 0
    }

    /// Post-call integrity check that an allocated range still lies
    /// within the reserved frame region; failure indicates a wrong
    /// version offset or a layout mismatch and is diagnostic-fatal.
    pub fn stack_check(&self, ptr: u64, size: u64) -> (r: Result<(), Error>)
        ensures
            r is Ok <==> self.stack_limit <= ptr && ptr as int + size as int
                <= self.frame_base as int,
            r is Err ==> r->Err_0 == Error::DataFault,
    {
        if ptr >= self.stack_limit && size <= self.frame_base && ptr <= self.frame_base - size {
            Ok(())
        } else {
            Err(Error::DataFault)
        }
    }

    /// Transfer control into the fetch/decode/execute loop at absolute
    /// address `addr`, until the routine returns to the sentinel. The
    /// outcome — the exact register and memory effects, or the fault —
    /// is the one the specification interpreter gives for the entry
    /// state; a fault leaves the frame contents unspecified and the
    /// caller must discard the frame.
    pub fn native_jump(&mut self, addr: u64) -> (r: Result<(), Error>)
        requires
            old(self).wf(),
        ensures
            final(self).wf(),
            final(self).same_session(&*old(self)),
            final(self).sp == old(self).sp,
            match jump_outcome(
                old(self).mem.base as int,
                old(self).mem.data@,
                old(self).regs@,
                addr,
            ) {
                Ok(ms) => r is Ok && final(self).regs@ == ms.regs && final(self).mem.data@
                    == ms.mem,
                Err(e) => r is Err && r->Err_0 == e,
            },
            (addr == 0 || !old(self).mem.in_range(addr as int, 4)) ==> *final(self) == *old(self),
    {
        if addr == 0 || !self.mem.check_range(addr, 4) {
            return Err(Error::OutOfRange);
        }
        let ghost base = self.mem.base as int;
        self.regs[30] = RETURN_SENTINEL;
        let ghost start = MState { regs: self.regs@, mem: self.mem.data@, pc: addr };
        let mut pc: u64 = addr;
        let mut fuel: u64 = INSN_BUDGET;
        loop
            invariant
                self.wf(),
                self.same_session(&*old(self)),
                self.sp == old(self).sp,
                base == old(self).mem.base as int,
                fuel <= INSN_BUDGET,
                addr != 0 && old(self).mem.in_range(addr as int, 4),
                jump_outcome(base, old(self).mem.data@, old(self).regs@, addr) == run(
                    base,
                    MState { regs: self.regs@, mem: self.mem.data@, pc },
                    fuel as nat,
                ),
            decreases fuel,
        {
            if pc == RETURN_SENTINEL {
                return Ok(());
            }
            if fuel == 0 {
                return Err(Error::UnsupportedInstruction);
            }
            let w = match self.mem.read_u32(pc) {
                Ok(w) => w,
                Err(e) => {
                    return Err(e);
                },
            };
            fuel = fuel - 1;
            match decode_insn(w) {
                Insn::Nop => {
                    pc = pc + 4;
                },
                Insn::Ret => {
                    pc = self.regs[30];
                },
                Insn::MovWide { negate, sf, rd, hw, imm16 } => {
                    let v = movwide_value_exec(negate, sf, hw, imm16);
                    self.regs[rd as usize] = v;
                    pc = pc + 4;
                },
                Insn::Ldr { rt, rn, imm12 } => {
                    let a = self.regs[rn as usize];
                    let ea = a.wrapping_add((imm12 as u64) * 8);
                    let v = match self.mem.read_u64(ea) {
                        Ok(v) => v,
                        Err(e) => {
                            return Err(e);
                        },
                    };
                    self.regs[rt as usize] = v;
                    pc = pc + 4;
                },
                Insn::Str { rt, rn, imm12 } => {
                    let a = self.regs[rn as usize];
                    let ea = a.wrapping_add((imm12 as u64) * 8);
                    let v = self.regs[rt as usize];
                    match self.mem.write_u64(ea, v) {
                        Ok(u) => u,
                        Err(e) => {
                            return Err(e);
                        },
                    };
                    pc = pc + 4;
                },
                Insn::Unsupported => {
                    return Err(Error::UnsupportedInstruction);
                },
            }
        }
    }

    /// Resolve a per-revision code offset against the environment's
    /// module base and jump there.
    pub fn native_jump_to_main_offset(&mut self, offset: u64) -> (r: Result<(), Error>)
        requires
            old(self).wf(),
        ensures
            final(self).wf(),
            final(self).same_session(&*old(self)),
            final(self).sp == old(self).sp,
            old(self).env.base_address as int + offset as int > u64::MAX ==> r is Err
                && r->Err_0 == Error::OutOfRange && *final(self) == *old(self),
            old(self).env.base_address as int + offset as int <= u64::MAX ==> match jump_outcome(
                old(self).mem.base as int,
                old(self).mem.data@,
                old(self).regs@,
                (old(self).env.base_address + offset) as u64,
            ) {
                Ok(ms) => r is Ok && final(self).regs@ == ms.regs && final(self).mem.data@
                    == ms.mem,
                Err(e) => r is Err && r->Err_0 == e,
            },
    {
        if offset > u64::MAX - self.env.base_address {
            return Err(Error::OutOfRange);
        }
        let target = self.env.base_address + offset;
        self.native_jump(target)
    }
}

/// Law: successive stack allocations within one frame never return
/// overlapping ranges. If a first allocation of `s1` bytes returned
/// `a1` from bump pointer `sp0`, and a second allocation of `s2`
/// bytes then returned `a2`, the ranges `[a1, a1 + s1)` and
/// `[a2, a2 + s2)` are disjoint: one ends before the other begins.
pub proof fn lemma_stack_allocs_disjoint(sp0: int, s1: int, s2: int, a1: int, a2: int)
    requires
        s1 >= 0,
        s2 >= 0,
        a1 == sp0 - s1,
        a2 == a1 - s2,
    ensures
        a2 + s2 <= a1 || a1 + s1 <= a2,
{
}

/// Law: a frame reset always restores the same bump pointer — the
/// frame base — no matter what was allocated before; allocations never
/// move the frame base.
pub proof fn lemma_reset_restores_frame_base(cpu_before: VirtualCpu, cpu_after: VirtualCpu)
    requires
        cpu_after.frame_base == cpu_before.frame_base,
        cpu_after.sp == cpu_after.frame_base,
    ensures
        cpu_after.sp == cpu_before.frame_base,
{
}

} // verus!
