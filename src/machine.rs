//! A simulated RISC-V hart and a word-addressed memory region, on which the
//! trap entry and resume paths are run and stated.
use vstd::prelude::*;
use crate::context::{SPrivilige, UPrivilige, WORD};

verus! {

/// The privilege level a hart runs in.
#[derive(Clone, Copy, Debug, PartialEq, Eq, Structural)]
pub enum Privilege {
    Supervisor,
    User,
    /// Machine mode: a level whose trap-control registers a context does not hold.
    Machine,
}

/// Index of the stack pointer `x2`.
pub const SP: usize = 2;

/// Index of the first argument register `a0` (`x10`).
pub const A0: usize = 10;

/// The architectural state of one hart.
#[derive(Debug)]
pub struct Hart {
    /// `x0` to `x31`.
    pub x: Vec<usize>,
    pub pc: usize,
    pub privilege: Privilege,
    pub s_csrs: SPrivilige,
    pub u_csrs: UPrivilige,
    /// The address-space translation register.
    pub satp: usize,
    /// This hart's free stack, on which its scheduler runs.
    pub free_sp: usize,
    /// This hart's scheduler entry.
    pub schedule_fn: usize,
}

impl Hart {
    /// Thirty-two registers, the first of them zero.
    pub open spec fn wf(&self) -> bool {
        self.x@.len() == 32 && self.x@[0] == 0
    }

    /// A hart with every register zero, running at `pc` in `privilege`.
    pub fn new(pc: usize, privilege: Privilege, satp: usize, free_sp: usize, schedule_fn: usize) -> (r: Hart)
        ensures
            r.wf(),
            forall|i: int| 0 <= i < 32 ==> r.x@[i] == 0,
            r.pc == pc,
            r.privilege == privilege,
            r.s_csrs == (SPrivilige { sstatus: 0, sepc: 0, stvec: 0, sie: 0 }),
            r.u_csrs == (UPrivilige { ustatus: 0, uepc: 0, utvec: 0, uie: 0 }),
            r.satp == satp,
            r.free_sp == free_sp,
            r.schedule_fn == schedule_fn,
    {
        let mut x: Vec<usize> = Vec::new();
        let mut i: usize = 0;
        while i < 32
            invariant
                i <= 32,
                x@.len() == i,
                forall|j: int| 0 <= j < i ==> x@[j] == 0,
            decreases 32 - i,
        {
            x.push(0);
            i = i + 1;
        }
        Hart {
            x,
            pc,
            privilege,
            s_csrs: SPrivilige { sstatus: 0, sepc: 0, stvec: 0, sie: 0 },
            u_csrs: UPrivilige { ustatus: 0, uepc: 0, utvec: 0, uie: 0 },
            satp,
            free_sp,
            schedule_fn,
        }
    }

    /// Register `x_i`; `x0` reads zero.
    pub fn reg(&self, i: usize) -> (r: usize)
        requires
            self.wf(),
            i < 32,
        ensures
            r == self.x@[i as int],
    {
        self.x[i]
    }

    /// Writes register `x_i`; a write to `x0` is dropped.
    pub fn set_reg(&mut self, i: usize, v: usize)
        requires
            old(self).wf(),
            i < 32,
        ensures
            final(self).wf(),
            i == 0 ==> *final(self) == *old(self),
            i != 0 ==> final(self).x@ == old(self).x@.update(i as int, v),
            final(self).pc == old(self).pc,
            final(self).privilege == old(self).privilege,
            final(self).s_csrs == old(self).s_csrs,
            final(self).u_csrs == old(self).u_csrs,
            final(self).satp == old(self).satp,
            final(self).free_sp == old(self).free_sp,
            final(self).schedule_fn == old(self).schedule_fn,
    {
        if i != 0 {
            self.x.set(i, v);
        }
    }
}

/// A contiguous region of memory, `words.len()` machine words from `base`.
#[derive(Debug)]
pub struct Memory {
    pub base: usize,
    pub words: Vec<usize>,
}

impl Memory {
    /// The region holds the word-aligned address `addr`.
    pub open spec fn holds(&self, addr: int) -> bool {
        &&& self.base <= addr
        &&& (addr - self.base) % WORD as int == 0
        &&& (addr - self.base) / (WORD as int) < self.words@.len()
    }

    /// Index in `words` of the word at `addr`.
    pub open spec fn index_of(&self, addr: int) -> int {
        (addr - self.base) / WORD as int
    }

    /// The `n` words from `addr` on.
    pub open spec fn words_at(&self, addr: int, n: int) -> Seq<usize> {
        self.words@.subrange(self.index_of(addr), self.index_of(addr) + n)
    }

    /// A region of `len` zero words from `base`.
    pub fn new(base: usize, len: usize) -> (r: Memory)
        ensures
            r.base == base,
            r.words@ == Seq::new(len as nat, |i: int| 0usize),
    {
        let mut words: Vec<usize> = Vec::new();
        let mut i: usize = 0;
        while i < len
            invariant
                i <= len,
                words@ == Seq::new(i as nat, |j: int| 0usize),
            decreases len - i,
        {
            words.push(0);
            i = i + 1;
            assert(words@ =~= Seq::new(i as nat, |j: int| 0usize));
        }
        Memory { base, words }
    }

    /// The word at `addr`.
    pub fn load(&self, addr: usize) -> (r: usize)
        requires
            self.holds(addr as int),
        ensures
            r == self.words@[self.index_of(addr as int)],
    {
        self.words[(addr - self.base) / WORD]
    }

    /// Writes the word at `addr`, and nothing else.
    pub fn store(&mut self, addr: usize, v: usize)
        requires
            old(self).holds(addr as int),
        ensures
            final(self).base == old(self).base,
            final(self).words@ == old(self).words@.update(old(self).index_of(addr as int), v),
    {
        let i: usize = (addr - self.base) / WORD;
        self.words.set(i, v);
    }
}

/// One instruction of the simulated hart.
#[derive(Clone, Copy, Debug, PartialEq, Eq, Structural)]
pub enum Instr {
    /// `sd src, imm(base)`: stores register `src` at `x[base] + imm`.
    Store { src: usize, base: usize, imm: isize },
    /// `addi dst, src, imm`: sets register `dst` to `x[src] + imm`
    /// (`mv dst, src` is `addi dst, src, 0`).
    AddImm { dst: usize, src: usize, imm: isize },
}

/// The instruction names registers of the hart, computes an address or a
/// value that fits a machine word, and stores only inside `mem`.
pub open spec fn step_ok(h: Hart, mem: Memory, ins: Instr) -> bool {
    match ins {
        Instr::Store { src, base, imm } => {
            &&& src < 32
            &&& base < 32
            &&& h.x@[base as int] + imm <= usize::MAX
            &&& mem.holds(h.x@[base as int] + imm)
        },
        Instr::AddImm { dst, src, imm } => {
            &&& dst < 32
            &&& src < 32
            &&& 0 <= h.x@[src as int] + imm <= usize::MAX
        },
    }
}

/// The sum of a word and a signed immediate, where it fits a word.
fn offset_by(v: usize, imm: isize) -> (r: usize)
    requires
        0 <= v + imm <= usize::MAX,
    ensures
        r == v + imm,
{
    if imm >= 0 {
        v + imm as usize
    } else {
        let mag: usize = (-(imm + 1)) as usize + 1;
        v - mag
    }
}

/// Executes one instruction.
pub fn step(hart: &mut Hart, mem: &mut Memory, ins: Instr)
    requires
        old(hart).wf(),
        step_ok(*old(hart), *old(mem), ins),
    ensures
        final(hart).wf(),
        final(mem).base == old(mem).base,
        match ins {
            Instr::Store { src, base, imm } => {
                &&& *final(hart) == *old(hart)
                &&& final(mem).words@ == old(mem).words@.update(
                    old(mem).index_of(old(hart).x@[base as int] + imm),
                    old(hart).x@[src as int],
                )
            },
            Instr::AddImm { dst, src, imm } => {
                &&& *final(mem) == *old(mem)
                &&& dst == 0 ==> *final(hart) == *old(hart)
                &&& dst != 0 ==> final(hart).x@ == old(hart).x@.update(
                    dst as int,
                    (old(hart).x@[src as int] + imm) as usize,
                )
                &&& final(hart).pc == old(hart).pc
                &&& final(hart).privilege == old(hart).privilege
                &&& final(hart).s_csrs == old(hart).s_csrs
                &&& final(hart).u_csrs == old(hart).u_csrs
                &&& final(hart).satp == old(hart).satp
                &&& final(hart).free_sp == old(hart).free_sp
                &&& final(hart).schedule_fn == old(hart).schedule_fn
            },
        },
{
    match ins {
        Instr::Store { src, base, imm } => {
            let addr = offset_by(hart.reg(base), imm);
            let v = hart.reg(src);
            mem.store(addr, v);
        },
        Instr::AddImm { dst, src, imm } => {
            let v = offset_by(hart.reg(src), imm);
            hart.set_reg(dst, v);
        },
    }
}

} // verus!
