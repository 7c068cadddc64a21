//! Trap entry and resume on a simulated hart.
//!
//! Trap entry spills `x1..x31` into a frame of `TASKCTX_SIZE` bytes below the
//! interrupted stack pointer, storing at negative offsets from the unchanged
//! stack pointer so that no register is touched before it is saved. Only then
//! is the stack pointer lowered onto the frame and the frame's address put in
//! `a0`. The privilege-control registers, the address-space token and the
//! hart's scheduler hooks are recorded after the registers, and control passes
//! to the scheduler on the hart's free stack. Resume reverses this.
use vstd::prelude::*;
use crate::context::{
    decode_priv, gpr_offset_spec, priv_info_words, priv_words, PrivInfo, TaskContext,
    TaskContextRef, ADDRSPACE_TOKEN_SLOT, CONTEXT_WORDS, FREE_SP_SLOT, PRIV_TAG_SLOT,
    SCHEDULE_FN_SLOT, TASKCTX_SIZE, WORD,
};
use crate::current::CurrentSlot;
use crate::machine::{step, Hart, Instr, Memory, Privilege, A0, SP};

verus! {

/// The transfer that trap entry makes to the scheduler.
#[derive(Clone, Copy, Debug, PartialEq, Eq, Structural)]
pub struct SchedulerCall {
    /// The scheduler entry jumped to.
    pub target: usize,
    /// The sole argument: the address of the saved frame.
    pub arg: usize,
    /// The stack pointer the scheduler starts with.
    pub stack: usize,
}

/// Why a frame cannot be resumed.
#[derive(Clone, Copy, Debug, PartialEq, Eq, Structural)]
pub enum ResumeError {
    /// The frame does not lie in memory, or its privilege tag is not known.
    BadFrame,
    /// The frame was saved from a privilege level that is not enumerated.
    UnknownPrivilege,
}

/// The privilege record of a hart at trap time.
pub open spec fn captured_priv(h: Hart) -> PrivInfo {
    match h.privilege {
        Privilege::Supervisor => PrivInfo::SPrivilige(h.s_csrs),
        Privilege::User => PrivInfo::UPrivilige(h.u_csrs),
        Privilege::Machine => PrivInfo::UnKnown,
    }
}

/// The frame that trap entry writes for a hart: its image as a context.
pub open spec fn captured_words(h: Hart) -> Seq<usize> {
    h.x@.subrange(1, 32) + seq![h.satp, h.free_sp, h.schedule_fn] + priv_words(captured_priv(h))
}

/// A whole context frame lies in memory at `frame`.
pub open spec fn frame_in(mem: Memory, frame: int) -> bool {
    mem.holds(frame) && mem.index_of(frame) + CONTEXT_WORDS <= mem.words@.len()
}

/// A frame can be reserved below the stack pointer `sp`.
pub open spec fn frame_fits(mem: Memory, sp: int) -> bool {
    sp >= TASKCTX_SIZE && frame_in(mem, sp - TASKCTX_SIZE)
}

/// `after` is `before` resumed from the context image `w`.
pub open spec fn resumed_from(after: Hart, before: Hart, w: Seq<usize>) -> bool {
    &&& after.x@ == seq![0usize] + w.subrange(0, 31)
    &&& after.satp == w[ADDRSPACE_TOKEN_SLOT as int]
    &&& after.free_sp == before.free_sp
    &&& after.schedule_fn == before.schedule_fn
    &&& match decode_priv(w.subrange(34, 39)) {
        Some(PrivInfo::SPrivilige(s)) => {
            &&& after.privilege == Privilege::Supervisor
            &&& after.s_csrs == s
            &&& after.u_csrs == before.u_csrs
            &&& after.pc == s.sepc
        },
        Some(PrivInfo::UPrivilige(u)) => {
            &&& after.privilege == Privilege::User
            &&& after.u_csrs == u
            &&& after.s_csrs == before.s_csrs
            &&& after.pc == u.uepc
        },
        _ => false,
    }
}

/// Instructions in the register-saving part of trap entry.
pub const ENTRY_PROGRAM_LEN: usize = 33;

/// The store that saves register `x_i`: at its offset in the frame, taken
/// from the stack pointer before the frame is reserved.
pub open spec fn spill_instr(i: int) -> Instr {
    Instr::Store { src: i as usize, base: SP, imm: (gpr_offset_spec(i) - TASKCTX_SIZE) as isize }
}

/// The instruction that reserves the frame: `addi sp, sp, -TASKCTX_SIZE`.
pub open spec fn reserve_instr() -> Instr {
    Instr::AddImm { dst: SP, src: SP, imm: (-(TASKCTX_SIZE as int)) as isize }
}

/// The instruction that publishes the frame: `mv a0, sp`.
pub open spec fn publish_instr() -> Instr {
    Instr::AddImm { dst: A0, src: SP, imm: 0 }
}

/// The register-saving part of trap entry: thirty-one stores, one for each
/// of `x1..x31`, then the frame reservation and its publication in `a0`.
pub fn trap_entry_program() -> (r: Vec<Instr>)
    ensures
        r@.len() == ENTRY_PROGRAM_LEN,
        forall|i: int| 1 <= i <= 31 ==> #[trigger] r@[i - 1] == spill_instr(i),
        r@[31] == reserve_instr(),
        r@[32] == publish_instr(),
{
    let mut r: Vec<Instr> = Vec::new();
    let mut i: usize = 1;
    while i < 32
        invariant
            1 <= i <= 32,
            r@.len() == i - 1,
            forall|j: int| 1 <= j < i ==> #[trigger] r@[j - 1] == spill_instr(j),
        decreases 32 - i,
    {
        let imm: isize = ((i - 1) * WORD) as isize - TASKCTX_SIZE as isize;
        r.push(Instr::Store { src: i, base: SP, imm });
        i = i + 1;
    }
    r.push(Instr::AddImm { dst: SP, src: SP, imm: -(TASKCTX_SIZE as isize) });
    r.push(Instr::AddImm { dst: A0, src: SP, imm: 0 });
    r
}

/// The spill immediates agree with the context layout: the store of `x_i`
/// lands at byte `(i - 1) * WORD` of the frame that the reservation then
/// makes, every store lands inside that frame, and the frame ends at the
/// stack pointer of the trap.
pub proof fn lemma_entry_immediates(i: int)
    requires
        1 <= i <= 31,
    ensures
        spill_instr(i) matches Instr::Store { imm, .. } && imm + TASKCTX_SIZE == gpr_offset_spec(i)
            && -(TASKCTX_SIZE as int) <= imm && imm + WORD <= 0,
        reserve_instr() matches Instr::AddImm { imm, .. } && imm == -(TASKCTX_SIZE as int),
        TASKCTX_SIZE == CONTEXT_WORDS * WORD,
{
}

/// Whether a whole context frame lies in memory at `frame`.
pub fn frame_in_memory(mem: &Memory, frame: usize) -> (r: bool)
    ensures
        r == frame_in(*mem, frame as int),
{
    frame >= mem.base && (frame - mem.base) % WORD == 0 && (frame - mem.base) / WORD
        <= mem.words.len() && mem.words.len() - (frame - mem.base) / WORD >= CONTEXT_WORDS
}

/// The privilege record of a hart at trap time.
fn harvest_priv(h: &Hart) -> (r: PrivInfo)
    ensures
        r == captured_priv(*h),
{
    match h.privilege {
        Privilege::Supervisor => PrivInfo::SPrivilige(h.s_csrs),
        Privilege::User => PrivInfo::UPrivilige(h.u_csrs),
        Privilege::Machine => PrivInfo::UnKnown,
    }
}

/// Runs the register-saving program: `x1..x31` go to the frame below the
/// stack pointer, then the stack pointer and `a0` are set to the frame.
fn save_registers(hart: &mut Hart, mem: &mut Memory) -> (frame: usize)
    requires
        old(hart).wf(),
        frame_fits(*old(mem), old(hart).x@[SP as int] as int),
    ensures
        frame == old(hart).x@[SP as int] - TASKCTX_SIZE,
        final(mem).base == old(mem).base,
        final(mem).words@.len() == old(mem).words@.len(),
        forall|j: int|
            1 <= j <= 31 ==> #[trigger] final(mem).words@[old(mem).index_of(frame as int) + j - 1]
                == old(hart).x@[j],
        forall|k: int|
            0 <= k < old(mem).words@.len() && !(old(mem).index_of(frame as int) <= k
                < old(mem).index_of(frame as int) + 31) ==> #[trigger] final(mem).words@[k]
                == old(mem).words@[k],
        final(hart).wf(),
        final(hart).x@ == old(hart).x@.update(SP as int, frame).update(A0 as int, frame),
        final(hart).pc == old(hart).pc,
        final(hart).privilege == old(hart).privilege,
        final(hart).s_csrs == old(hart).s_csrs,
        final(hart).u_csrs == old(hart).u_csrs,
        final(hart).satp == old(hart).satp,
        final(hart).free_sp == old(hart).free_sp,
        final(hart).schedule_fn == old(hart).schedule_fn,
{
    let ghost m0 = *mem;
    let ghost h0 = *hart;
    let sp = hart.reg(SP);
    let ghost fi = mem.index_of(sp - TASKCTX_SIZE);
    let program = trap_entry_program();
    // Every store addresses the frame from the stack pointer as it was at the
    // trap: each register is saved before anything changes it.
    let mut i: usize = 1;
    while i < 32
        invariant
            1 <= i <= 32,
            *hart == h0,
            hart.wf(),
            sp == hart.x@[SP as int],
            frame_fits(m0, sp as int),
            fi == m0.index_of(sp - TASKCTX_SIZE),
            program@.len() == ENTRY_PROGRAM_LEN,
            forall|j: int| 1 <= j <= 31 ==> #[trigger] program@[j - 1] == spill_instr(j),
            mem.base == m0.base,
            mem.words@.len() == m0.words@.len(),
            forall|j: int| 1 <= j < i ==> mem.words@[fi + j - 1] == hart.x@[j],
            forall|k: int|
                0 <= k < m0.words@.len() && !(fi <= k < fi + i - 1) ==> #[trigger] mem.words@[k]
                    == m0.words@[k],
        decreases 32 - i,
    {
        let ins = program[i - 1];
        assert(ins == spill_instr(i as int));
        assert(mem.index_of(sp + (gpr_offset_spec(i as int) - TASKCTX_SIZE)) == fi + i - 1);
        step(hart, mem, ins);
        i = i + 1;
    }
    step(hart, mem, program[31]);
    let frame: usize = hart.reg(SP);
    step(hart, mem, program[32]);
    frame
}

/// Writes the address-space token, the scheduler hooks and the privilege
/// record of `hart` into the last eight words of the frame at `frame`.
fn record_privilege(hart: &Hart, mem: &mut Memory, frame: usize)
    requires
        frame_in(*old(mem), frame as int),
        frame + TASKCTX_SIZE <= usize::MAX,
    ensures
        final(mem).base == old(mem).base,
        final(mem).words@ == old(mem).words@.subrange(0, old(mem).index_of(frame as int) + 31)
            + seq![hart.satp, hart.free_sp, hart.schedule_fn] + priv_words(captured_priv(*hart))
            + old(mem).words@.subrange(
            old(mem).index_of(frame as int) + 39,
            old(mem).words@.len() as int,
        ),
{
    let ghost m0 = *mem;
    let ghost fi = mem.index_of(frame as int);
    mem.store(frame + ADDRSPACE_TOKEN_SLOT * WORD, hart.satp);
    mem.store(frame + FREE_SP_SLOT * WORD, hart.free_sp);
    mem.store(frame + SCHEDULE_FN_SLOT * WORD, hart.schedule_fn);
    let p = harvest_priv(hart);
    let (tag, a, b, c, d) = priv_info_words(&p);
    mem.store(frame + PRIV_TAG_SLOT * WORD, tag);
    mem.store(frame + (PRIV_TAG_SLOT + 1) * WORD, a);
    mem.store(frame + (PRIV_TAG_SLOT + 2) * WORD, b);
    mem.store(frame + (PRIV_TAG_SLOT + 3) * WORD, c);
    mem.store(frame + (PRIV_TAG_SLOT + 4) * WORD, d);
    assert(mem.words@ =~= m0.words@.subrange(0, fi + 31) + seq![hart.satp, hart.free_sp, hart.schedule_fn]
        + priv_words(captured_priv(*hart)) + m0.words@.subrange(fi + 39, m0.words@.len() as int));
}

/// Takes a trap on `hart`: saves its flow into a frame below its stack
/// pointer and transfers to its scheduler on its free stack, with the frame's
/// address as the sole argument.
pub fn trap_entry(hart: &mut Hart, mem: &mut Memory) -> (r: SchedulerCall)
    requires
        old(hart).wf(),
        frame_fits(*old(mem), old(hart).x@[SP as int] as int),
    ensures
        r.arg == old(hart).x@[SP as int] - TASKCTX_SIZE,
        r.target == old(hart).schedule_fn,
        r.stack == old(hart).free_sp,
        final(mem).base == old(mem).base,
        final(mem).words@.len() == old(mem).words@.len(),
        final(mem).words_at(r.arg as int, CONTEXT_WORDS as int) == captured_words(*old(hart)),
        forall|k: int|
            0 <= k < old(mem).words@.len() && !(old(mem).index_of(r.arg as int) <= k
                < old(mem).index_of(r.arg as int) + CONTEXT_WORDS) ==> #[trigger] final(mem).words@[k]
                == old(mem).words@[k],
        final(hart).wf(),
        final(hart).x@ == old(hart).x@.update(SP as int, r.stack).update(A0 as int, r.arg),
        final(hart).pc == r.target,
        final(hart).privilege == Privilege::Supervisor,
        final(hart).s_csrs == old(hart).s_csrs,
        final(hart).u_csrs == old(hart).u_csrs,
        final(hart).satp == old(hart).satp,
        final(hart).free_sp == old(hart).free_sp,
        final(hart).schedule_fn == old(hart).schedule_fn,
{
    let ghost m0 = *mem;
    let frame = save_registers(hart, mem);
    let ghost m1 = *mem;
    let ghost fi = m0.index_of(frame as int);
    // The registers are free again: record the privilege state and the
    // scheduler hooks, then leave for the scheduler on the free stack.
    record_privilege(hart, mem, frame);
    let target = hart.schedule_fn;
    let stack = hart.free_sp;
    hart.set_reg(SP, stack);
    hart.pc = target;
    hart.privilege = Privilege::Supervisor;
    assert(mem.words_at(frame as int, CONTEXT_WORDS as int) =~= captured_words(*old(hart))) by {
        let w = mem.words_at(frame as int, CONTEXT_WORDS as int);
        let cw = captured_words(*old(hart));
        assert forall|j: int| 0 <= j < 31 implies #[trigger] w[j] == cw[j] by {
            assert(m1.words@[fi + (j + 1) - 1] == old(hart).x@[j + 1]);
        }
    }
    assert(hart.x@ =~= old(hart).x@.update(SP as int, stack).update(A0 as int, frame));
    SchedulerCall { target, arg: frame, stack }
}

/// The `n` words of memory from `addr` on.
fn read_words(mem: &Memory, addr: usize, n: usize) -> (r: Vec<usize>)
    requires
        mem.holds(addr as int),
        mem.index_of(addr as int) + n <= mem.words@.len(),
    ensures
        r@ == mem.words_at(addr as int, n as int),
{
    let start: usize = (addr - mem.base) / WORD;
    let len: usize = mem.words.len();
    let mut r: Vec<usize> = Vec::new();
    let mut i: usize = 0;
    while i < n
        invariant
            i <= n,
            start == mem.index_of(addr as int),
            start + n <= len,
            len == mem.words@.len(),
            r@ == mem.words@.subrange(start as int, start + i),
        decreases n - i,
    {
        r.push(mem.words[start + i]);
        i = i + 1;
        assert(r@ =~= mem.words@.subrange(start as int, start + i));
    }
    r
}

/// Resumes `hart` from the frame at `frame`: reloads `x1..x31`, the
/// address-space token and the control registers of the saved privilege,
/// returns to that privilege and jumps to its exception PC. The hart's own
/// free stack and scheduler entry are kept.
pub fn trap_return(hart: &mut Hart, mem: &Memory, frame: usize) -> (r: Result<(), ResumeError>)
    requires
        old(hart).wf(),
    ensures
        final(hart).wf(),
        !frame_in(*mem, frame as int) ==> r == Err::<(), ResumeError>(ResumeError::BadFrame),
        frame_in(*mem, frame as int) ==> {
            let w = mem.words_at(frame as int, CONTEXT_WORDS as int);
            &&& !TaskContext::decodable(w) ==> r == Err::<(), ResumeError>(ResumeError::BadFrame)
            &&& decode_priv(w.subrange(34, 39)) == Some(PrivInfo::UnKnown) ==> r == Err::<
                (),
                ResumeError,
            >(ResumeError::UnknownPrivilege)
            &&& r is Ok ==> resumed_from(*final(hart), *old(hart), w)
        },
        r is Err ==> *final(hart) == *old(hart),
        r is Ok <==> frame_in(*mem, frame as int) && TaskContext::decodable(
            mem.words_at(frame as int, CONTEXT_WORDS as int),
        ) && decode_priv(mem.words_at(frame as int, CONTEXT_WORDS as int).subrange(34, 39))
            != Some(PrivInfo::UnKnown),
{
    if !frame_in_memory(mem, frame) {
        return Err(ResumeError::BadFrame);
    }
    let w = read_words(mem, frame, CONTEXT_WORDS);
    let ctx = match TaskContext::from_words(w.as_slice()) {
        Some(c) => c,
        None => {
            return Err(ResumeError::BadFrame);
        },
    };
    let ghost ws = w@;
    assert(ws.subrange(0, 31) == ctx.x@);
    match ctx.priv_info {
        PrivInfo::SPrivilige(s) => {
            hart.s_csrs = s;
            hart.privilege = Privilege::Supervisor;
            hart.pc = s.sepc;
        },
        PrivInfo::UPrivilige(u) => {
            hart.u_csrs = u;
            hart.privilege = Privilege::User;
            hart.pc = u.uepc;
        },
        PrivInfo::UnKnown => {
            return Err(ResumeError::UnknownPrivilege);
        },
    }
    hart.satp = ctx.addrspace_token;
    let ghost h1 = *hart;
    let mut i: usize = 1;
    while i < 32
        invariant
            1 <= i <= 32,
            hart.wf(),
            ctx.x@ == ws.subrange(0, 31),
            hart.pc == h1.pc,
            hart.privilege == h1.privilege,
            hart.s_csrs == h1.s_csrs,
            hart.u_csrs == h1.u_csrs,
            hart.satp == h1.satp,
            hart.free_sp == h1.free_sp,
            hart.schedule_fn == h1.schedule_fn,
            forall|j: int| 1 <= j < i ==> hart.x@[j] == ctx.x@[j - 1],
        decreases 32 - i,
    {
        hart.set_reg(i, ctx.x[i - 1]);
        i = i + 1;
    }
    assert(hart.x@ =~= seq![0usize] + ws.subrange(0, 31));
    Ok(())
}

/// The frame trap entry writes for a hart is the image of a context, and
/// every context it holds has the hart's registers `x1..x31`, its
/// address-space token and scheduler hooks, and a privilege record of the
/// hart's privilege whose fields are that level's control registers.
pub proof fn lemma_captured_frame(pre: Hart, c: TaskContext)
    requires
        pre.wf(),
        c.is_decoding_of(captured_words(pre)),
    ensures
        TaskContext::decodable(captured_words(pre)),
        forall|i: int| 1 <= i <= 31 ==> #[trigger] c.gpr_spec(i) == pre.x@[i],
        c.addrspace_token == pre.satp,
        c.free_sp == pre.free_sp,
        c.schedule_fn == pre.schedule_fn,
        pre.privilege == Privilege::Supervisor ==> c.priv_info == PrivInfo::SPrivilige(pre.s_csrs),
        pre.privilege == Privilege::User ==> c.priv_info == PrivInfo::UPrivilige(pre.u_csrs),
        pre.privilege == Privilege::Machine ==> c.priv_info == PrivInfo::UnKnown,
{
    let w = captured_words(pre);
    assert(w.subrange(0, 31) =~= pre.x@.subrange(1, 32));
    assert(w.subrange(34, 39) =~= priv_words(captured_priv(pre)));
    assert forall|i: int| 1 <= i <= 31 implies #[trigger] c.gpr_spec(i) == pre.x@[i] by {
        assert(c.x@[i - 1] == w.subrange(0, 31)[i - 1]);
    }
}

/// Save then restore is the identity: resuming from the frame that trap
/// entry wrote for a hart in an enumerated privilege gives back its
/// registers, privilege, control registers and address space, and its
/// program counter as the exception PC that the trap recorded.
pub proof fn lemma_save_restore_identity(pre: Hart, between: Hart, post: Hart)
    requires
        pre.wf(),
        pre.privilege != Privilege::Machine,
        between.free_sp == pre.free_sp,
        between.schedule_fn == pre.schedule_fn,
        resumed_from(post, between, captured_words(pre)),
    ensures
        post.x@ == pre.x@,
        post.privilege == pre.privilege,
        post.satp == pre.satp,
        post.free_sp == pre.free_sp,
        post.schedule_fn == pre.schedule_fn,
        pre.privilege == Privilege::Supervisor ==> post.s_csrs == pre.s_csrs && post.pc
            == pre.s_csrs.sepc,
        pre.privilege == Privilege::User ==> post.u_csrs == pre.u_csrs && post.pc
            == pre.u_csrs.uepc,
{
    let w = captured_words(pre);
    assert(w.subrange(0, 31) =~= pre.x@.subrange(1, 32));
    assert(w.subrange(34, 39) =~= priv_words(captured_priv(pre)));
    assert(post.x@ =~= pre.x@);
}

/// The scheduler's first step: installs the frame it was handed as the
/// current context of this CPU.
pub fn schedule(slot: &mut CurrentSlot, task_ctx: usize)
    requires
        task_ctx != 0,
    ensures
        final(slot)@ == Some(task_ctx),
{
    match TaskContextRef::new(task_ctx) {
        Some(h) => slot.install(h),
        None => {},
    }
}

} // verus!
