use taskctx::context::{
    PrivInfo, SPrivilige, TaskContext, UPrivilige, CONTEXT_WORDS, TASKCTX_SIZE, WORD,
};
use taskctx::current::CurrentSlot;
use taskctx::machine::{Hart, Memory, Privilege, A0, SP};
use taskctx::trampoline::{schedule, trap_entry, trap_return, ResumeError};

const STACK_TOP: usize = 0x8000_4000;
const MEM_BASE: usize = 0x8000_0000;
const FREE_SP: usize = 0x8010_0000;
const SCHEDULE_FN: usize = 0x8020_0400;
const SATP: usize = 0x8000_0000_0008_0042;

fn memory() -> Memory {
    // Covers the stack from MEM_BASE to a little above STACK_TOP.
    Memory::new(MEM_BASE, (STACK_TOP - MEM_BASE) / WORD + 16)
}

fn hart_with_counting_registers(privilege: Privilege) -> Hart {
    let mut h = Hart::new(0x8020_0000, privilege, SATP, FREE_SP, SCHEDULE_FN);
    for i in 1..32 {
        h.set_reg(i, i);
    }
    h.set_reg(SP, STACK_TOP);
    h
}

fn frame_words(mem: &Memory, frame: usize) -> Vec<usize> {
    let start = (frame - mem.base) / WORD;
    mem.words[start..start + CONTEXT_WORDS].to_vec()
}

fn saved_context(mem: &Memory, frame: usize) -> TaskContext {
    TaskContext::from_words(&frame_words(mem, frame)).unwrap()
}

#[test]
fn supervisor_timer_interrupt() {
    let mut h = hart_with_counting_registers(Privilege::Supervisor);
    h.s_csrs = SPrivilige { sstatus: 0x120, sepc: 0x8020_1234, stvec: 0x8020_0000, sie: 0x222 };
    let mut mem = memory();
    let call = trap_entry(&mut h, &mut mem);
    let frame = STACK_TOP - TASKCTX_SIZE;
    assert_eq!(frame, 0x8000_3ec8);
    assert_eq!(call.arg, frame);
    assert_eq!(call.target, SCHEDULE_FN);
    assert_eq!(call.stack, FREE_SP);
    assert_eq!(h.reg(A0), frame);
    assert_eq!(h.reg(SP), FREE_SP);
    assert_eq!(h.pc, SCHEDULE_FN);
    let c = saved_context(&mem, frame);
    for i in 1..32 {
        if i == SP {
            assert_eq!(c.gpr(i), STACK_TOP);
        } else {
            assert_eq!(c.gpr(i), i);
        }
    }
    assert_eq!(
        c.priv_info,
        PrivInfo::SPrivilige(SPrivilige {
            sstatus: 0x120,
            sepc: 0x8020_1234,
            stvec: 0x8020_0000,
            sie: 0x222
        })
    );
    assert_eq!(c.addrspace_token, SATP);
    let mut slot = CurrentSlot::new();
    schedule(&mut slot, call.arg);
    assert_eq!(slot.current().unwrap().addr(), frame);
}

#[test]
fn user_mode_system_call() {
    let mut h = Hart::new(0x1_0000, Privilege::User, SATP, FREE_SP, SCHEDULE_FN);
    h.set_reg(SP, STACK_TOP);
    h.set_reg(10, 42);
    h.set_reg(17, 7);
    let ecall_at = 0x1_0ab4;
    h.u_csrs = UPrivilige { ustatus: 0x10, uepc: ecall_at, utvec: 0, uie: 0 };
    let mut mem = memory();
    let call = trap_entry(&mut h, &mut mem);
    assert_eq!(call.arg, STACK_TOP - TASKCTX_SIZE);
    let c = saved_context(&mem, call.arg);
    assert_eq!(c.gpr(10), 42);
    assert_eq!(c.gpr(17), 7);
    assert_eq!(c.gpr(2), STACK_TOP);
    assert_eq!(c.gpr(1), 0);
    match c.priv_info {
        PrivInfo::UPrivilige(u) => assert_eq!(u.uepc, ecall_at),
        other => panic!("expected a user record, got {:?}", other),
    }
}

#[test]
fn back_to_back_traps() {
    let mut h = hart_with_counting_registers(Privilege::Supervisor);
    h.s_csrs.sepc = 0x8020_0100;
    let mut mem = memory();
    let first = trap_entry(&mut h, &mut mem);
    let mut slot = CurrentSlot::new();
    schedule(&mut slot, first.arg);
    let chosen = slot.current().unwrap().addr();
    assert_eq!(trap_return(&mut h, &mem, chosen), Ok(()));
    assert_eq!(h.reg(SP), STACK_TOP);
    assert_eq!(h.pc, 0x8020_0100);
    for i in 1..32 {
        if i != SP {
            h.set_reg(i, 100 + i);
        }
    }
    h.s_csrs.sepc = 0x8020_0200;
    let second = trap_entry(&mut h, &mut mem);
    assert_eq!(second.arg, first.arg);
    let c = saved_context(&mem, second.arg);
    for i in 1..32 {
        if i != SP {
            assert_eq!(c.gpr(i), 100 + i);
        }
    }
    assert_eq!(c.gpr(SP), STACK_TOP);
    match c.priv_info {
        PrivInfo::SPrivilige(s) => assert_eq!(s.sepc, 0x8020_0200),
        other => panic!("expected a supervisor record, got {:?}", other),
    }
}

#[test]
fn distinct_free_stacks() {
    let mut mem = memory();
    let sp_a = STACK_TOP;
    let sp_b = STACK_TOP - 0x1000;
    let mut a = Hart::new(0, Privilege::Supervisor, 1, 0x9000_0000, SCHEDULE_FN);
    let mut b = Hart::new(0, Privilege::User, 2, 0x9100_0000, SCHEDULE_FN);
    for i in 1..32 {
        a.set_reg(i, 0xa00 + i);
        b.set_reg(i, 0xb00 + i);
    }
    a.set_reg(SP, sp_a);
    b.set_reg(SP, sp_b);
    let call_a = trap_entry(&mut a, &mut mem);
    let call_b = trap_entry(&mut b, &mut mem);
    assert_eq!(call_a.stack, 0x9000_0000);
    assert_eq!(call_b.stack, 0x9100_0000);
    assert_ne!(call_a.arg, call_b.arg);
    let ca = saved_context(&mem, call_a.arg);
    let cb = saved_context(&mem, call_b.arg);
    for i in 1..32 {
        if i != SP {
            assert_eq!(ca.gpr(i), 0xa00 + i);
            assert_eq!(cb.gpr(i), 0xb00 + i);
        }
    }
    assert_eq!(ca.free_sp, 0x9000_0000);
    assert_eq!(cb.free_sp, 0x9100_0000);
    assert_eq!(ca.addrspace_token, 1);
    assert_eq!(cb.addrspace_token, 2);
}

#[test]
fn unknown_privilege() {
    let mut h = hart_with_counting_registers(Privilege::Machine);
    let mut mem = memory();
    let call = trap_entry(&mut h, &mut mem);
    let c = saved_context(&mem, call.arg);
    assert_eq!(c.priv_info, PrivInfo::UnKnown);
    for i in 1..32 {
        if i != SP {
            assert_eq!(c.gpr(i), i);
        }
    }
    let before_pc = h.pc;
    assert_eq!(trap_return(&mut h, &mem, call.arg), Err(ResumeError::UnknownPrivilege));
    assert_eq!(h.pc, before_pc);
}

#[test]
fn stack_above_frame_is_untouched() {
    let mut h = hart_with_counting_registers(Privilege::Supervisor);
    let mut mem = memory();
    for k in 0..mem.words.len() {
        mem.words[k] = 0xdead_0000 + k;
    }
    let before = mem.words.clone();
    let call = trap_entry(&mut h, &mut mem);
    let start = (call.arg - MEM_BASE) / WORD;
    for k in 0..mem.words.len() {
        if k < start || k >= start + CONTEXT_WORDS {
            assert_eq!(mem.words[k], before[k]);
        }
    }
    // The frame ends exactly at the interrupted stack pointer.
    assert_eq!(start + CONTEXT_WORDS, (STACK_TOP - MEM_BASE) / WORD);
}

#[test]
fn save_then_restore_is_identity() {
    for privilege in [Privilege::Supervisor, Privilege::User] {
        let mut h = hart_with_counting_registers(privilege);
        h.s_csrs = SPrivilige { sstatus: 3, sepc: 0x8020_0abc, stvec: 5, sie: 6 };
        h.u_csrs = UPrivilige { ustatus: 7, uepc: 0x1_0abc, utvec: 9, uie: 10 };
        let regs = h.x.clone();
        let mut mem = memory();
        let call = trap_entry(&mut h, &mut mem);
        assert_ne!(h.x, regs);
        h.satp = 0;
        assert_eq!(trap_return(&mut h, &mem, call.arg), Ok(()));
        assert_eq!(h.x, regs);
        assert_eq!(h.privilege, privilege);
        assert_eq!(h.satp, SATP);
        let epc = if privilege == Privilege::Supervisor { 0x8020_0abc } else { 0x1_0abc };
        assert_eq!(h.pc, epc);
        assert_eq!(h.s_csrs, SPrivilige { sstatus: 3, sepc: 0x8020_0abc, stvec: 5, sie: 6 });
        assert_eq!(h.u_csrs, UPrivilige { ustatus: 7, uepc: 0x1_0abc, utvec: 9, uie: 10 });
    }
}

#[test]
fn resume_from_a_frame_outside_memory() {
    let mut h = hart_with_counting_registers(Privilege::Supervisor);
    let mem = memory();
    let regs = h.x.clone();
    assert_eq!(trap_return(&mut h, &mem, MEM_BASE - WORD), Err(ResumeError::BadFrame));
    assert_eq!(trap_return(&mut h, &mem, STACK_TOP + 3), Err(ResumeError::BadFrame));
    assert_eq!(trap_return(&mut h, &mem, STACK_TOP), Err(ResumeError::BadFrame));
    assert_eq!(h.x, regs);
}

#[test]
fn resume_from_a_frame_with_a_bad_tag() {
    let mut h = hart_with_counting_registers(Privilege::Supervisor);
    let mut mem = memory();
    let call = trap_entry(&mut h, &mut mem);
    let tag_index = (call.arg - MEM_BASE) / WORD + 34;
    mem.words[tag_index] = 9;
    assert_eq!(trap_return(&mut h, &mem, call.arg), Err(ResumeError::BadFrame));
}
