//! The task context record and its fixed word layout.
//!
//! A context is laid out in memory as a sequence of machine words: the
//! thirty-one general-purpose registers `x1..x31`, then the address-space
//! token, the free stack pointer and the scheduler entry, then the privilege
//! information as a tag word followed by four payload words.
use vstd::prelude::*;

verus! {

broadcast use vstd::array::group_array_axioms;

/// Bytes in one machine word.
pub const WORD: usize = 8;

/// General-purpose registers saved in a context (`x1` to `x31`; `x0` is zero).
pub const GPR_COUNT: usize = 31;

/// Word index of `addrspace_token` in the image.
pub const ADDRSPACE_TOKEN_SLOT: usize = 31;

/// Word index of `free_sp` in the image.
pub const FREE_SP_SLOT: usize = 32;

/// Word index of `schedule_fn` in the image.
pub const SCHEDULE_FN_SLOT: usize = 33;

/// Word index of the privilege tag in the image; four payload words follow.
pub const PRIV_TAG_SLOT: usize = 34;

/// Words in the in-memory image of a context.
pub const CONTEXT_WORDS: usize = 39;

/// Bytes in the in-memory image of a context: the frame that trap entry
/// reserves below the interrupted stack pointer.
pub const TASKCTX_SIZE: usize = 312;

/// Tag word of a supervisor-mode privilege record.
pub const TAG_SUPERVISOR: usize = 0;

/// Tag word of a user-mode privilege record.
pub const TAG_USER: usize = 1;

/// Tag word of a trap taken from a privilege level that is not enumerated.
pub const TAG_UNKNOWN: usize = 2;

/// Supervisor trap-control registers.
#[derive(Clone, Copy, Debug, PartialEq, Eq, Structural)]
pub struct SPrivilige {
    pub sstatus: usize,
    pub sepc: usize,
    pub stvec: usize,
    pub sie: usize,
}

/// User trap-control registers.
#[derive(Clone, Copy, Debug, PartialEq, Eq, Structural)]
pub struct UPrivilige {
    pub ustatus: usize,
    pub uepc: usize,
    pub utvec: usize,
    pub uie: usize,
}

/// The privilege a trap was taken from, with that level's control registers.
#[derive(Clone, Copy, Debug, PartialEq, Eq, Structural)]
pub enum PrivInfo {
    SPrivilige(SPrivilige),
    UPrivilige(UPrivilige),
    UnKnown,
}

/// A saved execution flow.
#[derive(Clone, Copy, Debug)]
pub struct TaskContext {
    /// `x1` to `x31`: register `x_i` is held at index `i - 1`.
    pub x: [usize; 31],
    /// Opaque identifier of the address space to resume in.
    pub addrspace_token: usize,
    /// A stack that is unused on trap entry, for the scheduler to run on.
    pub free_sp: usize,
    /// Address of the scheduler entry.
    pub schedule_fn: usize,
    /// The privilege the flow was interrupted in.
    pub priv_info: PrivInfo,
}

/// A non-owning handle to a context: its address, never zero.
#[derive(Clone, Copy, Debug, PartialEq, Eq)]
pub struct TaskContextRef {
    addr: usize,
}

impl TaskContextRef {
    /// The address the handle names.
    pub closed spec fn view(&self) -> usize {
        self.addr
    }

    #[verifier::type_invariant]
    spec fn non_null(&self) -> bool {
        self.addr != 0
    }

    /// A handle to the context at `addr`; `None` for the null address.
    pub fn new(addr: usize) -> (r: Option<TaskContextRef>)
        ensures
            r is None <==> addr == 0,
            r matches Some(h) ==> h@ == addr,
    {
        if addr == 0 {
            None
        } else {
            Some(TaskContextRef { addr })
        }
    }

    /// The address the handle names.
    pub fn addr(&self) -> (r: usize)
        ensures
            r == self@,
            r != 0,
    {
        proof {
            use_type_invariant(self);
        }
        self.addr
    }
}

/// A privilege level a context can be spawned in.
#[derive(Clone, Copy, Debug, PartialEq, Eq, Structural)]
pub enum SpawnPrivilege {
    Supervisor,
    User,
}

/// Byte offset of register `x_i` inside a context.
pub open spec fn gpr_offset_spec(i: int) -> int {
    (i - 1) * WORD as int
}

/// The five words that hold a privilege record.
pub open spec fn priv_words(p: PrivInfo) -> Seq<usize> {
    match p {
        PrivInfo::SPrivilige(s) => seq![TAG_SUPERVISOR, s.sstatus, s.sepc, s.stvec, s.sie],
        PrivInfo::UPrivilige(u) => seq![TAG_USER, u.ustatus, u.uepc, u.utvec, u.uie],
        PrivInfo::UnKnown => seq![TAG_UNKNOWN, 0usize, 0usize, 0usize, 0usize],
    }
}

/// The privilege record that five words hold, if their tag is known.
pub open spec fn decode_priv(w: Seq<usize>) -> Option<PrivInfo> {
    if w[0] == TAG_SUPERVISOR {
        Some(PrivInfo::SPrivilige(SPrivilige { sstatus: w[1], sepc: w[2], stvec: w[3], sie: w[4] }))
    } else if w[0] == TAG_USER {
        Some(PrivInfo::UPrivilige(UPrivilige { ustatus: w[1], uepc: w[2], utvec: w[3], uie: w[4] }))
    } else if w[0] == TAG_UNKNOWN {
        Some(PrivInfo::UnKnown)
    } else {
        None
    }
}

impl TaskContext {
    /// The in-memory image of the context, word by word.
    pub open spec fn image(self) -> Seq<usize> {
        self.x@ + seq![self.addrspace_token, self.free_sp, self.schedule_fn] + priv_words(
            self.priv_info,
        )
    }

    /// The context is what the words `w` hold.
    pub open spec fn is_decoding_of(self, w: Seq<usize>) -> bool {
        &&& w.len() == CONTEXT_WORDS
        &&& self.x@ == w.subrange(0, 31)
        &&& self.addrspace_token == w[31]
        &&& self.free_sp == w[32]
        &&& self.schedule_fn == w[33]
        &&& decode_priv(w.subrange(34, 39)) == Some(self.priv_info)
    }

    /// The words `w` are the image of some context.
    pub open spec fn decodable(w: Seq<usize>) -> bool {
        w.len() == CONTEXT_WORDS && decode_priv(w.subrange(34, 39)) is Some
    }

    /// Register `x_i`, for `1 <= i <= 31`.
    pub open spec fn gpr_spec(self, i: int) -> usize {
        self.x@[i - 1]
    }

    /// A ready-to-run context for a newly spawned task: it starts at
    /// `entry_pc` with stack pointer `stack_top` in the given privilege, and
    /// every other register is zero.
    pub fn new(
        entry_pc: usize,
        stack_top: usize,
        addrspace_token: usize,
        free_sp: usize,
        schedule_fn: usize,
        privilege: SpawnPrivilege,
    ) -> (r: TaskContext)
        ensures
            r.gpr_spec(2) == stack_top,
            forall|i: int| 1 <= i <= 31 && i != 2 ==> r.gpr_spec(i) == 0,
            r.addrspace_token == addrspace_token,
            r.free_sp == free_sp,
            r.schedule_fn == schedule_fn,
            privilege == SpawnPrivilege::Supervisor ==> r.priv_info == PrivInfo::SPrivilige(
                SPrivilige { sstatus: 0, sepc: entry_pc, stvec: 0, sie: 0 },
            ),
            privilege == SpawnPrivilege::User ==> r.priv_info == PrivInfo::UPrivilige(
                UPrivilige { ustatus: 0, uepc: entry_pc, utvec: 0, uie: 0 },
            ),
    {
        let mut x: [usize; 31] = [0usize; 31];
        x[1] = stack_top;
        let priv_info = match privilege {
            SpawnPrivilege::Supervisor => PrivInfo::SPrivilige(
                SPrivilige { sstatus: 0, sepc: entry_pc, stvec: 0, sie: 0 },
            ),
            SpawnPrivilege::User => PrivInfo::UPrivilige(
                UPrivilige { ustatus: 0, uepc: entry_pc, utvec: 0, uie: 0 },
            ),
        };
        TaskContext { x, addrspace_token, free_sp, schedule_fn, priv_info }
    }

    /// Register `x_i`, for `1 <= i <= 31`.
    pub fn gpr(&self, i: usize) -> (r: usize)
        requires
            1 <= i <= 31,
        ensures
            r == self.gpr_spec(i as int),
    {
        self.x[i - 1]
    }

    /// Sets register `x_i`, for `1 <= i <= 31`, and nothing else.
    pub fn set_gpr(&mut self, i: usize, v: usize)
        requires
            1 <= i <= 31,
        ensures
            final(self).x@ == old(self).x@.update(i - 1, v),
            final(self).addrspace_token == old(self).addrspace_token,
            final(self).free_sp == old(self).free_sp,
            final(self).schedule_fn == old(self).schedule_fn,
            final(self).priv_info == old(self).priv_info,
    {
        self.x[i - 1] = v;
    }

    /// The in-memory image of the context.
    pub fn to_words(&self) -> (r: Vec<usize>)
        ensures
            r@ == self.image(),
    {
        let mut r: Vec<usize> = Vec::new();
        let mut i: usize = 0;
        while i < 31
            invariant
                0 <= i <= 31,
                r@ == self.x@.subrange(0, i as int),
            decreases 31 - i,
        {
            r.push(self.x[i]);
            i = i + 1;
        }
        r.push(self.addrspace_token);
        r.push(self.free_sp);
        r.push(self.schedule_fn);
        let (tag, a, b, c, d) = priv_info_words(&self.priv_info);
        r.push(tag);
        r.push(a);
        r.push(b);
        r.push(c);
        r.push(d);
        assert(r@ =~= self.image());
        r
    }

    /// The context held by the words `w`: `None` where `w` is not 39 words
    /// long or its privilege tag is unknown.
    pub fn from_words(w: &[usize]) -> (r: Option<TaskContext>)
        ensures
            r is Some <==> TaskContext::decodable(w@),
            r matches Some(c) ==> c.is_decoding_of(w@),
    {
        if w.len() != CONTEXT_WORDS {
            return None;
        }
        let priv_info = match decode_priv_words(w[34], w[35], w[36], w[37], w[38]) {
            Some(p) => p,
            None => {
                assert(w@.subrange(34, 39) =~= seq![w@[34], w@[35], w@[36], w@[37], w@[38]]);
                return None;
            },
        };
        let mut x: [usize; 31] = [0usize; 31];
        let mut i: usize = 0;
        while i < 31
            invariant
                w@.len() == 39,
                0 <= i <= 31,
                forall|j: int| 0 <= j < i ==> x@[j] == w@[j],
            decreases 31 - i,
        {
            x[i] = w[i];
            i = i + 1;
        }
        assert(x@ =~= w@.subrange(0, 31));
        assert(w@.subrange(34, 39) =~= seq![w@[34], w@[35], w@[36], w@[37], w@[38]]);
        Some(TaskContext { x, addrspace_token: w[31], free_sp: w[32], schedule_fn: w[33], priv_info })
    }
}

/// The tag and payload words of a privilege record.
pub fn priv_info_words(p: &PrivInfo) -> (r: (usize, usize, usize, usize, usize))
    ensures
        seq![r.0, r.1, r.2, r.3, r.4] == priv_words(*p),
{
    match p {
        PrivInfo::SPrivilige(s) => (TAG_SUPERVISOR, s.sstatus, s.sepc, s.stvec, s.sie),
        PrivInfo::UPrivilige(u) => (TAG_USER, u.ustatus, u.uepc, u.utvec, u.uie),
        PrivInfo::UnKnown => (TAG_UNKNOWN, 0, 0, 0, 0),
    }
}

/// The privilege record held by a tag word and four payload words.
pub fn decode_priv_words(tag: usize, a: usize, b: usize, c: usize, d: usize) -> (r: Option<
    PrivInfo,
>)
    ensures
        r == decode_priv(seq![tag, a, b, c, d]),
{
    if tag == TAG_SUPERVISOR {
        Some(PrivInfo::SPrivilige(SPrivilige { sstatus: a, sepc: b, stvec: c, sie: d }))
    } else if tag == TAG_USER {
        Some(PrivInfo::UPrivilige(UPrivilige { ustatus: a, uepc: b, utvec: c, uie: d }))
    } else if tag == TAG_UNKNOWN {
        Some(PrivInfo::UnKnown)
    } else {
        None
    }
}

/// Byte offset of register `x_i` inside a context, for `1 <= i <= 31`.
pub fn gpr_offset(i: usize) -> (r: usize)
    requires
        1 <= i <= 31,
    ensures
        r == gpr_offset_spec(i as int),
{
    (i - 1) * WORD
}

/// The context's image is `TASKCTX_SIZE` bytes: as many words as its fields
/// take, each `WORD` bytes wide.
pub proof fn lemma_layout_size(c: TaskContext)
    ensures
        c.image().len() == CONTEXT_WORDS,
        TASKCTX_SIZE == CONTEXT_WORDS * WORD,
        CONTEXT_WORDS == GPR_COUNT + 3 + 5,
        PRIV_TAG_SLOT + 5 == CONTEXT_WORDS,
{
}

/// Register `x_i` of every context lies at byte offset `(i - 1) * WORD`
/// of its image, for every `i` from 1 to 31.
pub proof fn lemma_gpr_offsets(c: TaskContext)
    ensures
        forall|i: int|
            1 <= i <= 31 ==> #[trigger] c.image()[gpr_offset_spec(i) / WORD as int] == c.gpr_spec(i),
{
    assert forall|i: int| 1 <= i <= 31 implies #[trigger] c.image()[gpr_offset_spec(i) / WORD as int]
        == c.gpr_spec(i) by {
        assert(gpr_offset_spec(i) / WORD as int == i - 1);
    }
}

/// Decoding the image of a context gives back that context, and only it.
pub proof fn lemma_image_round_trip(c: TaskContext, d: TaskContext)
    ensures
        TaskContext::decodable(c.image()),
        c.is_decoding_of(c.image()),
        d.is_decoding_of(c.image()) ==> d == c,
{
    let w = c.image();
    assert(w.subrange(0, 31) =~= c.x@);
    assert(w.subrange(34, 39) =~= priv_words(c.priv_info));
    if d.is_decoding_of(w) {
        assert(d.x@ =~= c.x@);
        assert(d.x == c.x);
    }
}

} // verus!
