use vstd::prelude::*;

use crate::memory_update::{MemoryType, MemoryUpdate};
use crate::Fault;

verus! {

/// Mathematical model of the operand stack: all 16 slots together with the
/// stack pointer. Slots at and above the pointer are kept zeroed, so the
/// whole slot array is part of the model (hosts observe every slot).
#[verifier::ext_equal]
pub ghost struct StackModel {
    pub slots: Seq<u16>,
    pub sp: nat,
}

impl StackModel {
    /// Well-formedness: exactly 16 slots, pointer within bounds, and every
    /// slot at or above the pointer zeroed (popped slots never leak).
    pub open spec fn wf(self) -> bool {
        &&& self.slots.len() == 16
        &&& self.sp <= 16
        &&& forall|i: int| self.sp <= i < 16 ==> self.slots[i] == 0
    }
}

/// The model of a freshly built (or reset) stack: empty, all slots zero.
pub open spec fn empty_stack() -> StackModel {
    StackModel { slots: Seq::new(16, |i: int| 0u16), sp: 0 }
}

/// Effect of a push on the model (meaningful when `m.sp < 16`).
pub open spec fn stack_push(m: StackModel, value: u16) -> StackModel {
    StackModel { slots: m.slots.update(m.sp as int, value), sp: m.sp + 1 }
}

/// Effect of a pop on the model, with the popped value (meaningful when
/// `m.sp > 0`). The vacated slot is zeroed.
pub open spec fn stack_pop(m: StackModel) -> (StackModel, u16) {
    (
        StackModel { slots: m.slots.update(m.sp - 1, 0u16), sp: (m.sp - 1) as nat },
        m.slots[m.sp - 1],
    )
}

/// The value on top of the stack (meaningful when `m.sp > 0`).
pub open spec fn stack_top(m: StackModel) -> u16 {
    m.slots[m.sp - 1]
}

/// The value one below the top (meaningful when `m.sp >= 2`).
pub open spec fn stack_nos(m: StackModel) -> u16 {
    m.slots[m.sp - 2]
}

/// The observation records a host receives for the stack: one record per
/// slot at register addresses 0 through 15, then the stack pointer at 17.
pub open spec fn stack_records(s: StackModel) -> Seq<MemoryUpdate> {
    Seq::new(
        17,
        |i: int|
            if i < 16 {
                MemoryUpdate { memory_type: MemoryType::Reg, address: i as u16, value: s.slots[i] }
            } else {
                MemoryUpdate { memory_type: MemoryType::Reg, address: 17, value: s.sp as u16 }
            },
    )
}

/// Fixed-capacity (16-slot) last-in-first-out storage of 16-bit words with an
/// explicit stack pointer. Overfull pushes and empty pops are reported as
/// faults, never applied.
pub struct Stack {
    data: Vec<u16>,
    sp: usize,
}

impl View for Stack {
    type V = StackModel;

    closed spec fn view(&self) -> StackModel {
        StackModel { slots: self.data@, sp: self.sp as nat }
    }
}

impl Stack {
    pub open spec fn wf(&self) -> bool {
        self@.wf()
    }

    /// Builds an empty stack with every slot zeroed.
    pub fn new() -> (r: Stack)
        ensures
            r.wf(),
            r@ == empty_stack(),
    {
        let mut data: Vec<u16> = Vec::new();
        let mut i: usize = 0;
        while i < 16
            invariant
                i <= 16,
                data@.len() == i,
                forall|j: int| 0 <= j < i ==> data@[j] == 0,
            decreases 16 - i,
        {
            data.push(0);
            i = i + 1;
        }
        let r = Stack { data, sp: 0 };
        proof {
            assert(r@ =~= empty_stack());
        }
        r
    }

    /// The current stack pointer: 0 means empty, 16 means full.
    pub fn sp(&self) -> (r: usize)
        ensures
            r == self@.sp,
    {
        self.sp
    }

    /// Pushes `value`; a push onto a full stack faults with overflow and
    /// leaves the stack unchanged.
    pub fn push(&mut self, value: u16) -> (r: Result<(), Fault>)
        requires
            old(self).wf(),
        ensures
            final(self).wf(),
            old(self)@.sp < 16 ==> r is Ok && final(self)@ == stack_push(old(self)@, value),
            old(self)@.sp == 16 ==> r == Err::<(), Fault>(Fault::StackOverflow) && final(self)@
                == old(self)@,
    {
        if self.sp < 16 {
            self.data.set(self.sp, value);
            self.sp = self.sp + 1;
            Ok(())
        } else {
            Err(Fault::StackOverflow)
        }
    }

    /// Pops the top word; a pop from an empty stack faults with underflow and
    /// leaves the stack unchanged. The vacated slot is zeroed.
    pub fn pop(&mut self) -> (r: Result<u16, Fault>)
        requires
            old(self).wf(),
        ensures
            final(self).wf(),
            old(self)@.sp > 0 ==> r == Ok::<u16, Fault>(stack_pop(old(self)@).1) && final(self)@
                == stack_pop(old(self)@).0,
            old(self)@.sp == 0 ==> r == Err::<u16, Fault>(Fault::StackUnderflow) && final(self)@
                == old(self)@,
    {
        if self.sp > 0 {
            self.sp = self.sp - 1;
            let value = self.data[self.sp];
            self.data.set(self.sp, 0);
            Ok(value)
        } else {
            Err(Fault::StackUnderflow)
        }
    }

    /// Reads the top word without popping; faults with underflow when empty.
    pub fn top(&self) -> (r: Result<u16, Fault>)
        requires
            self.wf(),
        ensures
            self@.sp > 0 ==> r == Ok::<u16, Fault>(stack_top(self@)),
            self@.sp == 0 ==> r == Err::<u16, Fault>(Fault::StackUnderflow),
    {
        if self.sp > 0 {
            Ok(self.data[self.sp - 1])
        } else {
            Err(Fault::StackUnderflow)
        }
    }

    /// Reads the word one below the top; faults with underflow when fewer
    /// than two words are on the stack.
    pub fn nos(&self) -> (r: Result<u16, Fault>)
        requires
            self.wf(),
        ensures
            self@.sp >= 2 ==> r == Ok::<u16, Fault>(stack_nos(self@)),
            self@.sp < 2 ==> r == Err::<u16, Fault>(Fault::StackUnderflow),
    {
        if self.sp >= 2 {
            Ok(self.data[self.sp - 2])
        } else {
            Err(Fault::StackUnderflow)
        }
    }

    /// A copy of all 16 slots, for read-only rendering by a host.
    pub fn slots(&self) -> (r: Vec<u16>)
        requires
            self.wf(),
        ensures
            r@ == self@.slots,
    {
        let mut r: Vec<u16> = Vec::new();
        let mut i: usize = 0;
        while i < 16
            invariant
                i <= 16,
                self.wf(),
                r@.len() == i,
                forall|j: int| 0 <= j < i ==> r@[j] == self@.slots[j],
            decreases 16 - i,
        {
            r.push(self.data[i]);
            i = i + 1;
        }
        proof {
            assert(r@ =~= self@.slots);
        }
        r
    }

    /// The observation records describing the current stack state.
    pub fn update_records(&self) -> (r: Vec<MemoryUpdate>)
        requires
            self.wf(),
        ensures
            r@ == stack_records(self@),
    {
        let mut r: Vec<MemoryUpdate> = Vec::new();
        let mut i: usize = 0;
        while i < 16
            invariant
                i <= 16,
                self.wf(),
                r@.len() == i,
                forall|j: int| 0 <= j < i ==> r@[j] == stack_records(self@)[j],
            decreases 16 - i,
        {
            r.push(
                MemoryUpdate { memory_type: MemoryType::Reg, address: i as u16, value: self.data[i] },
            );
            i = i + 1;
        }
        r.push(MemoryUpdate { memory_type: MemoryType::Reg, address: 17, value: self.sp as u16 });
        proof {
            assert(r@ =~= stack_records(self@));
        }
        r
    }
}

/// Pushing every value of `vs` in order onto `m` (meaningful when they fit).
pub open spec fn push_all(m: StackModel, vs: Seq<u16>) -> StackModel
    decreases vs.len(),
{
    if vs.len() == 0 {
        m
    } else {
        push_all(stack_push(m, vs[0]), vs.subrange(1, vs.len() as int))
    }
}

/// Popping `n` words off `m`, returning the final stack and the popped
/// values in pop order (meaningful when `n <= m.sp`).
pub open spec fn pop_all(m: StackModel, n: nat) -> (StackModel, Seq<u16>)
    decreases n,
{
    if n == 0 {
        (m, Seq::empty())
    } else {
        let (m1, vs) = pop_all(m, (n - 1) as nat);
        let (m2, v) = stack_pop(m1);
        (m2, vs.push(v))
    }
}

/// LIFO law: after any sequence of pushes that fits within the capacity of
/// 16, popping the same number of words returns exactly the pushed values in
/// reverse order and restores the stack to its prior state.
pub proof fn lemma_stack_lifo(m: StackModel, vs: Seq<u16>)
    requires
        m.wf(),
        m.sp + vs.len() <= 16,
    ensures
        pop_all(push_all(m, vs), vs.len()).0 == m,
        pop_all(push_all(m, vs), vs.len()).1 == vs.reverse(),
    decreases vs.len(),
{
    if vs.len() == 0 {
        assert(vs.reverse() =~= Seq::<u16>::empty());
    } else {
        let v0 = vs[0];
        let rest = vs.subrange(1, vs.len() as int);
        let m1 = stack_push(m, v0);
        assert(m1.wf());
        lemma_stack_lifo(m1, rest);
        assert(push_all(m, vs) == push_all(m1, rest));
        assert(stack_pop(m1).0 =~= m);
        assert(stack_pop(m1).1 == v0);
        assert(pop_all(push_all(m, vs), vs.len()).1 =~= vs.reverse());
    }
}

} // verus!
