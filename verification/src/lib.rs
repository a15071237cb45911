use vstd::prelude::*;

pub mod memory_update;
pub mod stack;

use crate::memory_update::{MemoryType, MemoryUpdate};
use crate::stack::{
    empty_stack, stack_nos, stack_pop, stack_push, stack_records, stack_top, Stack, StackModel,
};

verus! {

/// Failure conditions surfaced by the engine: a push onto a full stack, a
/// pop or read from an empty (or too-shallow) stack, and a memory access
/// outside the 4096-word address space.
#[derive(Clone, Copy, PartialEq, Eq, Structural, Debug)]
pub enum Fault {
    StackOverflow,
    StackUnderflow,
    InvalidAddress,
}

pub const FLAG_ZERO: u8 = 0b0000_0001;

pub const FLAG_CARRY: u8 = 0b0000_0010;

pub const FLAG_GREATER: u8 = 0b0000_0100;

pub const FLAG_LESS: u8 = 0b0000_1000;

/// The four condition-flag bits of the flag register.
#[derive(Clone, Copy, PartialEq, Eq, Structural, Debug)]
pub enum Flag {
    Zero,
    Carry,
    Greater,
    Less,
}

/// The bit each flag occupies within the 4-bit flag register.
pub open spec fn flag_mask(f: Flag) -> u8 {
    match f {
        Flag::Zero => FLAG_ZERO,
        Flag::Carry => FLAG_CARRY,
        Flag::Greater => FLAG_GREATER,
        Flag::Less => FLAG_LESS,
    }
}

impl Flag {
    /// The bit this flag occupies within the flag register.
    pub fn mask(self) -> (r: u8)
        ensures
            r == flag_mask(self),
    {
        match self {
            Flag::Zero => FLAG_ZERO,
            Flag::Carry => FLAG_CARRY,
            Flag::Greater => FLAG_GREATER,
            Flag::Less => FLAG_LESS,
        }
    }
}

/// Mathematical model of the whole engine: stack, flag register, the 4096
/// memory words, program counter and status register.
#[verifier::ext_equal]
pub ghost struct ProcModel {
    pub stack: StackModel,
    pub flags: u8,
    pub mem: Seq<u16>,
    pub pc: u16,
    pub st: u8,
}

impl ProcModel {
    pub open spec fn wf(self) -> bool {
        &&& self.stack.wf()
        &&& self.mem.len() == 4096
    }
}

/// The state every engine starts from: everything zeroed.
pub open spec fn initial_model() -> ProcModel {
    ProcModel {
        stack: empty_stack(),
        flags: 0,
        mem: Seq::new(4096, |i: int| 0u16),
        pc: 0,
        st: 0,
    }
}

/// Format selector: bit 15 set means address format.
pub open spec fn is_address_format(w: u16) -> bool {
    (w >> 15) & 1 == 1
}

/// Address-format opcode: the top four bits (the format bit included).
pub open spec fn address_opcode(w: u16) -> u16 {
    (w >> 12) & 0xF
}

/// Address-format operand, masked to the 12-bit address space.
pub open spec fn address_operand(w: u16) -> u16 {
    w & 0xFFF
}

/// Zero-address opcode: the high byte of the instruction word.
pub open spec fn zero_address_opcode(w: u16) -> u16 {
    (w >> 8) & 0xFF
}

/// Zero-address immediate operand: the low byte of the instruction word.
pub open spec fn zero_address_operand(w: u16) -> u16 {
    w & 0xFF
}

/// The 16-bit sum pushed by ADD: the widened sum truncated to 16 bits.
pub open spec fn add_result(a: u16, b: u16) -> u16 {
    if a + b > 0xFFFF {
        (a + b - 0x10000) as u16
    } else {
        (a + b) as u16
    }
}

/// ADD sets the carry bit exactly when the widened sum exceeds 16 bits.
pub open spec fn add_carry(a: u16, b: u16) -> bool {
    a + b > 0xFFFF
}

/// The 16-bit difference pushed by SUB, computing `b - a` (`a` popped
/// first), truncated to 16 bits in two's complement.
pub open spec fn sub_result(a: u16, b: u16) -> u16 {
    if b < a {
        (b - a + 0x10000) as u16
    } else {
        (b - a) as u16
    }
}

/// SUB sets the carry bit exactly when the widened difference is negative.
pub open spec fn sub_carry(a: u16, b: u16) -> bool {
    b < a
}

/// The flag register CMP leaves behind after inspecting `v` as a signed
/// 16-bit value: exactly one of Zero, Greater or Less, everything else
/// (the carry bit included) cleared.
pub open spec fn cmp_flags(v: u16) -> u8 {
    if v == 0 {
        FLAG_ZERO
    } else if v < 0x8000 {
        FLAG_GREATER
    } else {
        FLAG_LESS
    }
}

/// Decode and execute of one instruction word `w` against model `m`, the
/// program counter untouched. A fault leaves no partial effect.
pub open spec fn instr_spec(m: ProcModel, w: u16) -> Result<ProcModel, Fault> {
    if is_address_format(w) {
        let opcode = address_opcode(w);
        let address = address_operand(w);
        if opcode == 0b1000 {
            // LOAD
            if m.stack.sp == 16 {
                Err(Fault::StackOverflow)
            } else {
                Ok(ProcModel { stack: stack_push(m.stack, m.mem[address as int]), ..m })
            }
        } else if opcode == 0b1001 {
            // STORE
            if m.stack.sp == 0 {
                Err(Fault::StackUnderflow)
            } else {
                Ok(
                    ProcModel {
                        stack: stack_pop(m.stack).0,
                        mem: m.mem.update(address as int, stack_pop(m.stack).1),
                        ..m
                    },
                )
            }
        } else {
            Ok(m)
        }
    } else {
        let opcode = zero_address_opcode(w);
        let operand = zero_address_operand(w);
        if opcode == 0x00 {
            // NOP
            Ok(m)
        } else if opcode == 0x01 {
            // CMP
            if m.stack.sp == 0 {
                Err(Fault::StackUnderflow)
            } else {
                Ok(ProcModel { flags: cmp_flags(stack_top(m.stack)), ..m })
            }
        } else if opcode == 0x0F {
            // DBG reads the top of the stack for observation only
            if m.stack.sp == 0 {
                Err(Fault::StackUnderflow)
            } else {
                Ok(m)
            }
        } else if opcode == 0x10 {
            // PUSH
            if m.stack.sp == 16 {
                Err(Fault::StackOverflow)
            } else {
                Ok(ProcModel { stack: stack_push(m.stack, operand), ..m })
            }
        } else if opcode == 0x11 {
            // PUSHH
            if m.stack.sp == 0 {
                Err(Fault::StackUnderflow)
            } else {
                Ok(
                    ProcModel {
                        stack: stack_push(
                            stack_pop(m.stack).0,
                            (operand << 8) | (stack_pop(m.stack).1 & 0xFF),
                        ),
                        ..m
                    },
                )
            }
        } else if opcode == 0x14 {
            // DROP
            if m.stack.sp == 0 {
                Err(Fault::StackUnderflow)
            } else {
                Ok(ProcModel { stack: stack_pop(m.stack).0, ..m })
            }
        } else if opcode == 0x15 {
            // DUP
            if m.stack.sp == 0 {
                Err(Fault::StackUnderflow)
            } else if m.stack.sp == 16 {
                Err(Fault::StackOverflow)
            } else {
                Ok(ProcModel { stack: stack_push(m.stack, stack_top(m.stack)), ..m })
            }
        } else if opcode == 0x18 {
            // SWAP
            if m.stack.sp < 2 {
                Err(Fault::StackUnderflow)
            } else {
                Ok(
                    ProcModel {
                        stack: stack_push(
                            stack_push(stack_pop(stack_pop(m.stack).0).0, stack_pop(m.stack).1),
                            stack_pop(stack_pop(m.stack).0).1,
                        ),
                        ..m
                    },
                )
            }
        } else if opcode == 0x19 {
            // OVER
            if m.stack.sp < 2 {
                Err(Fault::StackUnderflow)
            } else if m.stack.sp == 16 {
                Err(Fault::StackOverflow)
            } else {
                Ok(ProcModel { stack: stack_push(m.stack, stack_nos(m.stack)), ..m })
            }
        } else if opcode == 0x20 {
            // ADD
            if m.stack.sp < 2 {
                Err(Fault::StackUnderflow)
            } else {
                let a = stack_pop(m.stack).1;
                let s1 = stack_pop(m.stack).0;
                let b = stack_pop(s1).1;
                let s2 = stack_pop(s1).0;
                Ok(
                    ProcModel {
                        stack: stack_push(s2, add_result(a, b)),
                        flags: if add_carry(a, b) {
                            m.flags | FLAG_CARRY
                        } else {
                            m.flags
                        },
                        ..m
                    },
                )
            }
        } else if opcode == 0x21 {
            // SUB
            if m.stack.sp < 2 {
                Err(Fault::StackUnderflow)
            } else {
                let a = stack_pop(m.stack).1;
                let s1 = stack_pop(m.stack).0;
                let b = stack_pop(s1).1;
                let s2 = stack_pop(s1).0;
                Ok(
                    ProcModel {
                        stack: stack_push(s2, sub_result(a, b)),
                        flags: if sub_carry(a, b) {
                            m.flags | FLAG_CARRY
                        } else {
                            m.flags
                        },
                        ..m
                    },
                )
            }
        } else if opcode == 0x44 {
            // LOADI
            if m.stack.sp == 0 {
                Err(Fault::StackUnderflow)
            } else if stack_top(m.stack) >= 4096 {
                Err(Fault::InvalidAddress)
            } else {
                Ok(
                    ProcModel {
                        stack: stack_push(stack_pop(m.stack).0, m.mem[stack_top(m.stack) as int]),
                        ..m
                    },
                )
            }
        } else if opcode == 0x45 {
            // STOREI
            if m.stack.sp < 2 {
                Err(Fault::StackUnderflow)
            } else if stack_top(m.stack) >= 4096 {
                Err(Fault::InvalidAddress)
            } else {
                Ok(
                    ProcModel {
                        stack: stack_pop(stack_pop(m.stack).0).0,
                        mem: m.mem.update(
                            stack_top(m.stack) as int,
                            stack_pop(stack_pop(m.stack).0).1,
                        ),
                        ..m
                    },
                )
            }
        } else {
            // unrecognized opcodes are no-ops
            Ok(m)
        }
    }
}

/// One full step: fetch at the program counter, decode, execute, then
/// advance the program counter by one word. A fault aborts the step and
/// leaves the whole state as it was.
pub open spec fn step_spec(m: ProcModel) -> Result<ProcModel, Fault> {
    if m.pc >= 4096 {
        Err(Fault::InvalidAddress)
    } else {
        match instr_spec(m, m.mem[m.pc as int]) {
            Ok(m1) => Ok(ProcModel { pc: (m.pc + 1) as u16, ..m1 }),
            Err(f) => Err(f),
        }
    }
}

/// The observation records a host receives after a step or a reset: the
/// whole stack view followed by the program counter at register address 16.
pub open spec fn proc_records(m: ProcModel) -> Seq<MemoryUpdate> {
    stack_records(m.stack).push(
        MemoryUpdate { memory_type: MemoryType::Reg, address: 16, value: m.pc },
    )
}

/// The instruction engine: a 16-slot operand stack, 4096 16-bit memory
/// words, program counter, status register and flag register, advanced one
/// instruction at a time.
pub struct Processor {
    stack: Stack,
    flags: u8,
    mem: Vec<u16>,
    pc: u16,
    st: u8,
}

impl View for Processor {
    type V = ProcModel;

    closed spec fn view(&self) -> ProcModel {
        ProcModel {
            stack: self.stack@,
            flags: self.flags,
            mem: self.mem@,
            pc: self.pc,
            st: self.st,
        }
    }
}

impl Processor {
    pub open spec fn wf(&self) -> bool {
        self@.wf()
    }

    /// Builds an engine with all state zeroed.
    pub fn new() -> (r: Processor)
        ensures
            r.wf(),
            r@ == initial_model(),
    {
        let mut mem: Vec<u16> = Vec::new();
        let mut i: usize = 0;
        while i < 4096
            invariant
                i <= 4096,
                mem@.len() == i,
                forall|j: int| 0 <= j < i ==> mem@[j] == 0,
            decreases 4096 - i,
        {
            mem.push(0);
            i = i + 1;
        }
        let r = Processor { stack: Stack::new(), flags: 0, mem, pc: 0, st: 0 };
        proof {
            assert(r@.mem =~= initial_model().mem);
            assert(r@ =~= initial_model());
        }
        r
    }

    /// Executes exactly one instruction: fetch at the program counter,
    /// decode, execute, advance the program counter. On a fault the step is
    /// aborted and the engine is left exactly as it was.
    pub fn step(&mut self) -> (r: Result<(), Fault>)
        requires
            old(self).wf(),
        ensures
            final(self).wf(),
            step_spec(old(self)@) is Ok ==> r is Ok && final(self)@ == step_spec(old(self)@)->Ok_0,
            step_spec(old(self)@) is Err ==> r == Err::<(), Fault>(step_spec(old(self)@)->Err_0)
                && final(self)@ == old(self)@,
    {
        if self.pc >= 4096 {
            return Err(Fault::InvalidAddress);
        }
        let instruction: u16 = self.mem[self.pc as usize];
        if (instruction >> 15) & 1 == 1 {
            // Address format
            let opcode: u16 = (instruction >> 12) & 0xF;
            let address: u16 = instruction & 0xFFF;
            proof {
                assert(instruction & 0xFFF < 4096) by (bit_vector);
            }
            if opcode == 0b1000 {
                // LOAD
                if self.stack.sp() == 16 {
                    return Err(Fault::StackOverflow);
                }
                let v = self.mem[address as usize];
                match self.stack.push(v) {
                    Ok(()) => {},
                    Err(f) => return Err(f),
                }
            } else if opcode == 0b1001 {
                // STORE
                if self.stack.sp() == 0 {
                    return Err(Fault::StackUnderflow);
                }
                let v = match self.stack.pop() {
                    Ok(v) => v,
                    Err(f) => return Err(f),
                };
                self.mem.set(address as usize, v);
            }
        } else {
            // Zero-address format
            let opcode: u16 = (instruction >> 8) & 0xFF;
            let operand: u16 = instruction & 0xFF;
            if opcode == 0x00 {
                // NOP
            } else if opcode == 0x01 {
                // CMP
                if self.stack.sp() == 0 {
                    return Err(Fault::StackUnderflow);
                }
                let t = match self.stack.top() {
                    Ok(v) => v,
                    Err(f) => return Err(f),
                };
                if t == 0 {
                    self.flags = FLAG_ZERO;
                } else if t < 0x8000 {
                    self.flags = FLAG_GREATER;
                } else {
                    self.flags = FLAG_LESS;
                }
            } else if opcode == 0x0F {
                // DBG reads the top of the stack; reporting it is host work
                if self.stack.sp() == 0 {
                    return Err(Fault::StackUnderflow);
                }
            } else if opcode == 0x10 {
                // PUSH
                if self.stack.sp() == 16 {
                    return Err(Fault::StackOverflow);
                }
                match self.stack.push(operand) {
                    Ok(()) => {},
                    Err(f) => return Err(f),
                }
            } else if opcode == 0x11 {
                // PUSHH
                if self.stack.sp() == 0 {
                    return Err(Fault::StackUnderflow);
                }
                let t = match self.stack.pop() {
                    Ok(v) => v,
                    Err(f) => return Err(f),
                };
                match self.stack.push((operand << 8) | (t & 0xFF)) {
                    Ok(()) => {},
                    Err(f) => return Err(f),
                }
            } else if opcode == 0x14 {
                // DROP
                if self.stack.sp() == 0 {
                    return Err(Fault::StackUnderflow);
                }
                match self.stack.pop() {
                    Ok(_) => {},
                    Err(f) => return Err(f),
                }
            } else if opcode == 0x15 {
                // DUP
                if self.stack.sp() == 0 {
                    return Err(Fault::StackUnderflow);
                }
                if self.stack.sp() == 16 {
                    return Err(Fault::StackOverflow);
                }
                let t = match self.stack.top() {
                    Ok(v) => v,
                    Err(f) => return Err(f),
                };
                match self.stack.push(t) {
                    Ok(()) => {},
                    Err(f) => return Err(f),
                }
            } else if opcode == 0x18 {
                // SWAP
                if self.stack.sp() < 2 {
                    return Err(Fault::StackUnderflow);
                }
                let a = match self.stack.pop() {
                    Ok(v) => v,
                    Err(f) => return Err(f),
                };
                let b = match self.stack.pop() {
                    Ok(v) => v,
                    Err(f) => return Err(f),
                };
                match self.stack.push(a) {
                    Ok(()) => {},
                    Err(f) => return Err(f),
                }
                match self.stack.push(b) {
                    Ok(()) => {},
                    Err(f) => return Err(f),
                }
            } else if opcode == 0x19 {
                // OVER
                if self.stack.sp() < 2 {
                    return Err(Fault::StackUnderflow);
                }
                if self.stack.sp() == 16 {
                    return Err(Fault::StackOverflow);
                }
                let n = match self.stack.nos() {
                    Ok(v) => v,
                    Err(f) => return Err(f),
                };
                match self.stack.push(n) {
                    Ok(()) => {},
                    Err(f) => return Err(f),
                }
            } else if opcode == 0x20 {
                // ADD
                if self.stack.sp() < 2 {
                    return Err(Fault::StackUnderflow);
                }
                let a = match self.stack.pop() {
                    Ok(v) => v,
                    Err(f) => return Err(f),
                };
                let b = match self.stack.pop() {
                    Ok(v) => v,
                    Err(f) => return Err(f),
                };
                let c: u32 = a as u32 + b as u32;
                let sum: u16 = if c > 0xFFFF {
                    self.flags = self.flags | FLAG_CARRY;
                    (c - 0x10000) as u16
                } else {
                    c as u16
                };
                match self.stack.push(sum) {
                    Ok(()) => {},
                    Err(f) => return Err(f),
                }
            } else if opcode == 0x21 {
                // SUB
                if self.stack.sp() < 2 {
                    return Err(Fault::StackUnderflow);
                }
                let a = match self.stack.pop() {
                    Ok(v) => v,
                    Err(f) => return Err(f),
                };
                let b = match self.stack.pop() {
                    Ok(v) => v,
                    Err(f) => return Err(f),
                };
                let difference: u16 = if b < a {
                    self.flags = self.flags | FLAG_CARRY;
                    (b as u32 + 0x10000 - a as u32) as u16
                } else {
                    b - a
                };
                match self.stack.push(difference) {
                    Ok(()) => {},
                    Err(f) => return Err(f),
                }
            } else if opcode == 0x44 {
                // LOADI
                if self.stack.sp() == 0 {
                    return Err(Fault::StackUnderflow);
                }
                let address = match self.stack.top() {
                    Ok(v) => v,
                    Err(f) => return Err(f),
                };
                if address >= 4096 {
                    return Err(Fault::InvalidAddress);
                }
                match self.stack.pop() {
                    Ok(_) => {},
                    Err(f) => return Err(f),
                }
                let v = self.mem[address as usize];
                match self.stack.push(v) {
                    Ok(()) => {},
                    Err(f) => return Err(f),
                }
            } else if opcode == 0x45 {
                // STOREI
                if self.stack.sp() < 2 {
                    return Err(Fault::StackUnderflow);
                }
                let address = match self.stack.top() {
                    Ok(v) => v,
                    Err(f) => return Err(f),
                };
                if address >= 4096 {
                    return Err(Fault::InvalidAddress);
                }
                match self.stack.pop() {
                    Ok(_) => {},
                    Err(f) => return Err(f),
                }
                let v = match self.stack.pop() {
                    Ok(v) => v,
                    Err(f) => return Err(f),
                };
                self.mem.set(address as usize, v);
            }
            // other opcodes are no-ops
        }
        self.pc = self.pc + 1;
        Ok(())
    }

    /// Bounds-checked external write into memory: an address outside the
    /// 4096-word space is rejected and nothing changes.
    pub fn set_memory_word(&mut self, address: u16, value: u16) -> (r: Result<(), Fault>)
        requires
            old(self).wf(),
        ensures
            final(self).wf(),
            address < 4096 ==> r is Ok && final(self)@ == (ProcModel {
                mem: old(self)@.mem.update(address as int, value),
                ..old(self)@
            }),
            address >= 4096 ==> r == Err::<(), Fault>(Fault::InvalidAddress) && final(self)@
                == old(self)@,
    {
        if address < 4096 {
            self.mem.set(address as usize, value);
            Ok(())
        } else {
            Err(Fault::InvalidAddress)
        }
    }

    /// Restores the zero state for the program counter, status register,
    /// flags and stack; memory is left untouched.
    pub fn reset(&mut self)
        requires
            old(self).wf(),
        ensures
            final(self).wf(),
            final(self)@ == (ProcModel {
                stack: empty_stack(),
                flags: 0,
                mem: old(self)@.mem,
                pc: 0,
                st: 0,
            }),
    {
        self.pc = 0;
        self.st = 0;
        self.flags = 0;
        self.stack = Stack::new();
    }

    /// Bounds-checked read of one memory word.
    pub fn memory_word(&self, address: u16) -> (r: Result<u16, Fault>)
        requires
            self.wf(),
        ensures
            address < 4096 ==> r == Ok::<u16, Fault>(self@.mem[address as int]),
            address >= 4096 ==> r == Err::<u16, Fault>(Fault::InvalidAddress),
    {
        if address < 4096 {
            Ok(self.mem[address as usize])
        } else {
            Err(Fault::InvalidAddress)
        }
    }

    /// A copy of the whole memory, for read-only rendering by a host.
    pub fn memory(&self) -> (r: Vec<u16>)
        requires
            self.wf(),
        ensures
            r@ == self@.mem,
    {
        let mut r: Vec<u16> = Vec::new();
        let mut i: usize = 0;
        while i < 4096
            invariant
                i <= 4096,
                self.wf(),
                r@.len() == i,
                forall|j: int| 0 <= j < i ==> r@[j] == self@.mem[j],
            decreases 4096 - i,
        {
            r.push(self.mem[i]);
            i = i + 1;
        }
        proof {
            assert(r@ =~= self@.mem);
        }
        r
    }

    /// Read-only access to the operand stack.
    pub fn stack(&self) -> (r: &Stack)
        ensures
            r@ == self@.stack,
    {
        &self.stack
    }

    /// The current program counter.
    pub fn get_pc(&self) -> (r: u16)
        ensures
            r == self@.pc,
    {
        self.pc
    }

    /// The current status register.
    pub fn get_st(&self) -> (r: u8)
        ensures
            r == self@.st,
    {
        self.st
    }

    /// The current flag register.
    pub fn get_flags(&self) -> (r: u8)
        ensures
            r == self@.flags,
    {
        self.flags
    }

    /// The observation records describing the current state: the stack view
    /// followed by the program counter at register address 16.
    pub fn update_records(&self) -> (r: Vec<MemoryUpdate>)
        requires
            self.wf(),
        ensures
            r@ == proc_records(self@),
    {
        let mut r = self.stack.update_records();
        r.push(MemoryUpdate { memory_type: MemoryType::Reg, address: 16, value: self.pc });
        r
    }
}

/// Addition law: for operand pairs whose widened sum still fits in 16 bits,
/// the pushed result is the same in either operand order and the carry
/// condition never holds.
pub proof fn lemma_add_commutative(a: u16, b: u16)
    requires
        a + b <= 0xFFFF,
    ensures
        add_result(a, b) == add_result(b, a),
        !add_carry(a, b),
{
}

/// ADD's carry condition holds exactly when the widened sum exceeds the
/// 16-bit range, in either operand order.
pub proof fn lemma_add_carry_iff(a: u16, b: u16)
    ensures
        add_carry(a, b) <==> a + b > 0xFFFF,
        add_carry(a, b) == add_carry(b, a),
{
}

/// Subtraction law: with `a` popped first and `b` second, SUB's carry
/// condition holds exactly when `b < a`, so it never holds when `b >= a`.
pub proof fn lemma_sub_carry_iff(a: u16, b: u16)
    ensures
        sub_carry(a, b) <==> b < a,
        b >= a ==> !sub_carry(a, b),
{
}

/// A comparison never mutates the stack: stepping a CMP instruction
/// succeeds on a non-empty stack and leaves the stack exactly as it was,
/// together with memory and the status register.
pub proof fn lemma_cmp_preserves_stack(m: ProcModel)
    requires
        m.wf(),
        m.pc < 4096,
        !is_address_format(m.mem[m.pc as int]),
        zero_address_opcode(m.mem[m.pc as int]) == 0x01,
        m.stack.sp > 0,
    ensures
        step_spec(m) is Ok,
        step_spec(m)->Ok_0.stack == m.stack,
        step_spec(m)->Ok_0.mem == m.mem,
        step_spec(m)->Ok_0.st == m.st,
        step_spec(m)->Ok_0.flags == cmp_flags(stack_top(m.stack)),
{
}

} // verus!
