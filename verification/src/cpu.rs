//! The processor's registers, and what resets and interrupts do to them.

use crate::nes::event::Kind;
use vstd::prelude::*;

verus! {

/// Where the program counter is loaded from on a non-maskable interrupt.
pub const NMI_VECTOR: u16 = 0xFFFA;

/// Where the program counter is loaded from on a reset.
pub const RESET_VECTOR: u16 = 0xFFFC;

/// Where the program counter is loaded from on an interrupt request or a
/// break instruction.
pub const IRQ_VECTOR: u16 = 0xFFFE;

/// The page that the stack lies in.
pub const STACK_PAGE: u16 = 0x0100;

/// The interrupt-disable flag of the status register.
pub const FLAG_I: u8 = 0x04;

/// The break flag of the status register, as it is pushed.
pub const FLAG_B: u8 = 0x10;

/// Cycles that entering an interrupt takes.
pub const INTERRUPT_CYCLES: u64 = 7;

/// What makes the processor enter its interrupt sequence.
#[derive(Debug, Copy, Clone, PartialEq, Eq, Structural)]
pub enum Interrupt {
    Nmi,
    Irq,
    Brk,
}

/// The processor's registers and its cycle counter.
#[derive(Debug, Copy, Clone, PartialEq, Eq, Structural)]
pub struct Cpu {
    pub a: u8,
    pub x: u8,
    pub y: u8,
    /// The stack pointer; the stack is at `0x0100 | s`.
    pub s: u8,
    /// The status flags.
    pub p: u8,
    pub pc: u16,
    /// Cycles since power-on.
    pub cycle: u64,
}

/// A byte written to the stack.
#[derive(Debug, Copy, Clone, PartialEq, Eq, Structural)]
pub struct Push {
    pub addr: u16,
    pub val: u8,
}

/// The address of the vector for `interrupt`.
pub open spec fn spec_vector(interrupt: Interrupt) -> u16 {
    match interrupt {
        Interrupt::Nmi => NMI_VECTOR,
        Interrupt::Irq => IRQ_VECTOR,
        Interrupt::Brk => IRQ_VECTOR,
    }
}

pub fn vector(interrupt: Interrupt) -> (addr: u16)
    ensures
        addr == spec_vector(interrupt),
{
    match interrupt {
        Interrupt::Nmi => NMI_VECTOR,
        Interrupt::Irq => IRQ_VECTOR,
        Interrupt::Brk => IRQ_VECTOR,
    }
}

/// The address on the stack that stack pointer `s` names.
pub open spec fn spec_stack_addr(s: u8) -> u16 {
    (STACK_PAGE + s) as u16
}

/// `s` after `n` bytes are pushed; the stack pointer wraps inside its page.
pub open spec fn spec_pushed(s: u8, n: int) -> u8 {
    ((s - n) % 256) as u8
}

impl Cpu {
    /// The processor after a reset that finds `target` in the reset
    /// vector: the program counter is loaded, interrupts are disabled, and
    /// the stack pointer moves down by three. The other registers keep
    /// their values. A hard reset also restarts the cycle counter.
    pub open spec fn spec_reset(self, kind: Kind, target: u16) -> Cpu {
        Cpu {
            pc: target,
            p: self.p | FLAG_I,
            s: spec_pushed(self.s, 3),
            cycle: if kind == Kind::Hard {
                0
            } else {
                self.cycle
            },
            ..self
        }
    }

    /// The return address that `interrupt` pushes: a break skips the byte
    /// after its opcode.
    pub open spec fn spec_return_addr(self, interrupt: Interrupt) -> u16 {
        if interrupt == Interrupt::Brk {
            ((self.pc + 2) % 0x10000) as u16
        } else {
            self.pc
        }
    }

    /// The status byte that `interrupt` pushes: the break flag is set for
    /// a break instruction and clear for a hardware interrupt.
    pub open spec fn spec_pushed_status(self, interrupt: Interrupt) -> u8 {
        if interrupt == Interrupt::Brk {
            self.p | FLAG_B
        } else {
            self.p & !FLAG_B
        }
    }

    /// The three bytes that `interrupt` pushes, in order: the high byte of
    /// the return address, its low byte, and the status.
    pub open spec fn spec_pushes(self, interrupt: Interrupt) -> Seq<Push> {
        seq![
            Push {
                addr: spec_stack_addr(self.s),
                val: (self.spec_return_addr(interrupt) / 256) as u8,
            },
            Push {
                addr: spec_stack_addr(spec_pushed(self.s, 1)),
                val: (self.spec_return_addr(interrupt) % 256) as u8,
            },
            Push {
                addr: spec_stack_addr(spec_pushed(self.s, 2)),
                val: self.spec_pushed_status(interrupt),
            },
        ]
    }

    /// The processor after it has entered `interrupt` and found `target`
    /// in the vector.
    pub open spec fn spec_interrupt(self, interrupt: Interrupt, target: u16) -> Cpu {
        Cpu {
            pc: target,
            p: self.p | FLAG_I,
            s: spec_pushed(self.s, 3),
            cycle: (self.cycle + INTERRUPT_CYCLES) as u64,
            ..self
        }
    }

    pub fn reset(&mut self, kind: Kind, target: u16)
        ensures
            *final(self) == old(self).spec_reset(kind, target),
    {
        self.pc = target;
        self.p = self.p | FLAG_I;
        self.s = self.s.wrapping_sub(3);
        match kind {
            Kind::Soft => {},
            Kind::Hard => {
                self.cycle = 0;
            },
        }
    }

    /// Enters `interrupt`. Returns the bytes to write to the stack, in
    /// order, and the cycles taken.
    pub fn interrupt(&mut self, interrupt: Interrupt, target: u16) -> (r: (Vec<Push>, u64))
        requires
            old(self).cycle <= u64::MAX - INTERRUPT_CYCLES,
        ensures
            *final(self) == old(self).spec_interrupt(interrupt, target),
            r.0@ == old(self).spec_pushes(interrupt),
            r.1 == INTERRUPT_CYCLES,
            final(self).cycle - old(self).cycle == r.1,
    {
        let ret: u16 = match interrupt {
            Interrupt::Brk => self.pc.wrapping_add(2),
            _ => self.pc,
        };
        let status: u8 = match interrupt {
            Interrupt::Brk => self.p | FLAG_B,
            _ => self.p & !FLAG_B,
        };
        let mut pushes: Vec<Push> = Vec::new();
        pushes.push(Push { addr: STACK_PAGE + self.s as u16, val: (ret / 256) as u8 });
        pushes.push(
            Push { addr: STACK_PAGE + self.s.wrapping_sub(1) as u16, val: (ret % 256) as u8 },
        );
        pushes.push(Push { addr: STACK_PAGE + self.s.wrapping_sub(2) as u16, val: status });
        proof {
            assert(pushes@ =~= old(self).spec_pushes(interrupt));
        }
        self.s = self.s.wrapping_sub(3);
        self.p = self.p | FLAG_I;
        self.pc = target;
        self.cycle += INTERRUPT_CYCLES;
        (pushes, INTERRUPT_CYCLES)
    }
}

/// Every stack access lies in the stack page, at `0x0100 | s`.
pub proof fn lemma_stack_stays_in_its_page(s: u8, n: int)
    requires
        0 <= n <= 256,
    ensures
        0x0100 <= spec_stack_addr(spec_pushed(s, n)) <= 0x01FF,
        spec_stack_addr(s) == 0x0100u16 | (s as u16),
{
    assert(0x0100u16 | (s as u16) == (0x0100u16 + (s as u16)) as u16) by (bit_vector);
}

/// A reset leaves the accumulator and the index registers alone, and
/// changes of the status only the interrupt-disable flag, which it sets.
pub proof fn lemma_reset_keeps_registers(cpu: Cpu, kind: Kind, target: u16)
    ensures
        cpu.spec_reset(kind, target).a == cpu.a,
        cpu.spec_reset(kind, target).x == cpu.x,
        cpu.spec_reset(kind, target).y == cpu.y,
        cpu.spec_reset(kind, target).p & FLAG_I == FLAG_I,
        cpu.spec_reset(kind, target).p & !FLAG_I == cpu.p & !FLAG_I,
        kind == Kind::Soft ==> cpu.spec_reset(kind, target).cycle == cpu.cycle,
{
    let p = cpu.p;
    assert((p | 0x04u8) & 0x04u8 == 0x04u8) by (bit_vector);
    assert((p | 0x04u8) & !0x04u8 == p & !0x04u8) by (bit_vector);
}

/// The status that a hardware interrupt pushes has the break flag clear,
/// the one that a break pushes has it set; the other flags are pushed as
/// they are.
pub proof fn lemma_break_flag_tells_the_source(cpu: Cpu)
    ensures
        cpu.spec_pushed_status(Interrupt::Nmi) & FLAG_B == 0,
        cpu.spec_pushed_status(Interrupt::Irq) & FLAG_B == 0,
        cpu.spec_pushed_status(Interrupt::Brk) & FLAG_B == FLAG_B,
        cpu.spec_pushed_status(Interrupt::Brk) & !FLAG_B == cpu.p & !FLAG_B,
        cpu.spec_pushed_status(Interrupt::Nmi) & !FLAG_B == cpu.p & !FLAG_B,
{
    let p = cpu.p;
    assert((p & !0x10u8) & 0x10u8 == 0) by (bit_vector);
    assert((p | 0x10u8) & 0x10u8 == 0x10u8) by (bit_vector);
    assert((p | 0x10u8) & !0x10u8 == p & !0x10u8) by (bit_vector);
    assert((p & !0x10u8) & !0x10u8 == p & !0x10u8) by (bit_vector);
}

} // verus!
