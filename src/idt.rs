//! Interrupt dispatch: the vector layout, the table of IRQ handlers, the
//! policy for CPU exceptions, and the register snapshot the system-call
//! trampoline works on.

use crate::pic::{clear_irq_mask, PicMasks, IRQ_LINES, PIC_1_OFFSET};
use crate::syscall::{dispatcher, route, syscall_of, ServiceCall};
use vstd::prelude::*;

verus! {

/// The software-interrupt vector of the system-call trampoline.
pub const SYSCALL_VECTOR: u8 = 0x80;

/// Dedicated stack slots (indices into the task state segment's interrupt
/// stack table).
pub const DOUBLE_FAULT_IST_INDEX: u16 = 0;

pub const PAGE_FAULT_IST_INDEX: u16 = 1;

pub const GENERAL_PROTECTION_FAULT_IST_INDEX: u16 = 2;

/// Size of each dedicated fault stack, in bytes.
pub const FAULT_STACK_SIZE: usize = 20480;

/// Named hardware interrupt lines.
#[derive(Clone, Copy, Debug, PartialEq, Eq, Structural)]
pub enum Irq {
    Timer,
    Keyboard,
    Rtc,
    Error,
    Spurious,
}

impl Irq {
    pub open spec fn line_spec(&self) -> u8 {
        match self {
            Irq::Timer => 0,
            Irq::Keyboard => 1,
            Irq::Rtc => 8,
            Irq::Error => 12,
            Irq::Spurious => 13,
        }
    }

    /// The controller line this interrupt arrives on.
    pub fn line(&self) -> (r: u8)
        ensures
            r == self.line_spec(),
            r < IRQ_LINES,
    {
        match self {
            Irq::Timer => 0,
            Irq::Keyboard => 1,
            Irq::Rtc => 8,
            Irq::Error => 12,
            Irq::Spurious => 13,
        }
    }
}

/// The vector that hardware line `irq` is remapped to.
pub fn interrupt_index(irq: u8) -> (r: u8)
    requires
        irq <= u8::MAX - PIC_1_OFFSET,
    ensures
        r == PIC_1_OFFSET + irq,
{
    PIC_1_OFFSET + irq
}

/// The CPU exceptions the kernel installs handlers for.
#[derive(Clone, Copy, Debug, PartialEq, Eq, Structural)]
pub enum Exception {
    Breakpoint,
    DoubleFault,
    PageFault,
    GeneralProtectionFault,
    StackSegmentFault,
    SegmentNotPresent,
}

/// What a handler does after printing its report.
#[derive(Clone, Copy, Debug, PartialEq, Eq, Structural)]
pub enum FaultAction {
    /// Return to the interrupted code.
    Resume,
    /// Halt the system for good.
    Halt,
}

impl Exception {
    /// Only the breakpoint exception is recoverable.
    pub fn action(&self) -> (r: FaultAction)
        ensures
            r == FaultAction::Resume <==> *self == Exception::Breakpoint,
    {
        match self {
            Exception::Breakpoint => FaultAction::Resume,
            _ => FaultAction::Halt,
        }
    }

    /// The dedicated stack the handler runs on, for the faults that may
    /// strike with a corrupted stack pointer.
    pub fn stack_index(&self) -> (r: Option<u16>)
        ensures
            r == match *self {
                Exception::DoubleFault => Some(DOUBLE_FAULT_IST_INDEX),
                Exception::PageFault => Some(PAGE_FAULT_IST_INDEX),
                Exception::GeneralProtectionFault => Some(GENERAL_PROTECTION_FAULT_IST_INDEX),
                _ => None::<u16>,
            },
    {
        match self {
            Exception::DoubleFault => Some(DOUBLE_FAULT_IST_INDEX),
            Exception::PageFault => Some(PAGE_FAULT_IST_INDEX),
            Exception::GeneralProtectionFault => Some(GENERAL_PROTECTION_FAULT_IST_INDEX),
            _ => None,
        }
    }
}

/// One callback per hardware line; every slot always holds a handler.
pub struct IrqTable<H> {
    handlers: Vec<H>,
}

impl<H> View for IrqTable<H> {
    type V = Seq<H>;

    closed spec fn view(&self) -> Seq<H> {
        self.handlers@
    }
}

/// Which handler to run for a line, and the vector to acknowledge after it.
#[derive(Debug)]
pub struct IrqDispatch<H> {
    pub handler: H,
    pub eoi_vector: u8,
}

impl<H: Copy> IrqTable<H> {
    /// A table whose every slot holds `default` (a handler that does nothing).
    pub fn new(default: H) -> (t: IrqTable<H>)
        ensures
            t@ == Seq::new(IRQ_LINES as nat, |i: int| default),
    {
        let mut handlers: Vec<H> = Vec::new();
        let mut i: u8 = 0;
        while i < IRQ_LINES
            invariant
                i <= IRQ_LINES,
                handlers@ == Seq::new(i as nat, |j: int| default),
            decreases IRQ_LINES - i,
        {
            handlers.push(default);
            i = i + 1;
            assert(handlers@ =~= Seq::new(i as nat, |j: int| default));
        }
        IrqTable { handlers }
    }

    /// The table holds one slot per line.
    pub open spec fn wf(&self) -> bool {
        self@.len() == IRQ_LINES
    }

    /// The handler registered for line `irq`.
    pub fn handler(&self, irq: u8) -> (h: H)
        requires
            self.wf(),
            irq < IRQ_LINES,
        ensures
            h == self@[irq as int],
    {
        self.handlers[irq as usize]
    }

    /// What the trampoline of line `irq` does: run that line's handler, then
    /// acknowledge the line's vector.
    pub fn dispatch(&self, irq: u8) -> (d: IrqDispatch<H>)
        requires
            self.wf(),
            irq < IRQ_LINES,
        ensures
            d.handler == self@[irq as int],
            d.eoi_vector == PIC_1_OFFSET + irq,
    {
        IrqDispatch { handler: self.handler(irq), eoi_vector: interrupt_index(irq) }
    }
}

/// Installs `handler` for line `irq` and unmasks that line; every other
/// slot and every other line's mask bit are left alone.
pub fn set_irq_handler<H: Copy>(table: &mut IrqTable<H>, masks: &mut PicMasks, irq: u8, handler: H)
    requires
        old(table).wf(),
        irq < IRQ_LINES,
    ensures
        final(table).wf(),
        final(table)@ == old(table)@.update(irq as int, handler),
        final(masks).word() == old(masks).word() & !(1u16 << (irq as u16)),
        !final(masks).is_masked(irq),
{
    table.handlers.set(irq as usize, handler);
    clear_irq_mask(masks, irq);
}

/// The general-purpose registers the system-call trampoline saves, in the
/// order they sit on the interrupt stack.
#[derive(Clone, Copy, Debug, Default)]
pub struct Registers {
    pub r11: usize,
    pub r10: usize,
    pub r9: usize,
    pub r8: usize,
    pub rdi: usize,
    pub rsi: usize,
    pub rdx: usize,
    pub rcx: usize,
    pub rax: usize,
}

/// The body of the system-call trampoline: the number is in `rax`, the
/// arguments in `rdi`, `rsi`, `rdx` and `r8`. The call's return value is
/// written to `rax`, every other register is left alone, and the call is
/// handed back for the service to run. An unknown number is fatal, so
/// callers must rule it out.
pub fn syscall_handler(regs: &mut Registers) -> (r: ServiceCall)
    requires
        syscall_of(old(regs).rax) is Ok,
    ensures
        Some(r) == route(old(regs).rax, old(regs).rdi, old(regs).rsi, old(regs).rdx, old(regs).r8),
        *final(regs) == (Registers { rax: r.return_value_spec(), ..*old(regs) }),
{
    let call = dispatcher(regs.rax, regs.rdi, regs.rsi, regs.rdx, regs.r8);
    regs.rax = call.return_value();
    call
}

} // verus!
