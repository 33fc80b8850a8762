use waterfall::idt::{syscall_handler, Registers};
use waterfall::syscall::{dispatcher, ServiceCall, Syscall};

#[test]
fn sleep_is_routed_with_its_argument() {
    let call = dispatcher(1, 10, 0, 0, 0);
    assert_eq!(call, ServiceCall::Sleep(10));
    assert_eq!(call.return_value(), 0);
}

#[test]
fn unknown_numbers_are_rejected_before_dispatch() {
    // the caller tests the number first and aborts on an unknown one
    assert_eq!(Syscall::try_from(255usize), Err(()));
    assert_eq!(Syscall::try_from(0usize), Err(()));
}

#[test]
fn syscall_numbers_convert() {
    assert_eq!(Syscall::try_from(1usize), Ok(Syscall::Sleep));
    assert_eq!(Syscall::try_from(2usize), Err(()));
    assert_eq!(Syscall::Sleep.number(), 1);
}

#[test]
fn trampoline_writes_result_to_rax() {
    let mut regs = Registers { rax: 1, rdi: 10, rsi: 11, rdx: 12, r8: 13, rcx: 14, ..Registers::default() };
    let call = syscall_handler(&mut regs);
    assert_eq!(call, ServiceCall::Sleep(10));
    assert_eq!(regs.rax, 0);
    assert_eq!((regs.rdi, regs.rsi, regs.rdx, regs.r8, regs.rcx), (10, 11, 12, 13, 14));
}
