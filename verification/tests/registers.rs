use tracefp::registers::{
    DarwinArm64Context, DarwinArm64ThreadState, DarwinX64Context, DarwinX64ThreadState,
    ExecutionContext, LinuxArm64Context, LinuxX64Context, Registers, REG_RBP, REG_RIP, REG_X29,
};

fn linux_x64(rip: i64, rbp: i64) -> LinuxX64Context {
    // Every register holds its own index, so a wrong offset shows.
    let mut gregs = [0i64; 23];
    for (index, register) in gregs.iter_mut().enumerate() {
        *register = 1000 + index as i64;
    }
    gregs[16] = rip;
    gregs[10] = rbp;
    LinuxX64Context { gregs }
}

fn linux_arm64(pc: u64, x29: u64) -> LinuxArm64Context {
    let mut regs = [0u64; 31];
    for (index, register) in regs.iter_mut().enumerate() {
        *register = 2000 + index as u64;
    }
    regs[29] = x29;
    LinuxArm64Context { regs, sp: 0xAAAA, pc }
}

#[test]
fn register_indices_follow_the_platform_headers() {
    assert_eq!(REG_RIP, 16);
    assert_eq!(REG_RBP, 10);
    assert_eq!(REG_X29, 29);
    assert_eq!(REG_RIP, libc::REG_RIP as usize);
    assert_eq!(REG_RBP, libc::REG_RBP as usize);
}

#[test]
fn linux_x64_reads_rip_and_rbp() {
    let context = linux_x64(0x40_1234, 0x7ffd_0000_1000);
    assert_eq!(
        context.extract(),
        Some(Registers { pc: 0x40_1234, fp: 0x7ffd_0000_1000 })
    );
    assert_eq!(
        Registers::from_ucontext(Some(&context)),
        Some(Registers { pc: 0x40_1234, fp: 0x7ffd_0000_1000 })
    );
}

#[test]
fn linux_x64_keeps_the_bits_of_a_negative_register() {
    let context = linux_x64(-1, i64::MIN);
    assert_eq!(
        Registers::from_ucontext(Some(&context)),
        Some(Registers { pc: u64::MAX, fp: 0x8000_0000_0000_0000 })
    );
}

#[test]
fn linux_x64_does_not_validate_what_it_reads() {
    let context = linux_x64(0, 0);
    assert_eq!(Registers::from_ucontext(Some(&context)), Some(Registers { pc: 0, fp: 0 }));
}

#[test]
fn linux_arm64_reads_pc_and_x29() {
    let context = linux_arm64(0xffff_0000_1234, 0xffff_8000_0040);
    assert_eq!(
        Registers::from_ucontext(Some(&context)),
        Some(Registers { pc: 0xffff_0000_1234, fp: 0xffff_8000_0040 })
    );
    assert_eq!(context.extract(), Registers::from_ucontext(Some(&context)));
}

#[test]
fn darwin_x64_reads_rip_and_rbx() {
    let state = DarwinX64ThreadState { rip: 0x1_0000_0f00, rsp: 0x7ff0_0010, rbp: 0x7ff0_0020, rbx: 0x7ff0_0030 };
    let context = DarwinX64Context { thread_state: Some(state) };
    assert_eq!(
        Registers::from_ucontext(Some(&context)),
        Some(Registers { pc: 0x1_0000_0f00, fp: 0x7ff0_0030 })
    );
}

#[test]
fn darwin_arm64_reads_pc_and_fp() {
    let state = DarwinArm64ThreadState { fp: 0x16f_e000, lr: 0x1_0000_2000, sp: 0x16f_dff0, pc: 0x1_0000_1000 };
    let context = DarwinArm64Context { thread_state: Some(state) };
    assert_eq!(
        Registers::from_ucontext(Some(&context)),
        Some(Registers { pc: 0x1_0000_1000, fp: 0x16f_e000 })
    );
}

#[test]
fn missing_context_yields_nothing() {
    assert_eq!(Registers::from_ucontext::<LinuxX64Context>(None), None);
    assert_eq!(Registers::from_ucontext::<LinuxArm64Context>(None), None);
    assert_eq!(Registers::from_ucontext::<DarwinX64Context>(None), None);
    assert_eq!(Registers::from_ucontext::<DarwinArm64Context>(None), None);
}

#[test]
fn missing_thread_state_yields_nothing() {
    let x64 = DarwinX64Context { thread_state: None };
    assert_eq!(x64.extract(), None);
    assert_eq!(Registers::from_ucontext(Some(&x64)), None);
    let arm64 = DarwinArm64Context { thread_state: None };
    assert_eq!(arm64.extract(), None);
    assert_eq!(Registers::from_ucontext(Some(&arm64)), None);
}

#[test]
fn extraction_is_repeatable() {
    let context = linux_x64(0x40_1234, 0x7ffd_0000_1000);
    let first = Registers::from_ucontext(Some(&context));
    let second = Registers::from_ucontext(Some(&context));
    assert_eq!(first, second);
    assert_eq!(first.map(|found| found.fp), Some(0x7ffd_0000_1000));
}

#[test]
fn registers_other_than_the_two_do_not_matter() {
    let mut one = linux_x64(0x40_1234, 0x7ffd_0000_1000);
    let other = linux_x64(0x40_1234, 0x7ffd_0000_1000);
    one.gregs[15] = -5; // the stack pointer
    one.gregs[0] = 77;
    assert_eq!(Registers::from_ucontext(Some(&one)), Registers::from_ucontext(Some(&other)));
}
