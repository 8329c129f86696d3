//! The register extractor: from a saved machine context to the two registers
//! a walk starts from.
//!
//! A context is what the operating system hands to a signal handler, or what
//! a thread captures of itself. Its layout differs between platforms, so
//! each platform has a type of its own here, holding the registers as plain
//! values, and an implementation of [`ExecutionContext`] that names the
//! register serving as program counter and the one serving as frame pointer.
//! A build selects exactly one of them.

use vstd::prelude::*;

verus! {

/// Index of the instruction pointer among the general registers of an
/// x86-64 Linux context.
pub const REG_RIP: usize = 16;

/// Index of the base pointer among the general registers of an x86-64 Linux
/// context.
pub const REG_RBP: usize = 10;

/// Index of the frame pointer (`x29`) among the general registers of an
/// AArch64 Linux context.
pub const REG_X29: usize = 29;

/// Where a walk starts: the address being executed and the frame pointer in
/// effect there.
#[derive(Clone, Copy, Debug, PartialEq, Eq, Structural)]
pub struct Registers {
    /// The program counter.
    pub pc: u64,
    /// The frame pointer.
    pub fp: u64,
}

/// A saved machine state from which the starting registers can be read.
pub trait ExecutionContext {
    /// The registers this context yields: `None` exactly when the context
    /// has no register block to read them from.
    spec fn registers(&self) -> Option<Registers>;

    /// Reads the program counter and the frame pointer, as they are. Whether
    /// they point into mapped memory is for the walk to find out.
    fn extract(&self) -> (found: Option<Registers>)
        ensures
            found == self.registers(),
    ;
}

/// The general registers of an x86-64 Linux context, in the kernel's order.
#[derive(Clone, Copy, Debug)]
pub struct LinuxX64Context {
    /// The register file, each register as the signed word the kernel saves.
    pub gregs: [i64; 23],
}

impl ExecutionContext for LinuxX64Context {
    /// The instruction pointer and the base pointer, bit for bit. The
    /// register block is part of the context, so it is never missing.
    open spec fn registers(&self) -> Option<Registers> {
        Some(
            Registers {
                pc: self.gregs[REG_RIP as int] as u64,
                fp: self.gregs[REG_RBP as int] as u64,
            },
        )
    }

    fn extract(&self) -> (found: Option<Registers>) {
        Some(Registers { pc: self.gregs[REG_RIP] as u64, fp: self.gregs[REG_RBP] as u64 })
    }
}

/// The registers of an AArch64 Linux context.
#[derive(Clone, Copy, Debug)]
pub struct LinuxArm64Context {
    /// The general registers `x0` to `x30`.
    pub regs: [u64; 31],
    /// The stack pointer.
    pub sp: u64,
    /// The program counter.
    pub pc: u64,
}

impl ExecutionContext for LinuxArm64Context {
    /// The program counter and `x29`. The register block is part of the
    /// context, so it is never missing.
    open spec fn registers(&self) -> Option<Registers> {
        Some(Registers { pc: self.pc, fp: self.regs[REG_X29 as int] })
    }

    fn extract(&self) -> (found: Option<Registers>) {
        Some(Registers { pc: self.pc, fp: self.regs[REG_X29] })
    }
}

/// The registers of an x86-64 Darwin thread state that matter to a walk.
#[derive(Clone, Copy, Debug, PartialEq, Eq, Structural)]
pub struct DarwinX64ThreadState {
    /// The instruction pointer.
    pub rip: u64,
    /// The stack pointer.
    pub rsp: u64,
    /// The base pointer.
    pub rbp: u64,
    /// The callee-saved register `rbx`.
    pub rbx: u64,
}

/// An x86-64 Darwin context. It reaches its thread state through a pointer,
/// which may be null.
#[derive(Clone, Copy, Debug, PartialEq, Eq, Structural)]
pub struct DarwinX64Context {
    /// The thread state, or `None` where the pointer to it is null.
    pub thread_state: Option<DarwinX64ThreadState>,
}

impl ExecutionContext for DarwinX64Context {
    /// The instruction pointer, and `rbx` in the role of the frame pointer:
    /// binaries traced on this platform are built to keep it there, and the
    /// extractor has to agree with them.
    open spec fn registers(&self) -> Option<Registers> {
        match self.thread_state {
            Some(state) => Some(Registers { pc: state.rip, fp: state.rbx }),
            None => None,
        }
    }

    fn extract(&self) -> (found: Option<Registers>) {
        match self.thread_state {
            Some(state) => Some(Registers { pc: state.rip, fp: state.rbx }),
            None => None,
        }
    }
}

/// The registers of an AArch64 Darwin thread state that matter to a walk.
#[derive(Clone, Copy, Debug, PartialEq, Eq, Structural)]
pub struct DarwinArm64ThreadState {
    /// The frame pointer (`x29`).
    pub fp: u64,
    /// The link register (`x30`).
    pub lr: u64,
    /// The stack pointer.
    pub sp: u64,
    /// The program counter.
    pub pc: u64,
}

/// An AArch64 Darwin context. It reaches its thread state through a pointer,
/// which may be null.
#[derive(Clone, Copy, Debug, PartialEq, Eq, Structural)]
pub struct DarwinArm64Context {
    /// The thread state, or `None` where the pointer to it is null.
    pub thread_state: Option<DarwinArm64ThreadState>,
}

impl ExecutionContext for DarwinArm64Context {
    /// The program counter and the frame pointer of the thread state.
    open spec fn registers(&self) -> Option<Registers> {
        match self.thread_state {
            Some(state) => Some(Registers { pc: state.pc, fp: state.fp }),
            None => None,
        }
    }

    fn extract(&self) -> (found: Option<Registers>) {
        match self.thread_state {
            Some(state) => Some(Registers { pc: state.pc, fp: state.fp }),
            None => None,
        }
    }
}

impl Registers {
    /// What [`Registers::from_ucontext`] returns: nothing for a missing
    /// context, otherwise what the context yields.
    pub open spec fn of<C: ExecutionContext>(ucontext: Option<&C>) -> Option<Registers> {
        match ucontext {
            Some(context) => context.registers(),
            None => None,
        }
    }

    /// Reads the starting registers out of a context that may be missing.
    ///
    /// The result is `None` when there is no context, or when the context has
    /// no register block; otherwise it holds the two registers verbatim. It
    /// is a function of the context alone, so extracting twice from an
    /// unchanged context gives the same registers twice.
    pub fn from_ucontext<C: ExecutionContext>(ucontext: Option<&C>) -> (found: Option<Registers>)
        ensures
            found == Registers::of(ucontext),
            found is None <==> (ucontext is None || ucontext.unwrap().registers() is None),
    {
        match ucontext {
            Some(context) => context.extract(),
            None => None,
        }
    }
}

/// Extraction is repeatable: it depends on nothing but the context, so a
/// context that has not changed yields the same program counter and the same
/// frame pointer however often they are read from it.
pub proof fn law_extraction_is_repeatable<C: ExecutionContext>(
    first: Option<&C>,
    second: Option<&C>,
)
    requires
        first == second,
    ensures
        Registers::of(first) == Registers::of(second),
{
}

} // verus!
