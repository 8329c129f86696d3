//! The memory probe: is an address readable right now?
//!
//! The question is put to the kernel. A thread keeps a private, non-blocking
//! pipe. To test an address it first reads the pipe empty, then writes one
//! byte into it *from the address under test*: the kernel copies that byte in
//! on the thread's behalf, and where the address is not mapped the write
//! fails instead of the thread faulting.
//!
//! The two system calls are the caller's to make. This module decides which
//! call comes next and what its outcome means.

use vstd::prelude::*;

verus! {

/// The descriptor value that marks an end of the pipe as missing.
pub const NO_DESCRIPTOR: i32 = -1;

/// How many bytes one draining read asks for.
pub const DRAIN_CAPACITY: usize = 8;

/// How many bytes the probing write offers.
pub const PROBE_LENGTH: usize = 1;

/// The two ends of a thread's probe pipe. A channel whose creation failed
/// holds [`NO_DESCRIPTOR`] in both ends and stays that way: every probe on it
/// answers "not accessible" without a system call.
#[derive(Clone, Copy, Debug, PartialEq, Eq, Structural)]
pub struct ProbeChannel {
    /// The descriptor to drain from.
    pub read_end: i32,
    /// The descriptor to write to.
    pub write_end: i32,
}

impl ProbeChannel {
    /// Whether both ends are there.
    pub open spec fn usable(&self) -> bool {
        self.read_end != NO_DESCRIPTOR && self.write_end != NO_DESCRIPTOR
    }

    /// The channel that the creation of a pipe leaves behind: the two
    /// descriptors where the call reported success (`status` 0), the unusable
    /// channel otherwise.
    pub fn open(status: i32, ends: [i32; 2]) -> (channel: ProbeChannel)
        ensures
            status == 0 ==> channel == (ProbeChannel { read_end: ends[0], write_end: ends[1] }),
            status != 0 ==> channel == (ProbeChannel {
                read_end: NO_DESCRIPTOR,
                write_end: NO_DESCRIPTOR,
            }),
    {
        if status == 0 {
            ProbeChannel { read_end: ends[0], write_end: ends[1] }
        } else {
            ProbeChannel { read_end: NO_DESCRIPTOR, write_end: NO_DESCRIPTOR }
        }
    }

    /// Whether both ends are there.
    pub fn is_usable(&self) -> (usable: bool)
        ensures
            usable == self.usable(),
    {
        self.read_end != NO_DESCRIPTOR && self.write_end != NO_DESCRIPTOR
    }
}

/// The class of error a failed system call left behind.
#[derive(Clone, Copy, Debug, PartialEq, Eq, Structural)]
pub enum Failure {
    /// The call was interrupted by a signal before it did anything.
    Interrupted,
    /// The call would have had to wait: nothing to read, or no room to write.
    WouldBlock,
    /// Anything else, a bad address among them.
    Other,
}

impl Failure {
    /// The class of the error number `errno`, on a platform where an
    /// interrupted call leaves `interrupted` behind and one that would have
    /// had to wait leaves `would_block`.
    pub open spec fn class_of(errno: i32, interrupted: i32, would_block: i32) -> Failure {
        if errno == interrupted {
            Failure::Interrupted
        } else if errno == would_block {
            Failure::WouldBlock
        } else {
            Failure::Other
        }
    }

    /// Classifies an error number, given the platform's numbers for the two
    /// classes that the probe tells apart.
    pub fn of(errno: i32, interrupted: i32, would_block: i32) -> (failure: Failure)
        ensures
            failure == Failure::class_of(errno, interrupted, would_block),
    {
        if errno == interrupted {
            Failure::Interrupted
        } else if errno == would_block {
            Failure::WouldBlock
        } else {
            Failure::Other
        }
    }
}

/// What a `read` or `write` returned.
#[derive(Clone, Copy, Debug, PartialEq, Eq, Structural)]
pub struct Returned {
    /// The call's return value: the number of bytes moved, or -1.
    pub size: isize,
    /// The class of the error, which counts only where `size` is -1.
    pub failure: Failure,
}

/// What the outcome of a system call means to the probe.
#[derive(Clone, Copy, Debug, PartialEq, Eq, Structural)]
pub enum Meaning {
    /// The call has to be made again.
    Retry,
    /// The call went through, or would have but for the pipe's buffer.
    Pass,
    /// The call was refused for good.
    Fail,
}

impl Returned {
    /// The meaning of an outcome. A failed call is retried where it was
    /// interrupted, passes where it would have blocked and fails otherwise. A
    /// call that moved at least one byte passes. Any other return value moved
    /// nothing and counts for nothing: the call is made again.
    pub open spec fn meaning(&self) -> Meaning {
        if self.size == -1 {
            match self.failure {
                Failure::Interrupted => Meaning::Retry,
                Failure::WouldBlock => Meaning::Pass,
                Failure::Other => Meaning::Fail,
            }
        } else if self.size > 0 {
            Meaning::Pass
        } else {
            Meaning::Retry
        }
    }

    /// Classifies the outcome of a system call.
    pub fn classify(&self) -> (meaning: Meaning)
        ensures
            meaning == self.meaning(),
    {
        if self.size == -1 {
            match self.failure {
                Failure::Interrupted => Meaning::Retry,
                Failure::WouldBlock => Meaning::Pass,
                Failure::Other => Meaning::Fail,
            }
        } else if self.size > 0 {
            Meaning::Pass
        } else {
            Meaning::Retry
        }
    }
}

/// What the caller of a probe has to do next.
#[derive(Clone, Copy, Debug, PartialEq, Eq, Structural)]
pub enum ProbeRequest {
    /// Read up to `capacity` bytes from `descriptor` into a scratch buffer.
    Read { descriptor: i32, capacity: usize },
    /// Write `length` bytes to `descriptor`, taking them from `address`.
    Write { descriptor: i32, address: u64, length: usize },
    /// Nothing more: the probe's answer is `accessible`.
    Answer { accessible: bool },
}

/// A probe of one address, between two system calls.
#[derive(Clone, Copy, Debug, PartialEq, Eq, Structural)]
pub enum Probe {
    /// The pipe is being read empty.
    Draining { channel: ProbeChannel, address: u64 },
    /// The byte at `address` is being written into the pipe.
    Writing { channel: ProbeChannel, address: u64 },
    /// The probe has its answer.
    Decided { accessible: bool },
}

impl Probe {
    /// The probe as it starts: decided against the address at once on an
    /// unusable channel, draining otherwise.
    pub open spec fn start(channel: ProbeChannel, address: u64) -> Probe {
        if channel.usable() {
            Probe::Draining { channel, address }
        } else {
            Probe::Decided { accessible: false }
        }
    }

    /// What the probe asks of its caller in this state.
    pub open spec fn pending(&self) -> ProbeRequest {
        match *self {
            Probe::Draining { channel, address } => ProbeRequest::Read {
                descriptor: channel.read_end,
                capacity: DRAIN_CAPACITY,
            },
            Probe::Writing { channel, address } => ProbeRequest::Write {
                descriptor: channel.write_end,
                address,
                length: PROBE_LENGTH,
            },
            Probe::Decided { accessible } => ProbeRequest::Answer { accessible },
        }
    }

    /// The state after the pending call returned `returned`.
    ///
    /// While draining, a pass moves on to the write and a failure decides
    /// against the address. While writing, a pass decides for the address and
    /// a failure against it. A retry changes nothing, and neither does
    /// anything reported to a probe that has decided.
    pub open spec fn after(&self, returned: Returned) -> Probe {
        match *self {
            Probe::Draining { channel, address } => match returned.meaning() {
                Meaning::Retry => *self,
                Meaning::Pass => Probe::Writing { channel, address },
                Meaning::Fail => Probe::Decided { accessible: false },
            },
            Probe::Writing { channel, address } => match returned.meaning() {
                Meaning::Retry => *self,
                Meaning::Pass => Probe::Decided { accessible: true },
                Meaning::Fail => Probe::Decided { accessible: false },
            },
            Probe::Decided { accessible } => *self,
        }
    }

    /// The state after the outcomes `returned`, reported in order.
    pub open spec fn after_all(&self, returned: Seq<Returned>) -> Probe
        decreases returned.len(),
    {
        if returned.len() == 0 {
            *self
        } else {
            self.after_all(returned.drop_last()).after(returned.last())
        }
    }

    /// The probe's answer, once it has one.
    pub open spec fn verdict(&self) -> Option<bool> {
        match *self {
            Probe::Decided { accessible } => Some(accessible),
            _ => None,
        }
    }

    /// What the probe asks of its caller in this state.
    pub fn request(&self) -> (request: ProbeRequest)
        ensures
            request == self.pending(),
    {
        match *self {
            Probe::Draining { channel, address } => ProbeRequest::Read {
                descriptor: channel.read_end,
                capacity: DRAIN_CAPACITY,
            },
            Probe::Writing { channel, address } => ProbeRequest::Write {
                descriptor: channel.write_end,
                address,
                length: PROBE_LENGTH,
            },
            Probe::Decided { accessible } => ProbeRequest::Answer { accessible },
        }
    }

    /// Takes in what the pending system call returned.
    pub fn step(self, returned: Returned) -> (next: Probe)
        ensures
            next == self.after(returned),
    {
        match self {
            Probe::Draining { channel, address } => match returned.classify() {
                Meaning::Retry => self,
                Meaning::Pass => Probe::Writing { channel, address },
                Meaning::Fail => Probe::Decided { accessible: false },
            },
            Probe::Writing { channel, address } => match returned.classify() {
                Meaning::Retry => self,
                Meaning::Pass => Probe::Decided { accessible: true },
                Meaning::Fail => Probe::Decided { accessible: false },
            },
            Probe::Decided { accessible } => self,
        }
    }

    /// The probe's answer, once it has one.
    pub fn answer(&self) -> (answer: Option<bool>)
        ensures
            answer == self.verdict(),
    {
        match *self {
            Probe::Decided { accessible } => Some(accessible),
            _ => None,
        }
    }
}

/// Starts the probe of `address` on `channel`.
///
/// On an unusable channel the probe is decided at once, against the address.
/// Otherwise it asks for the draining read; the caller makes each call the
/// probe requests and hands the outcome to [`Probe::step`] until the request
/// is an answer.
pub fn can_access(channel: ProbeChannel, address: u64) -> (probe: Probe)
    ensures
        probe == Probe::start(channel, address),
        !channel.usable() ==> probe.verdict() == Some(false),
        channel.usable() ==> probe.pending() == (ProbeRequest::Read {
            descriptor: channel.read_end,
            capacity: DRAIN_CAPACITY,
        }),
{
    if channel.is_usable() {
        Probe::Draining { channel, address }
    } else {
        Probe::Decided { accessible: false }
    }
}

/// The outcomes in `returned` that are not retries, in order.
pub open spec fn decisive(returned: Seq<Returned>) -> Seq<Returned> {
    returned.filter(|r: Returned| r.meaning() != Meaning::Retry)
}

/// A probe that has decided asks for no further call and stays decided,
/// whatever is reported to it.
pub proof fn law_decided_is_final(accessible: bool, returned: Seq<Returned>)
    ensures
        (Probe::Decided { accessible }).pending() == (ProbeRequest::Answer { accessible }),
        (Probe::Decided { accessible }).after_all(returned) == (Probe::Decided { accessible }),
    decreases returned.len(),
{
    if returned.len() > 0 {
        law_decided_is_final(accessible, returned.drop_last());
    }
}

/// Interrupted calls are retried transparently: a probe ends up where it
/// would have, had the calls that have to be made again never been made.
pub proof fn law_retries_are_transparent(probe: Probe, returned: Seq<Returned>)
    ensures
        probe.after_all(returned) == probe.after_all(decisive(returned)),
    decreases returned.len(),
{
    reveal(Seq::filter);
    if returned.len() > 0 {
        let older = returned.drop_last();
        law_retries_are_transparent(probe, older);
        if returned.last().meaning() == Meaning::Retry {
            assert(decisive(returned) == decisive(older));
            let before = probe.after_all(older);
            assert(before.after(returned.last()) == before);
        } else {
            assert(decisive(returned) == decisive(older).push(returned.last()));
            assert(decisive(returned).drop_last() == decisive(older));
        }
    }
}

/// Two system calls decide a probe, retries aside: on a usable channel the
/// address is accessible exactly when the draining read passes and the write
/// from the address passes after it. Where the read fails, the write is
/// never asked for.
pub proof fn law_two_calls_decide(
    channel: ProbeChannel,
    address: u64,
    drained: Returned,
    written: Returned,
)
    requires
        channel.usable(),
        drained.meaning() != Meaning::Retry,
        written.meaning() != Meaning::Retry,
    ensures
        Probe::start(channel, address).pending() == (ProbeRequest::Read {
            descriptor: channel.read_end,
            capacity: DRAIN_CAPACITY,
        }),
        drained.meaning() == Meaning::Fail ==> Probe::start(channel, address).after(
            drained,
        ).verdict() == Some(false),
        drained.meaning() == Meaning::Pass ==> Probe::start(channel, address).after(
            drained,
        ).pending() == (ProbeRequest::Write {
            descriptor: channel.write_end,
            address,
            length: PROBE_LENGTH,
        }),
        Probe::start(channel, address).after(drained).after(written).verdict() == Some(
            drained.meaning() == Meaning::Pass && written.meaning() == Meaning::Pass,
        ),
{
}

/// Whether each outcome in `returned` is one that the kernel can give to the
/// call that `probe` had pending at the time, where the probed address is
/// `readable` or not: a read on the thread's own pipe is never refused, a
/// write from a readable address is never refused either, and a write from
/// an address that is not readable never goes through. The last of these
/// rests on the pipe having room, which the draining read sees to.
pub open spec fn kernel_like(probe: Probe, returned: Seq<Returned>, readable: bool) -> bool
    decreases returned.len(),
{
    if returned.len() == 0 {
        true
    } else {
        &&& kernel_like(probe, returned.drop_last(), readable)
        &&& match probe.after_all(returned.drop_last()).pending() {
            ProbeRequest::Read { descriptor, capacity } => returned.last().meaning()
                != Meaning::Fail,
            ProbeRequest::Write { descriptor, address, length } => if readable {
                returned.last().meaning() != Meaning::Fail
            } else {
                returned.last().meaning() != Meaning::Pass
            },
            ProbeRequest::Answer { accessible } => true,
        }
    }
}

/// The probe says what the kernel knows: on a usable channel, whenever the
/// kernel has answered the probe's calls as it does for an address that is
/// readable, or is not, and the probe has come to a decision, the decision is
/// that the address is accessible, or is not.
pub proof fn law_verdict_follows_the_kernel(
    channel: ProbeChannel,
    address: u64,
    returned: Seq<Returned>,
    readable: bool,
)
    requires
        channel.usable(),
        kernel_like(Probe::start(channel, address), returned, readable),
    ensures
        Probe::start(channel, address).after_all(returned).verdict() is Some ==> Probe::start(
            channel,
            address,
        ).after_all(returned).verdict() == Some(readable),
        Probe::start(channel, address).after_all(returned) is Draining || Probe::start(
            channel,
            address,
        ).after_all(returned) is Writing || Probe::start(channel, address).after_all(returned)
            == (Probe::Decided { accessible: readable }),
    decreases returned.len(),
{
    if returned.len() > 0 {
        law_verdict_follows_the_kernel(channel, address, returned.drop_last(), readable);
    }
}

} // verus!
