use tracefp::probe::{
    can_access, Failure, Meaning, Probe, ProbeChannel, ProbeRequest, Returned, DRAIN_CAPACITY,
    NO_DESCRIPTOR, PROBE_LENGTH,
};

const CHANNEL: ProbeChannel = ProbeChannel { read_end: 5, write_end: 6 };

fn failed(failure: Failure) -> Returned {
    Returned { size: -1, failure }
}

fn moved(size: isize) -> Returned {
    // The error class is stale after a call that did not fail.
    Returned { size, failure: Failure::Other }
}

/// A pipe and an address space, as far as the probe can tell: the pipe holds
/// `buffered` bytes, and the addresses in `readable` can be read.
struct Kernel {
    buffered: isize,
    readable: Vec<u64>,
    calls: usize,
}

impl Kernel {
    fn read(&mut self, descriptor: i32, capacity: usize) -> Returned {
        self.calls += 1;
        assert_eq!(descriptor, CHANNEL.read_end);
        if self.buffered == 0 {
            return failed(Failure::WouldBlock);
        }
        let taken = self.buffered.min(capacity as isize);
        self.buffered -= taken;
        moved(taken)
    }

    fn write(&mut self, descriptor: i32, address: u64, length: usize) -> Returned {
        self.calls += 1;
        assert_eq!(descriptor, CHANNEL.write_end);
        if !self.readable.contains(&address) {
            return failed(Failure::Other);
        }
        self.buffered += length as isize;
        moved(length as isize)
    }
}

/// Runs a probe of `address` against `kernel` until it answers.
fn probe(kernel: &mut Kernel, channel: ProbeChannel, address: u64) -> bool {
    let mut probe = can_access(channel, address);
    loop {
        let returned = match probe.request() {
            ProbeRequest::Read { descriptor, capacity } => kernel.read(descriptor, capacity),
            ProbeRequest::Write { descriptor, address, length } => {
                kernel.write(descriptor, address, length)
            }
            ProbeRequest::Answer { accessible } => return accessible,
        };
        probe = probe.step(returned);
    }
}

fn address_of<T>(cell: &T) -> u64 {
    std::ptr::from_ref(cell).addr() as u64
}

#[test]
fn test_can_access() {
    let v1 = 1;
    let v2 = Box::new(1);
    let mut kernel = Kernel {
        buffered: 0,
        readable: vec![address_of(&v1), address_of(v2.as_ref())],
        calls: 0,
    };
    assert!(probe(&mut kernel, CHANNEL, address_of(&v1)));
    assert!(probe(&mut kernel, CHANNEL, address_of(v2.as_ref())));
    assert!(!probe(&mut kernel, CHANNEL, 0));
    assert!(!probe(&mut kernel, CHANNEL, u64::MAX));
    // Two system calls a probe.
    assert_eq!(kernel.calls, 8);
}

#[test]
fn probe_drains_then_writes_from_the_address() {
    let started = can_access(CHANNEL, 0x7ffd_1000);
    assert_eq!(started, Probe::Draining { channel: CHANNEL, address: 0x7ffd_1000 });
    assert_eq!(
        started.request(),
        ProbeRequest::Read { descriptor: 5, capacity: DRAIN_CAPACITY }
    );
    assert_eq!(DRAIN_CAPACITY, 8);
    let writing = started.step(failed(Failure::WouldBlock));
    assert_eq!(
        writing.request(),
        ProbeRequest::Write { descriptor: 6, address: 0x7ffd_1000, length: PROBE_LENGTH }
    );
    assert_eq!(PROBE_LENGTH, 1);
    let decided = writing.step(moved(1));
    assert_eq!(decided.request(), ProbeRequest::Answer { accessible: true });
    assert_eq!(decided.answer(), Some(true));
}

#[test]
fn stale_byte_in_the_pipe_is_drained() {
    let writing = can_access(CHANNEL, 0x1000).step(moved(1));
    assert_eq!(writing, Probe::Writing { channel: CHANNEL, address: 0x1000 });
}

#[test]
fn write_that_would_block_counts_as_accessible() {
    let decided = can_access(CHANNEL, 0x1000)
        .step(failed(Failure::WouldBlock))
        .step(failed(Failure::WouldBlock));
    assert_eq!(decided.answer(), Some(true));
}

#[test]
fn write_that_faults_counts_as_inaccessible() {
    let decided = can_access(CHANNEL, 0x1000)
        .step(failed(Failure::WouldBlock))
        .step(failed(Failure::Other));
    assert_eq!(decided.answer(), Some(false));
}

#[test]
fn drain_that_fails_decides_without_a_write() {
    let decided = can_access(CHANNEL, 0x1000).step(failed(Failure::Other));
    assert_eq!(decided, Probe::Decided { accessible: false });
    assert_eq!(decided.request(), ProbeRequest::Answer { accessible: false });
}

#[test]
fn interrupted_calls_are_made_again() {
    let started = can_access(CHANNEL, 0x1000);
    let still_draining = started.step(failed(Failure::Interrupted));
    assert_eq!(still_draining, started);
    let writing = still_draining.step(failed(Failure::WouldBlock));
    let still_writing = writing
        .step(failed(Failure::Interrupted))
        .step(failed(Failure::Interrupted));
    assert_eq!(still_writing, writing);
    assert_eq!(still_writing.answer(), None);
    assert_eq!(still_writing.step(moved(1)).answer(), Some(true));
}

#[test]
fn call_that_moved_nothing_is_made_again() {
    let started = can_access(CHANNEL, 0x1000);
    assert_eq!(started.step(moved(0)), started);
    assert_eq!(started.step(moved(-2)), started);
    let writing = started.step(moved(3));
    assert_eq!(writing.step(moved(0)), writing);
}

#[test]
fn decided_probe_stays_decided() {
    let decided = can_access(CHANNEL, 0x1000)
        .step(failed(Failure::WouldBlock))
        .step(moved(1));
    assert_eq!(decided.step(failed(Failure::Other)), decided);
    assert_eq!(decided.step(moved(1)), decided);
    assert_eq!(decided.step(failed(Failure::Interrupted)).answer(), Some(true));
}

#[test]
fn unusable_channel_answers_without_a_call() {
    let none = ProbeChannel { read_end: NO_DESCRIPTOR, write_end: NO_DESCRIPTOR };
    assert!(!none.is_usable());
    assert_eq!(can_access(none, 0x1000), Probe::Decided { accessible: false });
    let half = ProbeChannel { read_end: 3, write_end: -1 };
    assert!(!half.is_usable());
    assert_eq!(can_access(half, 0x1000).answer(), Some(false));
    let other_half = ProbeChannel { read_end: -1, write_end: 4 };
    assert_eq!(can_access(other_half, 0x1000).answer(), Some(false));

    let mut kernel = Kernel { buffered: 0, readable: vec![0x1000], calls: 0 };
    assert!(!probe(&mut kernel, none, 0x1000));
    assert_eq!(kernel.calls, 0);
}

#[test]
fn channel_follows_the_creation_of_the_pipe() {
    assert_eq!(ProbeChannel::open(0, [7, 8]), ProbeChannel { read_end: 7, write_end: 8 });
    assert!(ProbeChannel::open(0, [7, 8]).is_usable());
    assert_eq!(
        ProbeChannel::open(-1, [7, 8]),
        ProbeChannel { read_end: -1, write_end: -1 }
    );
    assert!(!ProbeChannel::open(-1, [7, 8]).is_usable());
    assert!(!ProbeChannel::open(1, [0, 0]).is_usable());
    assert_eq!(NO_DESCRIPTOR, -1);
}

#[test]
fn outcomes_are_classified() {
    assert_eq!(failed(Failure::Interrupted).classify(), Meaning::Retry);
    assert_eq!(failed(Failure::WouldBlock).classify(), Meaning::Pass);
    assert_eq!(failed(Failure::Other).classify(), Meaning::Fail);
    assert_eq!(moved(1).classify(), Meaning::Pass);
    assert_eq!(moved(8).classify(), Meaning::Pass);
    assert_eq!(moved(0).classify(), Meaning::Retry);
    assert_eq!(moved(isize::MIN).classify(), Meaning::Retry);
    // The error class does not count after a call that moved something.
    assert_eq!(Returned { size: 1, failure: Failure::Interrupted }.classify(), Meaning::Pass);
}

#[test]
fn error_numbers_are_classified() {
    assert_eq!(Failure::of(libc::EINTR, libc::EINTR, libc::EAGAIN), Failure::Interrupted);
    assert_eq!(Failure::of(libc::EAGAIN, libc::EINTR, libc::EAGAIN), Failure::WouldBlock);
    assert_eq!(Failure::of(libc::EFAULT, libc::EINTR, libc::EAGAIN), Failure::Other);
    assert_eq!(Failure::of(libc::EBADF, libc::EINTR, libc::EAGAIN), Failure::Other);
    assert_eq!(Failure::of(0, libc::EINTR, libc::EAGAIN), Failure::Other);
    assert_eq!(Failure::of(4, 4, 11), Failure::Interrupted);
    assert_eq!(Failure::of(11, 4, 11), Failure::WouldBlock);
}

#[test]
fn retries_do_not_change_the_answer() {
    let with_retries = [
        failed(Failure::Interrupted),
        moved(0),
        failed(Failure::WouldBlock),
        failed(Failure::Interrupted),
        failed(Failure::Other),
    ];
    let without = [failed(Failure::WouldBlock), failed(Failure::Other)];
    let run = |outcomes: &[Returned]| {
        outcomes.iter().fold(can_access(CHANNEL, 0x1000), |probe, returned| probe.step(*returned))
    };
    assert_eq!(run(&with_retries), run(&without));
    assert_eq!(run(&with_retries).answer(), Some(false));
}
