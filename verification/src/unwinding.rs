//! What a walk produces when it is driven to its end.
//!
//! The walker only ever takes one step. This module models the caller that
//! takes the steps: it shows each address to a callback, carries out each
//! load on a memory, and feeds the walker what came of it. On that model it
//! proves what the addresses shown are, when the walk ends and why, and that
//! a guarded walk never reads what cannot be read.
//!
//! Everything here is specification and proof; none of it is compiled.

use crate::memory::{Load, LoadRequest};
use crate::registers::Registers;
use crate::walker::{call_site, Event, Request, Termination, Walk, RETURN_SLOT_OFFSET};
use vstd::prelude::*;

verus! {

/// What surrounds a walk.
pub struct World {
    /// The memory of the traced thread: the machine word at each address
    /// that can be read. An address outside the map cannot be read.
    pub words: Map<u64, u64>,
    /// Whether loads are guarded by the memory probe.
    pub guarded: bool,
    /// The callback: its answer, given all the addresses it has been shown so
    /// far, the latest last.
    pub callback: spec_fn(Seq<u64>) -> bool,
}

/// What comes of carrying out a load.
pub enum Fetched {
    /// The word was read.
    Word(u64),
    /// The probe refused the address, and nothing was read.
    Refused,
    /// An address that cannot be read was read: the process faulted.
    Fault,
}

impl World {
    /// Whether the word at `address` can be read.
    pub open spec fn readable(&self, address: u64) -> bool {
        self.words.dom().contains(address)
    }

    /// One answer to a load: the probe answers with the truth, and a read
    /// yields the word in memory. `None` stands for the fault that reading an
    /// unreadable address raises.
    pub open spec fn answer(&self, load: Load<u64>) -> Option<Load<u64>> {
        match load.pending() {
            LoadRequest::Probe { address } => Some(load.after_probe(self.readable(address))),
            LoadRequest::Read { address } => if self.readable(address) {
                Some(load.after_read(self.words[address]))
            } else {
                None
            },
            LoadRequest::Return => Some(load),
        }
    }

    /// What comes of loading the word at `address`: the load is started and
    /// answered until it returns, which takes two answers at most.
    pub open spec fn fetch(&self, address: u64) -> Fetched {
        match self.answer(Load::<u64>::start(address, self.guarded)) {
            None => Fetched::Fault,
            Some(answered) => match self.answer(answered) {
                None => Fetched::Fault,
                Some(settled) => match settled.yielded() {
                    Some(word) => Fetched::Word(word),
                    None => Fetched::Refused,
                },
            },
        }
    }
}

/// A walk as far as it was driven.
pub struct Run {
    /// The state the walk was left in.
    pub walk: Walk,
    /// Every request that was carried out, in order.
    pub log: Seq<Request>,
    /// Whether the last request carried out was a load that faulted.
    pub faulted: bool,
}

/// The addresses that a log of requests showed to the callback, in order.
pub open spec fn shown(log: Seq<Request>) -> Seq<u64>
    decreases log.len(),
{
    if log.len() == 0 {
        Seq::empty()
    } else {
        match log.last() {
            Request::Visit { pc } => shown(log.drop_last()).push(pc),
            _ => shown(log.drop_last()),
        }
    }
}

/// Drives `walk` for at most `steps` requests, after the requests in `log`
/// have been carried out already.
///
/// Each request of the walk is carried out in `world` and what came of it is
/// handed back to the walk: a visit is answered by the callback, a load by
/// the memory. The run ends when the walk asks to finish, when a load
/// faults, or when the steps are used up.
pub open spec fn drive(world: World, walk: Walk, log: Seq<Request>, steps: nat) -> Run
    decreases steps,
{
    if steps == 0 {
        Run { walk, log, faulted: false }
    } else {
        match walk.pending() {
            Request::Finish { reason } => Run { walk, log, faulted: false },
            Request::Visit { pc } => drive(
                world,
                walk.after(Event::Visited { proceed: (world.callback)(shown(log).push(pc)) }),
                log.push(Request::Visit { pc }),
                (steps - 1) as nat,
            ),
            Request::Load { address } => match world.fetch(address) {
                Fetched::Fault => Run {
                    walk,
                    log: log.push(Request::Load { address }),
                    faulted: true,
                },
                Fetched::Word(word) => drive(
                    world,
                    walk.after(Event::Loaded { word: Some(word) }),
                    log.push(Request::Load { address }),
                    (steps - 1) as nat,
                ),
                Fetched::Refused => drive(
                    world,
                    walk.after(Event::Loaded { word: None }),
                    log.push(Request::Load { address }),
                    (steps - 1) as nat,
                ),
            },
        }
    }
}

/// A frame record: the two words that a function's prologue leaves at the
/// address its frame pointer holds.
pub struct Frame {
    /// The address of the record, which is the value of the frame pointer.
    pub at: u64,
    /// The word at `at`: the caller's frame pointer.
    pub saved: u64,
    /// The word above it: the address at which the caller resumes.
    pub ret: u64,
}

/// Whether `frames` is the chain that memory holds from `fp` up to `end`:
/// the first record lies at `fp`, each record lies where the one before it
/// points, the last one points to `end`, and both words of every record can
/// be read. The empty chain leads from `fp` to `fp`.
pub open spec fn linked(words: Map<u64, u64>, fp: u64, frames: Seq<Frame>, end: u64) -> bool
    decreases frames.len(),
{
    if frames.len() == 0 {
        fp == end
    } else {
        let frame = frames.first();
        &&& frame.at == fp
        &&& fp != 0
        &&& fp + RETURN_SLOT_OFFSET <= u64::MAX
        &&& words.dom().contains(fp)
        &&& words[fp] == frame.saved
        &&& words.dom().contains((fp + RETURN_SLOT_OFFSET) as u64)
        &&& words[(fp + RETURN_SLOT_OFFSET) as u64] == frame.ret
        &&& linked(words, frame.saved, frames.drop_first(), end)
    }
}

/// The call sites of a chain, innermost first: each return address less one.
pub open spec fn sites(frames: Seq<Frame>) -> Seq<u64> {
    Seq::new(frames.len(), |i: int| call_site(frames[i].ret))
}

/// The requests a walk makes along a chain whose call sites the callback all
/// lets pass: for each frame the load of its return address, the visit of
/// its call site, and the load of its saved frame pointer.
pub open spec fn requests(frames: Seq<Frame>) -> Seq<Request>
    decreases frames.len(),
{
    if frames.len() == 0 {
        Seq::empty()
    } else {
        seq![
            Request::Load { address: (frames.first().at + RETURN_SLOT_OFFSET) as u64 },
            Request::Visit { pc: call_site(frames.first().ret) },
            Request::Load { address: frames.first().at },
        ] + requests(frames.drop_first())
    }
}

/// Whether the callback, having been shown `before`, lets each of `next`
/// pass when they are shown to it in order.
pub open spec fn approves(callback: spec_fn(Seq<u64>) -> bool, before: Seq<u64>, next: Seq<u64>)
    -> bool {
    forall|n: int| 0 < n <= next.len() ==> callback(before + #[trigger] next.take(n))
}

/// Whether the callback lets everything pass.
pub open spec fn always_proceeds(callback: spec_fn(Seq<u64>) -> bool) -> bool {
    forall|seen: Seq<u64>| #[trigger] callback(seen)
}

proof fn lemma_shown_push(log: Seq<Request>, request: Request)
    ensures
        shown(log.push(request)) == match request {
            Request::Visit { pc } => shown(log).push(pc),
            _ => shown(log),
        },
{
    assert(log.push(request).drop_last() =~= log);
}

proof fn lemma_finished(world: World, reason: Termination, log: Seq<Request>, steps: nat)
    ensures
        drive(world, Walk::Finished { reason }, log, steps) == (Run {
            walk: Walk::Finished { reason },
            log,
            faulted: false,
        }),
{
}

proof fn lemma_visit_step(world: World, walk: Walk, log: Seq<Request>, steps: nat)
    requires
        steps > 0,
        walk.pending() is Visit,
    ensures
        drive(world, walk, log, steps) == drive(
            world,
            walk.after(
                Event::Visited {
                    proceed: (world.callback)(shown(log).push(walk.pending()->pc)),
                },
            ),
            log.push(walk.pending()),
            (steps - 1) as nat,
        ),
        shown(log.push(walk.pending())) == shown(log).push(walk.pending()->pc),
{
    lemma_shown_push(log, walk.pending());
}

proof fn lemma_load_step(world: World, walk: Walk, log: Seq<Request>, steps: nat)
    requires
        steps > 0,
        walk.pending() is Load,
        world.readable(walk.pending()->address),
    ensures
        drive(world, walk, log, steps) == drive(
            world,
            walk.after(Event::Loaded { word: Some(world.words[walk.pending()->address]) }),
            log.push(walk.pending()),
            (steps - 1) as nat,
        ),
        shown(log.push(walk.pending())) == shown(log),
{
    law_fetch(world, walk.pending()->address);
    lemma_shown_push(log, walk.pending());
}

proof fn lemma_refused_step(world: World, walk: Walk, log: Seq<Request>, steps: nat)
    requires
        steps > 0,
        walk.pending() is Load,
        world.guarded,
        !world.readable(walk.pending()->address),
    ensures
        drive(world, walk, log, steps) == (Run {
            walk: Walk::Finished { reason: Termination::Unreadable },
            log: log.push(walk.pending()),
            faulted: false,
        }),
        shown(log.push(walk.pending())) == shown(log),
{
    law_fetch(world, walk.pending()->address);
    lemma_shown_push(log, walk.pending());
    lemma_finished(
        world,
        Termination::Unreadable,
        log.push(walk.pending()),
        (steps - 1) as nat,
    );
}

/// The walk along a readable chain whose call sites the callback lets pass:
/// three requests a frame, after which the walk turns to the frame the chain
/// ends in.
proof fn lemma_along_chain(
    world: World,
    fp: u64,
    frames: Seq<Frame>,
    end: u64,
    log: Seq<Request>,
    steps: nat,
)
    requires
        linked(world.words, fp, frames, end),
        approves(world.callback, shown(log), sites(frames)),
        steps >= 3 * frames.len(),
    ensures
        drive(world, Walk::enter(fp), log, steps) == drive(
            world,
            Walk::enter(end),
            log + requests(frames),
            (steps - 3 * frames.len()) as nat,
        ),
        shown(log + requests(frames)) == shown(log) + sites(frames),
    decreases frames.len(),
{
    if frames.len() == 0 {
        assert(log + requests(frames) =~= log);
        assert(shown(log) + sites(frames) =~= shown(log));
    } else {
        let frame = frames.first();
        let rest = frames.drop_first();
        let slot = (fp + RETURN_SLOT_OFFSET) as u64;
        let site = call_site(frame.ret);

        let loading = Walk::enter(fp);
        assert(loading == Walk::LoadingReturn { fp, slot });
        lemma_load_step(world, loading, log, steps);
        let log1 = log.push(Request::Load { address: slot });

        let visiting = Walk::AtCall { pc: site, fp };
        assert(loading.after(Event::Loaded { word: Some(frame.ret) }) == visiting);
        assert(sites(frames).take(1) =~= seq![site]);
        assert(shown(log) + sites(frames).take(1) =~= shown(log1).push(site));
        lemma_visit_step(world, visiting, log1, (steps - 1) as nat);
        let log2 = log1.push(Request::Visit { pc: site });

        let following = Walk::LoadingFrame { fp };
        assert(visiting.after(Event::Visited { proceed: true }) == following);
        lemma_load_step(world, following, log2, (steps - 2) as nat);
        let log3 = log2.push(Request::Load { address: fp });
        assert(following.after(Event::Loaded { word: Some(frame.saved) }) == Walk::enter(
            frame.saved,
        ));

        assert(shown(log3) == shown(log).push(site));
        assert forall|n: int| 0 < n <= sites(rest).len() implies (world.callback)(
            shown(log3) + #[trigger] sites(rest).take(n),
        ) by {
            assert(shown(log3) + sites(rest).take(n) =~= shown(log) + sites(frames).take(n + 1));
        }
        lemma_along_chain(world, frame.saved, rest, end, log3, (steps - 3) as nat);
        assert(log3 + requests(rest) =~= log + requests(frames));
        assert(shown(log3) + sites(rest) =~= shown(log) + sites(frames));
    }
}

/// A load yields the word in memory where the address can be read. Where it
/// cannot, a guarded load is refused and an unguarded one faults.
pub proof fn law_fetch(world: World, address: u64)
    ensures
        world.readable(address) ==> world.fetch(address) == Fetched::Word(world.words[address]),
        !world.readable(address) && world.guarded ==> world.fetch(address) == Fetched::Refused,
        !world.readable(address) && !world.guarded ==> world.fetch(address) == Fetched::Fault,
{
}

/// With the probe in place no run faults, whatever the memory holds and
/// however far the walk is driven.
pub proof fn law_guarded_run_never_faults(world: World, walk: Walk, log: Seq<Request>, steps: nat)
    requires
        world.guarded,
    ensures
        !drive(world, walk, log, steps).faulted,
    decreases steps,
{
    if steps > 0 {
        match walk.pending() {
            Request::Finish { reason } => {},
            Request::Visit { pc } => {
                law_guarded_run_never_faults(
                    world,
                    walk.after(
                        Event::Visited { proceed: (world.callback)(shown(log).push(pc)) },
                    ),
                    log.push(Request::Visit { pc }),
                    (steps - 1) as nat,
                );
            },
            Request::Load { address } => {
                law_fetch(world, address);
                match world.fetch(address) {
                    Fetched::Fault => {},
                    Fetched::Word(word) => {
                        law_guarded_run_never_faults(
                            world,
                            walk.after(Event::Loaded { word: Some(word) }),
                            log.push(Request::Load { address }),
                            (steps - 1) as nat,
                        );
                    },
                    Fetched::Refused => {
                        law_guarded_run_never_faults(
                            world,
                            walk.after(Event::Loaded { word: None }),
                            log.push(Request::Load { address }),
                            (steps - 1) as nat,
                        );
                    },
                }
            },
        }
    }
}

/// A walk that has ended asks for nothing more and stays as it is: driving
/// it carries out no request.
pub proof fn law_ended_walk_is_left_alone(
    world: World,
    reason: Termination,
    log: Seq<Request>,
    steps: nat,
    event: Event,
)
    ensures
        (Walk::Finished { reason }).pending() == (Request::Finish { reason }),
        (Walk::Finished { reason }).after(event) == (Walk::Finished { reason }),
        drive(world, Walk::Finished { reason }, log, steps) == (Run {
            walk: Walk::Finished { reason },
            log,
            faulted: false,
        }),
{
}

/// A walk that found no registers to start from shows nothing and loads
/// nothing.
pub proof fn law_no_registers_no_trace(world: World, steps: nat)
    ensures
        drive(world, Walk::begin_from(None), Seq::empty(), steps).log == Seq::<Request>::empty(),
        drive(world, Walk::begin_from(None), Seq::empty(), steps).walk.ended() == Some(
            Termination::NoRegisters,
        ),
{
}

/// A chain that ends in a null frame pointer is walked to its end.
///
/// Where memory holds a chain of `n` frames from the starting frame pointer
/// to null and the callback lets everything pass, the walk shows `n + 1`
/// addresses: the starting program counter, then the call site of each frame
/// from the innermost outwards, each one less than the return address stored
/// in the frame. It ends as exhausted once it has loaded the null frame
/// pointer, having made `3 n + 1` requests; nothing is shown for the null
/// frame pointer and nothing is loaded after it. Guarded or not, the run
/// does not fault.
pub proof fn law_whole_chain_is_shown(
    world: World,
    start: Registers,
    frames: Seq<Frame>,
    steps: nat,
)
    requires
        linked(world.words, start.fp, frames, 0),
        always_proceeds(world.callback),
        steps > 3 * frames.len(),
    ensures
        drive(world, Walk::begin(start), Seq::empty(), steps) == (Run {
            walk: Walk::Finished { reason: Termination::Exhausted },
            log: seq![Request::Visit { pc: start.pc }] + requests(frames),
            faulted: false,
        }),
        shown(seq![Request::Visit { pc: start.pc }] + requests(frames)) == seq![start.pc] + sites(
            frames,
        ),
        (seq![start.pc] + sites(frames)).len() == frames.len() + 1,
        forall|i: int|
            0 <= i < frames.len() ==> #[trigger] sites(frames)[i] == call_site(frames[i].ret),
{
    let empty = Seq::<Request>::empty();
    let first = seq![Request::Visit { pc: start.pc }];
    lemma_visit_step(world, Walk::begin(start), empty, steps);
    assert(empty.push(Request::Visit { pc: start.pc }) =~= first);
    assert(shown(empty) =~= Seq::<u64>::empty());
    assert(shown(first) =~= seq![start.pc]);
    assert(Walk::begin(start).after(Event::Visited { proceed: true }) == Walk::enter(start.fp));
    lemma_along_chain(world, start.fp, frames, 0, first, (steps - 1) as nat);
    lemma_finished(
        world,
        Termination::Exhausted,
        first + requests(frames),
        (steps - 1 - 3 * frames.len()) as nat,
    );
}

proof fn lemma_chain_bounds(
    world: World,
    fp: u64,
    frames: Seq<Frame>,
    log: Seq<Request>,
    steps: nat,
)
    requires
        linked(world.words, fp, frames, 0),
    ensures
        ({
            let run = drive(world, Walk::enter(fp), log, steps);
            &&& shown(run.log).is_prefix_of(shown(log) + sites(frames))
            &&& run.log.len() <= log.len() + 3 * frames.len()
            &&& !run.faulted
            &&& run.walk.ended() != Some(Termination::Unreadable)
            &&& run.walk.ended() != Some(Termination::NoRegisters)
            &&& steps >= 3 * frames.len() ==> run.walk.ended() is Some
            &&& run.walk.ended() == Some(Termination::Exhausted) ==> shown(run.log) == shown(log)
                + sites(frames)
        }),
    decreases frames.len(),
{
    let whole = shown(log) + sites(frames);
    if frames.len() == 0 {
        lemma_finished(world, Termination::Exhausted, log, steps);
        assert(whole =~= shown(log));
    } else {
        let frame = frames.first();
        let rest = frames.drop_first();
        let slot = (fp + RETURN_SLOT_OFFSET) as u64;
        let site = call_site(frame.ret);
        let loading = Walk::enter(fp);
        assert(loading == Walk::LoadingReturn { fp, slot });
        assert(whole.subrange(0, shown(log).len() as int) =~= shown(log));
        assert(sites(frames)[0] == site);
        assert(whole.subrange(0, shown(log).len() as int + 1) =~= shown(log).push(site));
        if steps >= 1 {
            lemma_load_step(world, loading, log, steps);
            let log1 = log.push(Request::Load { address: slot });
            let visiting = Walk::AtCall { pc: site, fp };
            assert(loading.after(Event::Loaded { word: Some(frame.ret) }) == visiting);
            if steps >= 2 {
                lemma_visit_step(world, visiting, log1, (steps - 1) as nat);
                let log2 = log1.push(Request::Visit { pc: site });
                if (world.callback)(shown(log1).push(site)) {
                    let following = Walk::LoadingFrame { fp };
                    assert(visiting.after(Event::Visited { proceed: true }) == following);
                    if steps >= 3 {
                        lemma_load_step(world, following, log2, (steps - 2) as nat);
                        let log3 = log2.push(Request::Load { address: fp });
                        assert(following.after(Event::Loaded { word: Some(frame.saved) })
                            == Walk::enter(frame.saved));
                        lemma_chain_bounds(world, frame.saved, rest, log3, (steps - 3) as nat);
                        assert(shown(log3) + sites(rest) =~= whole);
                    }
                } else {
                    lemma_finished(world, Termination::Stopped, log2, (steps - 2) as nat);
                }
            }
        }
    }
}

/// A chain that ends in a null frame pointer bounds the walk, whatever the
/// callback answers.
///
/// Where memory holds a chain of `n` frames from the starting frame pointer
/// to null, every run of the walk shows a prefix of the whole trace, the
/// starting program counter followed by the call sites of the chain in
/// order: no address is skipped, repeated or made up, and none is shown for
/// the null frame pointer. The run makes `3 n + 1` requests at most and has
/// ended once it was given that many steps, as exhausted or as stopped. It
/// never finds memory unreadable and never faults, guarded or not. Where it
/// ends as exhausted, it has shown the whole trace.
pub proof fn law_chain_bounds_the_walk(
    world: World,
    start: Registers,
    frames: Seq<Frame>,
    steps: nat,
)
    requires
        linked(world.words, start.fp, frames, 0),
    ensures
        ({
            let run = drive(world, Walk::begin(start), Seq::empty(), steps);
            let whole = seq![start.pc] + sites(frames);
            &&& shown(run.log).is_prefix_of(whole)
            &&& run.log.len() <= 3 * frames.len() + 1
            &&& !run.faulted
            &&& run.walk.ended() != Some(Termination::Unreadable)
            &&& run.walk.ended() != Some(Termination::NoRegisters)
            &&& steps > 3 * frames.len() ==> (run.walk.ended() == Some(Termination::Exhausted)
                || run.walk.ended() == Some(Termination::Stopped))
            &&& run.walk.ended() == Some(Termination::Exhausted) ==> shown(run.log) == whole
        }),
{
    let empty = Seq::<Request>::empty();
    let first = seq![Request::Visit { pc: start.pc }];
    let whole = seq![start.pc] + sites(frames);
    assert(shown(empty) =~= Seq::<u64>::empty());
    assert(shown(empty).is_prefix_of(whole));
    if steps >= 1 {
        lemma_visit_step(world, Walk::begin(start), empty, steps);
        assert(empty.push(Request::Visit { pc: start.pc }) =~= first);
        assert(shown(first) =~= seq![start.pc]);
        if (world.callback)(shown(empty).push(start.pc)) {
            assert(Walk::begin(start).after(Event::Visited { proceed: true }) == Walk::enter(
                start.fp,
            ));
            lemma_chain_bounds(world, start.fp, frames, first, (steps - 1) as nat);
        } else {
            lemma_finished(world, Termination::Stopped, first, (steps - 1) as nat);
            assert(whole.subrange(0, 1) =~= seq![start.pc]);
        }
    }
}

/// A frame that cannot be read ends the walk, and what was found before it
/// is kept.
///
/// Memory holds a chain of frames from the starting frame pointer up to
/// `bad`, a frame pointer that is not null and whose record cannot be read
/// in full. With the probe in place and a callback that lets everything
/// pass, the walk shows the starting program counter and the call site of
/// every frame before `bad`. Where the return address at `bad` can still be
/// read, its call site is shown too, and the walk ends at the saved frame
/// pointer; otherwise it ends at the return address. Either way it ends as
/// unreadable, shows nothing further, and does not fault.
pub proof fn law_unreadable_frame_ends_the_walk(
    world: World,
    start: Registers,
    frames: Seq<Frame>,
    bad: u64,
    steps: nat,
)
    requires
        world.guarded,
        linked(world.words, start.fp, frames, bad),
        always_proceeds(world.callback),
        bad != 0,
        !(bad + RETURN_SLOT_OFFSET <= u64::MAX && world.readable(
            (bad + RETURN_SLOT_OFFSET) as u64,
        ) && world.readable(bad)),
        steps > 3 * frames.len() + 3,
    ensures
        drive(world, Walk::begin(start), Seq::empty(), steps).walk == (Walk::Finished {
            reason: Termination::Unreadable,
        }),
        !drive(world, Walk::begin(start), Seq::empty(), steps).faulted,
        shown(drive(world, Walk::begin(start), Seq::empty(), steps).log) == seq![start.pc] + sites(
            frames,
        ) + (if bad + RETURN_SLOT_OFFSET <= u64::MAX && world.readable(
            (bad + RETURN_SLOT_OFFSET) as u64,
        ) {
            seq![call_site(world.words[(bad + RETURN_SLOT_OFFSET) as u64])]
        } else {
            Seq::empty()
        }),
{
    let empty = Seq::<Request>::empty();
    let first = seq![Request::Visit { pc: start.pc }];
    lemma_visit_step(world, Walk::begin(start), empty, steps);
    assert(empty.push(Request::Visit { pc: start.pc }) =~= first);
    assert(shown(empty) =~= Seq::<u64>::empty());
    assert(shown(first) =~= seq![start.pc]);
    assert(Walk::begin(start).after(Event::Visited { proceed: true }) == Walk::enter(start.fp));
    lemma_along_chain(world, start.fp, frames, bad, first, (steps - 1) as nat);
    let log = first + requests(frames);
    let left = (steps - 1 - 3 * frames.len()) as nat;
    let found = seq![start.pc] + sites(frames);
    assert(shown(log) == found);
    if bad + RETURN_SLOT_OFFSET > u64::MAX {
        lemma_finished(world, Termination::Unreadable, log, left);
        assert(found + Seq::<u64>::empty() =~= found);
    } else {
        let slot = (bad + RETURN_SLOT_OFFSET) as u64;
        let loading = Walk::LoadingReturn { fp: bad, slot };
        assert(Walk::enter(bad) == loading);
        if world.readable(slot) {
            let site = call_site(world.words[slot]);
            lemma_load_step(world, loading, log, left);
            let log1 = log.push(Request::Load { address: slot });
            let visiting = Walk::AtCall { pc: site, fp: bad };
            assert(loading.after(Event::Loaded { word: Some(world.words[slot]) }) == visiting);
            lemma_visit_step(world, visiting, log1, (left - 1) as nat);
            let log2 = log1.push(Request::Visit { pc: site });
            let following = Walk::LoadingFrame { fp: bad };
            assert(visiting.after(Event::Visited { proceed: true }) == following);
            lemma_refused_step(world, following, log2, (left - 2) as nat);
            assert(found.push(site) =~= found + seq![site]);
        } else {
            lemma_refused_step(world, loading, log, left);
            assert(found + Seq::<u64>::empty() =~= found);
        }
    }
}

/// Whether the callback let pass every address that `log` showed it.
pub open spec fn all_passed(callback: spec_fn(Seq<u64>) -> bool, log: Seq<Request>) -> bool {
    forall|i: int|
        0 <= i < log.len() && #[trigger] log[i] is Visit ==> callback(shown(log.take(i + 1)))
}

proof fn lemma_declined_visit_is_last(world: World, walk: Walk, log: Seq<Request>, steps: nat)
    requires
        all_passed(world.callback, log),
    ensures
        ({
            let run = drive(world, walk, log, steps);
            ||| all_passed(world.callback, run.log)
            ||| {
                &&& run.log.len() > 0
                &&& run.log.last() is Visit
                &&& !(world.callback)(shown(run.log))
                &&& all_passed(world.callback, run.log.drop_last())
                &&& run.walk == Walk::Finished { reason: Termination::Stopped }
                &&& !run.faulted
            }
        }),
    decreases steps,
{
    if steps > 0 {
        match walk.pending() {
            Request::Finish { reason } => {},
            Request::Visit { pc } => {
                let request = Request::Visit { pc };
                let longer = log.push(request);
                let proceed = (world.callback)(shown(log).push(pc));
                lemma_shown_push(log, request);
                assert(longer.drop_last() =~= log);
                assert(longer.take(longer.len() as int) =~= longer);
                if proceed {
                    assert forall|i: int| 0 <= i < longer.len() && #[trigger] longer[i] is Visit
                        implies (world.callback)(shown(longer.take(i + 1))) by {
                        if i < log.len() {
                            assert(longer.take(i + 1) =~= log.take(i + 1));
                            assert(log[i] is Visit);
                        }
                    }
                    lemma_declined_visit_is_last(
                        world,
                        walk.after(Event::Visited { proceed }),
                        longer,
                        (steps - 1) as nat,
                    );
                } else {
                    lemma_finished(world, Termination::Stopped, longer, (steps - 1) as nat);
                }
            },
            Request::Load { address } => {
                let request = Request::Load { address };
                let longer = log.push(request);
                assert forall|i: int| 0 <= i < longer.len() && #[trigger] longer[i] is Visit
                    implies (world.callback)(shown(longer.take(i + 1))) by {
                    assert(i < log.len());
                    assert(longer.take(i + 1) =~= log.take(i + 1));
                    assert(log[i] is Visit);
                }
                match world.fetch(address) {
                    Fetched::Fault => {},
                    Fetched::Word(word) => {
                        lemma_declined_visit_is_last(
                            world,
                            walk.after(Event::Loaded { word: Some(word) }),
                            longer,
                            (steps - 1) as nat,
                        );
                    },
                    Fetched::Refused => {
                        lemma_declined_visit_is_last(
                            world,
                            walk.after(Event::Loaded { word: None }),
                            longer,
                            (steps - 1) as nat,
                        );
                    },
                }
            },
        }
    }
}

/// Nothing follows a visit that the callback declined.
///
/// Take any run of a walk from its start, and in it a visit at which the
/// callback, having been shown `k` addresses by then, declined. That visit is
/// the last request of the run: the walk has ended as stopped, exactly `k`
/// addresses were shown in all, and no load was made after it.
pub proof fn law_declined_visit_ends_the_run(world: World, walk: Walk, steps: nat, i: int)
    requires
        0 <= i < drive(world, walk, Seq::empty(), steps).log.len(),
        drive(world, walk, Seq::empty(), steps).log[i] is Visit,
        !(world.callback)(shown(drive(world, walk, Seq::empty(), steps).log.take(i + 1))),
    ensures
        i == drive(world, walk, Seq::empty(), steps).log.len() - 1,
        drive(world, walk, Seq::empty(), steps).walk == (Walk::Finished {
            reason: Termination::Stopped,
        }),
        shown(drive(world, walk, Seq::empty(), steps).log) == shown(
            drive(world, walk, Seq::empty(), steps).log.take(i + 1),
        ),
        !drive(world, walk, Seq::empty(), steps).faulted,
{
    let run = drive(world, walk, Seq::empty(), steps);
    lemma_declined_visit_is_last(world, walk, Seq::empty(), steps);
    if all_passed(world.callback, run.log) {
        assert(run.log[i] is Visit);
        assert(false);
    }
    let earlier = run.log.drop_last();
    if i < run.log.len() - 1 {
        assert(earlier[i] is Visit);
        assert(earlier.take(i + 1) =~= run.log.take(i + 1));
        assert(false);
    }
    assert(run.log.take(i + 1) =~= run.log);
}

} // verus!
