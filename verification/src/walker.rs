//! The frame walker, one step at a time.
//!
//! A walk starts from a program counter and a frame pointer. It shows the
//! program counter to the caller's callback, and then, frame by frame, loads
//! the return address stored one word above the frame pointer, shows the
//! address of the call it returns to, and loads the saved frame pointer to
//! move outwards. It ends when the callback declines, when a load is
//! refused, or when the frame pointer is null.
//!
//! The callback and the loads are the caller's to carry out. A [`Walk`] says
//! what it asks for next ([`Walk::request`]) and takes in what came of it
//! ([`Walk::step`]); the caller repeats the two until the request is to
//! finish. The chain is followed as it is found: one that never reaches a
//! null frame pointer is followed for as long as the callback and the loads
//! allow.

use crate::registers::{ExecutionContext, Registers};
use vstd::prelude::*;

verus! {

/// The distance in bytes from a frame pointer to the return address stored
/// above it.
pub const RETURN_SLOT_OFFSET: u64 = 8;

/// Why a walk ended.
#[derive(Clone, Copy, Debug, PartialEq, Eq, Structural)]
pub enum Termination {
    /// There were no registers to start from: nothing was shown.
    NoRegisters,
    /// The callback declined to go on.
    Stopped,
    /// A load was refused, or a frame record would not fit below the end of
    /// the address space.
    Unreadable,
    /// The frame pointer became null: the chain is exhausted.
    Exhausted,
}

/// What the caller of a walk has to do next.
#[derive(Clone, Copy, Debug, PartialEq, Eq, Structural)]
pub enum Request {
    /// Show `pc` to the callback and report whether it wants to go on.
    Visit { pc: u64 },
    /// Load the machine word at `address` and report it, or report that the
    /// load was refused.
    Load { address: u64 },
    /// Nothing more: the walk ended for `reason`.
    Finish { reason: Termination },
}

/// What came of a request.
#[derive(Clone, Copy, Debug, PartialEq, Eq, Structural)]
pub enum Event {
    /// The callback was shown the address and answered.
    Visited { proceed: bool },
    /// The load yielded `word`, or nothing where it was refused.
    Loaded { word: Option<u64> },
}

/// A walk, between two requests.
#[derive(Clone, Copy, Debug, PartialEq, Eq, Structural)]
pub enum Walk {
    /// The starting program counter `pc` is being shown. The frame at `fp`
    /// has not been looked at yet.
    AtStart { pc: u64, fp: u64 },
    /// The return address of the frame at `fp` is being loaded from `slot`,
    /// the word above `fp`.
    LoadingReturn { fp: u64, slot: u64 },
    /// The call site `pc`, found in the frame at `fp`, is being shown.
    AtCall { pc: u64, fp: u64 },
    /// The saved frame pointer of the frame at `fp` is being loaded.
    LoadingFrame { fp: u64 },
    /// The walk has ended.
    Finished { reason: Termination },
}

/// The address shown for a return address: one less, so that it falls inside
/// the calling instruction rather than behind it. The one return address
/// that has nothing below it, 0, is shown as the highest address.
pub open spec fn call_site(return_address: u64) -> u64 {
    if return_address == 0 {
        u64::MAX
    } else {
        (return_address - 1) as u64
    }
}

/// Computes [`call_site`].
pub fn call_site_of(return_address: u64) -> (pc: u64)
    ensures
        pc == call_site(return_address),
        return_address > 0 ==> pc == return_address - 1,
{
    if return_address == 0 {
        u64::MAX
    } else {
        return_address - 1
    }
}

impl Walk {
    /// The walk as it starts from `registers`: showing the program counter.
    pub open spec fn begin(registers: Registers) -> Walk {
        Walk::AtStart { pc: registers.pc, fp: registers.fp }
    }

    /// The walk as it starts from what the extractor found: ended at once
    /// where it found nothing.
    pub open spec fn begin_from(found: Option<Registers>) -> Walk {
        match found {
            Some(registers) => Walk::begin(registers),
            None => Walk::Finished { reason: Termination::NoRegisters },
        }
    }

    /// The walk as it turns to the frame at `fp`. A null frame pointer ends
    /// the chain. A frame pointer so high that the word above it would lie
    /// past the end of the address space names no frame that could be read.
    /// Any other has its return address loaded next.
    pub open spec fn enter(fp: u64) -> Walk {
        if fp == 0 {
            Walk::Finished { reason: Termination::Exhausted }
        } else if fp + RETURN_SLOT_OFFSET > u64::MAX {
            Walk::Finished { reason: Termination::Unreadable }
        } else {
            Walk::LoadingReturn { fp, slot: (fp + RETURN_SLOT_OFFSET) as u64 }
        }
    }

    /// What the walk asks of its caller in this state.
    pub open spec fn pending(&self) -> Request {
        match *self {
            Walk::AtStart { pc, fp } => Request::Visit { pc },
            Walk::LoadingReturn { fp, slot } => Request::Load { address: slot },
            Walk::AtCall { pc, fp } => Request::Visit { pc },
            Walk::LoadingFrame { fp } => Request::Load { address: fp },
            Walk::Finished { reason } => Request::Finish { reason },
        }
    }

    /// The state after `event`.
    ///
    /// A callback that declines stops the walk. One that goes on after the
    /// starting program counter turns the walk to the starting frame; one
    /// that goes on after a call site has the saved frame pointer of that
    /// frame loaded. A refused load ends the walk as unreadable. A loaded
    /// return address is shown next, as a call site; a loaded frame pointer
    /// is the frame the walk turns to. An event that does not answer the
    /// pending request changes nothing, and nothing changes a walk that has
    /// ended.
    pub open spec fn after(&self, event: Event) -> Walk {
        match (*self, event) {
            (Walk::AtStart { pc, fp }, Event::Visited { proceed }) => if proceed {
                Walk::enter(fp)
            } else {
                Walk::Finished { reason: Termination::Stopped }
            },
            (Walk::AtCall { pc, fp }, Event::Visited { proceed }) => if proceed {
                Walk::LoadingFrame { fp }
            } else {
                Walk::Finished { reason: Termination::Stopped }
            },
            (Walk::LoadingReturn { fp, slot }, Event::Loaded { word }) => match word {
                Some(return_address) => Walk::AtCall { pc: call_site(return_address), fp },
                None => Walk::Finished { reason: Termination::Unreadable },
            },
            (Walk::LoadingFrame { fp }, Event::Loaded { word }) => match word {
                Some(saved) => Walk::enter(saved),
                None => Walk::Finished { reason: Termination::Unreadable },
            },
            _ => *self,
        }
    }

    /// Why the walk ended, once it has.
    pub open spec fn ended(&self) -> Option<Termination> {
        match *self {
            Walk::Finished { reason } => Some(reason),
            _ => None,
        }
    }

    /// Turns to the frame at `fp`.
    fn turn_to(fp: u64) -> (walk: Walk)
        ensures
            walk == Walk::enter(fp),
    {
        if fp == 0 {
            Walk::Finished { reason: Termination::Exhausted }
        } else {
            match fp.checked_add(RETURN_SLOT_OFFSET) {
                Some(slot) => Walk::LoadingReturn { fp, slot },
                None => Walk::Finished { reason: Termination::Unreadable },
            }
        }
    }

    /// What the walk asks of its caller in this state.
    pub fn request(&self) -> (request: Request)
        ensures
            request == self.pending(),
            request is Finish <==> self.ended() is Some,
    {
        match *self {
            Walk::AtStart { pc, fp } => Request::Visit { pc },
            Walk::LoadingReturn { fp, slot } => Request::Load { address: slot },
            Walk::AtCall { pc, fp } => Request::Visit { pc },
            Walk::LoadingFrame { fp } => Request::Load { address: fp },
            Walk::Finished { reason } => Request::Finish { reason },
        }
    }

    /// Takes in what came of the pending request.
    pub fn step(self, event: Event) -> (next: Walk)
        ensures
            next == self.after(event),
            self.pending() is Visit && event == (Event::Visited { proceed: false })
                ==> next.ended() == Some(Termination::Stopped),
            self.pending() is Load && event == (Event::Loaded { word: None })
                ==> next.ended() == Some(Termination::Unreadable),
            self.ended() is Some ==> next == self,
    {
        match self {
            Walk::AtStart { pc, fp } => match event {
                Event::Visited { proceed } => if proceed {
                    Walk::turn_to(fp)
                } else {
                    Walk::Finished { reason: Termination::Stopped }
                },
                Event::Loaded { word } => self,
            },
            Walk::AtCall { pc, fp } => match event {
                Event::Visited { proceed } => if proceed {
                    Walk::LoadingFrame { fp }
                } else {
                    Walk::Finished { reason: Termination::Stopped }
                },
                Event::Loaded { word } => self,
            },
            Walk::LoadingReturn { fp, slot } => match event {
                Event::Loaded { word } => match word {
                    Some(return_address) => Walk::AtCall { pc: call_site_of(return_address), fp },
                    None => Walk::Finished { reason: Termination::Unreadable },
                },
                Event::Visited { proceed } => self,
            },
            Walk::LoadingFrame { fp } => match event {
                Event::Loaded { word } => match word {
                    Some(saved) => Walk::turn_to(saved),
                    None => Walk::Finished { reason: Termination::Unreadable },
                },
                Event::Visited { proceed } => self,
            },
            Walk::Finished { reason } => self,
        }
    }

    /// Why the walk ended, once it has.
    pub fn outcome(&self) -> (outcome: Option<Termination>)
        ensures
            outcome == self.ended(),
    {
        match *self {
            Walk::Finished { reason } => Some(reason),
            _ => None,
        }
    }
}

/// Starts a walk from a saved machine context.
///
/// Where there is no context, or the context has no register block, the walk
/// has ended before it began and shows nothing. Otherwise it starts from the
/// program counter and the frame pointer of the context, and asks first for
/// the program counter to be shown.
pub fn trace_from_ucontext<C: ExecutionContext>(ucontext: Option<&C>) -> (walk: Walk)
    ensures
        walk == Walk::begin_from(Registers::of(ucontext)),
        Registers::of(ucontext) is None ==> walk.pending() == (Request::Finish {
            reason: Termination::NoRegisters,
        }),
        Registers::of(ucontext) matches Some(registers) ==> walk.pending() == (Request::Visit {
            pc: registers.pc,
        }),
{
    match Registers::from_ucontext(ucontext) {
        Some(registers) => Walk::AtStart { pc: registers.pc, fp: registers.fp },
        None => Walk::Finished { reason: Termination::NoRegisters },
    }
}

/// Starts a walk from the context a thread captured of itself.
///
/// `status` is what the capture reported, 0 for success. After a failed
/// capture the context holds nothing that could be trusted, and the walk has
/// ended before it began. After a successful one the walk starts from
/// `ucontext` as [`trace_from_ucontext`] does.
pub fn trace<C: ExecutionContext>(status: i32, ucontext: &C) -> (walk: Walk)
    ensures
        status != 0 ==> walk == (Walk::Finished { reason: Termination::NoRegisters }),
        status == 0 ==> walk == Walk::begin_from(ucontext.registers()),
{
    if status != 0 {
        Walk::Finished { reason: Termination::NoRegisters }
    } else {
        trace_from_ucontext(Some(ucontext))
    }
}

} // verus!
