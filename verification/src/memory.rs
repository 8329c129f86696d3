//! Loading one value from the traced thread's memory.
//!
//! Every access a walk makes to the stack passes through here. A guarded
//! load asks the memory probe first and reads only where the probe found the
//! address accessible; an unguarded load reads at once and leaves it to the
//! caller that the address is good. The probe and the read are the caller's
//! to carry out; this module decides which of them comes next.

use vstd::prelude::*;

verus! {

/// What the caller of a load has to do next.
#[derive(Clone, Copy, Debug, PartialEq, Eq, Structural)]
pub enum LoadRequest {
    /// Ask the memory probe whether `address` is accessible.
    Probe { address: u64 },
    /// Read the value at `address`.
    Read { address: u64 },
    /// Nothing more: take what the load yields.
    Return,
}

/// A load of one value, between the probe and the read.
#[derive(Debug, PartialEq, Eq)]
pub enum Load<T> {
    /// The probe of `address` is awaited.
    Probing { address: u64 },
    /// The value at `address` is awaited.
    Reading { address: u64 },
    /// The value has been read.
    Loaded { value: T },
    /// The probe refused the address: nothing was read.
    Refused,
}

impl<T> Load<T> {
    /// The load as it starts: with the probe where it is guarded, with the
    /// read where it is not.
    pub open spec fn start(address: u64, guarded: bool) -> Load<T> {
        if guarded {
            Load::Probing { address }
        } else {
            Load::Reading { address }
        }
    }

    /// What the load asks of its caller in this state.
    pub open spec fn pending(&self) -> LoadRequest {
        match *self {
            Load::Probing { address } => LoadRequest::Probe { address },
            Load::Reading { address } => LoadRequest::Read { address },
            Load::Loaded { value } => LoadRequest::Return,
            Load::Refused => LoadRequest::Return,
        }
    }

    /// What the load yields: the value that was read, and nothing where the
    /// probe refused the address or the load has not come to its end.
    pub open spec fn yielded(&self) -> Option<T> {
        match *self {
            Load::Loaded { value } => Some(value),
            _ => None,
        }
    }

    /// The state after the probe answered `accessible`: an accessible
    /// address is read next, any other is refused. The answer only counts
    /// while the probe is awaited.
    pub open spec fn after_probe(&self, accessible: bool) -> Load<T> {
        match *self {
            Load::Probing { address } => if accessible {
                Load::Reading { address }
            } else {
                Load::Refused
            },
            _ => *self,
        }
    }

    /// The state after `value` was read. The value only counts while the read
    /// is awaited.
    pub open spec fn after_read(&self, value: T) -> Load<T> {
        match *self {
            Load::Reading { address } => Load::Loaded { value },
            _ => *self,
        }
    }

    /// What the load asks of its caller in this state.
    pub fn request(&self) -> (request: LoadRequest)
        ensures
            request == self.pending(),
    {
        match self {
            Load::Probing { address } => LoadRequest::Probe { address: *address },
            Load::Reading { address } => LoadRequest::Read { address: *address },
            Load::Loaded { value } => LoadRequest::Return,
            Load::Refused => LoadRequest::Return,
        }
    }

    /// Hands out what the load yields.
    pub fn value(self) -> (value: Option<T>)
        ensures
            value == self.yielded(),
    {
        match self {
            Load::Loaded { value } => Some(value),
            _ => None,
        }
    }

    /// Takes in the probe's answer.
    pub fn probed(self, accessible: bool) -> (next: Load<T>)
        ensures
            next == self.after_probe(accessible),
    {
        match self {
            Load::Probing { address } => if accessible {
                Load::Reading { address }
            } else {
                Load::Refused
            },
            other => other,
        }
    }

    /// Takes in the value that was read.
    pub fn read(self, value: T) -> (next: Load<T>)
        ensures
            next == self.after_read(value),
    {
        match self {
            Load::Reading { address } => Load::Loaded { value },
            other => other,
        }
    }
}

/// Starts the load of the value at `address`.
///
/// A guarded load begins by asking for the probe of `address`, an unguarded
/// one by asking for the read. The caller does what [`Load::request`] asks
/// and reports back with [`Load::probed`] or [`Load::read`] until the request
/// is to return.
pub fn load<T>(address: u64, guarded: bool) -> (started: Load<T>)
    ensures
        started == Load::<T>::start(address, guarded),
        guarded ==> started.pending() == (LoadRequest::Probe { address }),
        !guarded ==> started.pending() == (LoadRequest::Read { address }),
{
    if guarded {
        Load::Probing { address }
    } else {
        Load::Reading { address }
    }
}

/// A guarded load asks for the probe first, and for a read only after the
/// probe found the address accessible; the read it asks for is of the address
/// it was started on. Where the probe refuses, the load returns at once and
/// yields nothing.
pub proof fn law_probe_comes_before_read<T>(address: u64, accessible: bool)
    ensures
        Load::<T>::start(address, true).pending() == (LoadRequest::Probe { address }),
        accessible ==> Load::<T>::start(address, true).after_probe(accessible).pending()
            == (LoadRequest::Read { address }),
        !accessible ==> Load::<T>::start(address, true).after_probe(accessible).pending()
            == LoadRequest::Return,
        !accessible ==> Load::<T>::start(address, true).after_probe(accessible).yielded() is None,
{
}

/// A load yields the value that was read, unchanged, as soon as it has been
/// read.
pub proof fn law_load_yields_what_was_read<T>(address: u64, value: T)
    ensures
        Load::<T>::start(address, false).after_read(value).pending() == LoadRequest::Return,
        Load::<T>::start(address, false).after_read(value).yielded() == Some(value),
        Load::<T>::start(address, true).after_probe(true).after_read(value).pending()
            == LoadRequest::Return,
        Load::<T>::start(address, true).after_probe(true).after_read(value).yielded() == Some(
            value,
        ),
{
}

} // verus!
