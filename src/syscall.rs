//! System-call numbers and the dispatcher that routes a call to a kernel
//! service.

use vstd::prelude::*;

verus! {

/// The closed set of kernel services reachable by a system call.
#[derive(Clone, Copy, Debug, PartialEq, Eq, Structural)]
pub enum Syscall {
    Sleep,
}

impl Syscall {
    /// The number that selects this service.
    pub open spec fn number_spec(&self) -> usize {
        match self {
            Syscall::Sleep => 1,
        }
    }

    pub fn number(&self) -> (r: usize)
        ensures
            r == self.number_spec(),
    {
        match self {
            Syscall::Sleep => 1,
        }
    }
}

/// The service that number `n` selects, if any.
pub open spec fn syscall_of(n: usize) -> Result<Syscall, ()> {
    if n == 1 {
        Ok(Syscall::Sleep)
    } else {
        Err(())
    }
}

impl TryFrom<usize> for Syscall {
    type Error = ();

    fn try_from(value: usize) -> (r: Result<Syscall, ()>)
        ensures
            r == syscall_of(value),
    {
        match value {
            1 => Ok(Syscall::Sleep),
            _ => Err(()),
        }
    }
}

impl vstd::std_specs::convert::TryFromSpecImpl<usize> for Syscall {
    open spec fn obeys_try_from_spec() -> bool {
        true
    }

    open spec fn try_from_spec(v: usize) -> Result<Syscall, ()> {
        syscall_of(v)
    }
}

/// A routed system call: the service to run, with its raw argument.
#[derive(Clone, Copy, Debug, PartialEq, Eq, Structural)]
pub enum ServiceCall {
    /// Sleep; the argument is handed to the sleep service unchanged.
    Sleep(usize),
}

impl ServiceCall {
    /// The value written back to the caller once the service has run.
    pub open spec fn return_value_spec(&self) -> usize {
        match self {
            ServiceCall::Sleep(_) => 0,
        }
    }

    pub fn return_value(&self) -> (r: usize)
        ensures
            r == self.return_value_spec(),
    {
        match self {
            ServiceCall::Sleep(_) => 0,
        }
    }
}

/// The routing of a system call with number `n` and arguments `arg1..arg4`.
pub open spec fn route(n: usize, arg1: usize, arg2: usize, arg3: usize, arg4: usize) -> Option<
    ServiceCall,
> {
    match syscall_of(n) {
        Ok(Syscall::Sleep) => Some(ServiceCall::Sleep(arg1)),
        Err(_) => None,
    }
}

/// Maps a system-call number to the service it names, with its argument.
/// An unknown number is fatal, so callers must rule it out.
pub fn dispatcher(n: usize, arg1: usize, arg2: usize, arg3: usize, arg4: usize) -> (r: ServiceCall)
    requires
        syscall_of(n) is Ok,
    ensures
        Some(r) == route(n, arg1, arg2, arg3, arg4),
{
    match Syscall::try_from(n) {
        Ok(Syscall::Sleep) => ServiceCall::Sleep(arg1),
        Err(()) => vstd::pervasive::unreached(),
    }
}

} // verus!
