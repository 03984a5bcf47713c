//! The native transfer call as plain values: what is asked of it, what it answers, and what the
//! answer means on each family of systems.

use crate::errors::{ErrorClass, OsError};
use vstd::prelude::*;

verus! {

/// The most bytes that Linux moves in one call.
pub const LINUX_MAX_COUNT: libc::size_t = 0x7fff_f000;

/// The families of systems whose native call differs in shape.
#[derive(Clone, Copy, Debug, PartialEq, Eq, Structural)]
pub enum Platform {
    /// Linux and Android: the call is handed the offset in place, moves it forward itself and
    /// returns the number of bytes moved.
    Linux,
    /// macOS: the call is handed a length that it overwrites with the number of bytes moved,
    /// also where it fails.
    MacOs,
    /// FreeBSD: the call writes the number of bytes moved to a parameter of its own, apart from
    /// the code it returns, also where it fails.
    FreeBsd,
}

/// What one native call is asked for.
#[derive(Clone, Copy, Debug, PartialEq, Eq, Structural)]
pub struct Request {
    /// Where in the source the call starts to read.
    pub offset: libc::off_t,
    /// The most bytes to move; on macOS and FreeBSD 0 stands for all that remain.
    pub count: libc::size_t,
}

/// What one native call answered.
#[derive(Clone, Copy, Debug, PartialEq, Eq, Structural)]
pub struct Reply {
    /// The value that the call returned.
    pub status: libc::ssize_t,
    /// The number that the call wrote back: on Linux the offset behind the last byte read, on
    /// macOS and FreeBSD the number of bytes moved.
    pub value: libc::off_t,
    /// The error code of the system as it stood right after the call. It is read only where
    /// the call failed.
    pub errno: libc::c_int,
}

/// One native call, told in the same terms on every system.
#[derive(Clone, Copy, Debug, PartialEq, Eq, Structural)]
pub enum Outcome {
    /// The call moved this many bytes; 0 says that the source has no more.
    Advanced(usize),
    /// The destination takes no more bytes for now.
    WouldBlock,
    /// A signal cut the call short: it is to be made again at once.
    Interrupted,
    /// The transfer cannot go on.
    Fatal(OsError),
}

impl Reply {
    /// Whether the call reported a failure.
    pub open spec fn failed(self) -> bool {
        self.status == -1
    }
}

impl Platform {
    /// The count that each call is made with.
    pub open spec fn count(self) -> libc::size_t {
        match self {
            Platform::Linux => LINUX_MAX_COUNT,
            Platform::MacOs => 0,
            Platform::FreeBsd => 0,
        }
    }

    /// The call to make once `written` bytes are accounted.
    pub open spec fn request_at(self, written: usize) -> Request {
        Request { offset: written as libc::off_t, count: self.count() }
    }

    /// The number of bytes that `reply` says its call moved.
    pub open spec fn moved(self, reply: Reply) -> usize {
        match self {
            Platform::Linux => if reply.failed() {
                0
            } else {
                reply.status as usize
            },
            Platform::MacOs => reply.value as usize,
            Platform::FreeBsd => reply.value as usize,
        }
    }

    /// Whether `reply` can be accounted on top of `written` bytes within `usize`.
    pub open spec fn accountable(self, written: usize, reply: Reply) -> bool {
        match self {
            Platform::Linux => true,
            Platform::MacOs => written + (reply.value as usize) <= usize::MAX,
            Platform::FreeBsd => written + (reply.value as usize) <= usize::MAX,
        }
    }

    /// The number of bytes accounted once `reply` is, on top of `written`. Linux takes the
    /// offset that the call moved forward, and only where the call succeeded; macOS and
    /// FreeBSD add the count that the call wrote back, whether it succeeded or not.
    pub open spec fn cursor_after(self, written: usize, reply: Reply) -> usize {
        match self {
            Platform::Linux => if reply.failed() {
                written
            } else {
                reply.value as usize
            },
            Platform::MacOs => (written + (reply.value as usize)) as usize,
            Platform::FreeBsd => (written + (reply.value as usize)) as usize,
        }
    }

    /// What `reply` comes to, where `class` is the class of its error code.
    pub open spec fn outcome(self, reply: Reply, class: ErrorClass) -> Outcome {
        if reply.failed() {
            match class {
                ErrorClass::WouldBlock => Outcome::WouldBlock,
                ErrorClass::Interrupted => Outcome::Interrupted,
                ErrorClass::Other => Outcome::Fatal(OsError { code: reply.errno }),
            }
        } else {
            Outcome::Advanced(self.moved(reply))
        }
    }
}

} // verus!
