//! The transfer operation: the two resources it owns, the count of bytes moved so far, and the
//! decisions of the loop that drives the native call.

use crate::errors::{ErrorClass, OsError};
use crate::native::{Outcome, Platform, Reply, Request};
use vstd::prelude::*;

verus! {

/// One file-to-socket transfer in progress.
///
/// The operation makes no native call itself. Its owner asks it for the next call with
/// [`SendFile::request`], makes the call, and hands the answer to [`SendFile::step`], which
/// accounts the bytes and says how to go on; [`SendFile::accepts`] tells beforehand whether
/// the answer can be accounted. Nothing arranges a wake-up: after [`Step::Pending`] the owner
/// comes back when the socket takes bytes again.
#[derive(Debug)]
pub struct SendFile<F, S> {
    file: F,
    socket: S,
    written: usize,
}

/// What a [`SendFile`] stands for: the two resources it owns and the number of bytes moved.
pub ghost struct SendFileView<F, S> {
    pub file: F,
    pub socket: S,
    pub written: usize,
}

/// How the driving loop goes on after one native call.
#[derive(Clone, Copy, Debug, PartialEq, Eq)]
pub enum Step {
    /// Make the next call at once.
    Again,
    /// The destination takes no more bytes for now; come back when it does.
    Pending,
    /// The transfer is over: with the total number of bytes moved, or with the error that
    /// ended it.
    Ready(Result<usize, OsError>),
}

impl Outcome {
    /// How the loop goes on after this outcome, with `written` bytes accounted in all.
    pub open spec fn next_step(self, written: usize) -> Step {
        match self {
            Outcome::Advanced(n) => if n == 0 {
                Step::Ready(Ok(written))
            } else {
                Step::Again
            },
            Outcome::WouldBlock => Step::Pending,
            Outcome::Interrupted => Step::Again,
            Outcome::Fatal(error) => Step::Ready(Err(error)),
        }
    }
}

impl Platform {
    /// How the loop goes on after `reply` to a call made with `written` bytes accounted, where
    /// `class` is the class of the reply's error code.
    pub open spec fn step_at(self, written: usize, reply: Reply, class: ErrorClass) -> Step {
        self.outcome(reply, class).next_step(self.cursor_after(written, reply))
    }
}

impl<F, S> View for SendFile<F, S> {
    type V = SendFileView<F, S>;

    closed spec fn view(&self) -> SendFileView<F, S> {
        SendFileView { file: self.file, socket: self.socket, written: self.written }
    }
}

/// Sends `file` out of `socket`, from the file's first byte to its last.
///
/// `file` has to be a regular file open for reading and `socket` a stream socket open for
/// writing: the native call is defined for nothing else, and nothing here can test it.
pub fn send_file<F, S>(file: F, socket: S) -> (operation: SendFile<F, S>)
    ensures
        operation@ == (SendFileView { file, socket, written: 0 }),
{
    SendFile { file, socket, written: 0 }
}

/// The outcome of a call that failed with the error code `code` of class `class`.
fn failure(code: libc::c_int, class: ErrorClass) -> (outcome: Outcome)
    ensures
        outcome == match class {
            ErrorClass::WouldBlock => Outcome::WouldBlock,
            ErrorClass::Interrupted => Outcome::Interrupted,
            ErrorClass::Other => Outcome::Fatal(OsError { code }),
        },
{
    match class {
        ErrorClass::WouldBlock => Outcome::WouldBlock,
        ErrorClass::Interrupted => Outcome::Interrupted,
        ErrorClass::Other => Outcome::Fatal(OsError { code }),
    }
}

impl<F, S> SendFile<F, S> {
    /// Gives the file and the socket back, whether the transfer is over or not.
    pub fn into_inner(self) -> (parts: (F, S))
        ensures
            parts.0 == self@.file,
            parts.1 == self@.socket,
    {
        (self.file, self.socket)
    }

    /// The number of bytes moved so far. Asking changes nothing: the answer stays the same
    /// until the next reply is accounted.
    pub fn written(&self) -> (n: usize)
        ensures
            n == self@.written,
    {
        self.written
    }

    /// The file that the bytes come from.
    pub fn file(&self) -> (file: &F)
        ensures
            *file == self@.file,
    {
        &self.file
    }

    /// The socket that the bytes go to.
    pub fn socket(&self) -> (socket: &S)
        ensures
            *socket == self@.socket,
    {
        &self.socket
    }

    /// The next native call to make: it starts behind the last byte accounted.
    pub fn request(&self, platform: Platform) -> (request: Request)
        ensures
            request == platform.request_at(self@.written),
    {
        let count: libc::size_t = match platform {
            Platform::Linux => crate::native::LINUX_MAX_COUNT,
            Platform::MacOs => 0,
            Platform::FreeBsd => 0,
        };
        Request { offset: #[verifier::truncate] (self.written as libc::off_t), count }
    }

    /// Whether `reply` can be accounted: whether the count of bytes moved stays within `usize`.
    pub fn accepts(&self, platform: Platform, reply: &Reply) -> (ok: bool)
        ensures
            ok == platform.accountable(self@.written, *reply),
    {
        match platform {
            Platform::Linux => true,
            Platform::MacOs => self.written.checked_add(
                #[verifier::truncate] (reply.value as usize),
            ).is_some(),
            Platform::FreeBsd => self.written.checked_add(
                #[verifier::truncate] (reply.value as usize),
            ).is_some(),
        }
    }

    /// Accounts the bytes that one native call moved and tells its outcome, where `class` is
    /// the class of the reply's error code. The class is read only where the call failed.
    pub fn raw_send_file(&mut self, platform: Platform, reply: Reply, class: ErrorClass) -> (outcome:
        Outcome)
        requires
            platform.accountable(old(self)@.written, reply),
        ensures
            final(self)@ == (SendFileView {
                written: platform.cursor_after(old(self)@.written, reply),
                ..old(self)@
            }),
            outcome == platform.outcome(reply, class),
    {
        match platform {
            Platform::Linux => {
                if reply.status == -1 {
                    failure(reply.errno, class)
                } else {
                    self.written = #[verifier::truncate] (reply.value as usize);
                    Outcome::Advanced(#[verifier::truncate] (reply.status as usize))
                }
            },
            Platform::MacOs => {
                let length: usize = #[verifier::truncate] (reply.value as usize);
                self.written = self.written + length;
                if reply.status == -1 {
                    failure(reply.errno, class)
                } else {
                    Outcome::Advanced(length)
                }
            },
            Platform::FreeBsd => {
                let bytes_sent: usize = #[verifier::truncate] (reply.value as usize);
                self.written = self.written + bytes_sent;
                if reply.status == -1 {
                    failure(reply.errno, class)
                } else {
                    Outcome::Advanced(bytes_sent)
                }
            },
        }
    }

    /// How the loop goes on after `outcome`, which is already accounted.
    pub fn decide(&self, outcome: Outcome) -> (step: Step)
        ensures
            step == outcome.next_step(self@.written),
    {
        match outcome {
            Outcome::Advanced(n) => if n == 0 {
                Step::Ready(Ok(self.written))
            } else {
                Step::Again
            },
            Outcome::WouldBlock => Step::Pending,
            Outcome::Interrupted => Step::Again,
            Outcome::Fatal(error) => Step::Ready(Err(error)),
        }
    }

    /// One turn of the loop with the class of the reply's error code given: accounts `reply`
    /// and says how to go on.
    pub fn step_with(&mut self, platform: Platform, reply: Reply, class: ErrorClass) -> (step: Step)
        requires
            platform.accountable(old(self)@.written, reply),
        ensures
            final(self)@ == (SendFileView {
                written: platform.cursor_after(old(self)@.written, reply),
                ..old(self)@
            }),
            step == platform.step_at(old(self)@.written, reply, class),
    {
        let outcome = self.raw_send_file(platform, reply, class);
        self.decide(outcome)
    }

    /// One turn of the loop: accounts `reply` and says how to go on. Where the call failed,
    /// the standard library's kind for its error code decides between [`Step::Pending`], a
    /// new call at once, and the end of the transfer with that error: the step is the one
    /// that [`SendFile::step_with`] gives for one of the three classes. Where the call
    /// succeeded, that is the same step for all three.
    pub fn step(&mut self, platform: Platform, reply: Reply) -> (step: Step)
        requires
            platform.accountable(old(self)@.written, reply),
        ensures
            final(self)@ == (SendFileView {
                written: platform.cursor_after(old(self)@.written, reply),
                ..old(self)@
            }),
            step == platform.step_at(old(self)@.written, reply, ErrorClass::WouldBlock)
                || step == platform.step_at(old(self)@.written, reply, ErrorClass::Interrupted)
                || step == platform.step_at(old(self)@.written, reply, ErrorClass::Other),
    {
        let class = if reply.status == -1 {
            OsError { code: reply.errno }.class()
        } else {
            ErrorClass::Other
        };
        self.step_with(platform, reply, class)
    }
}

} // verus!
