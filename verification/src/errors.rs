//! Native error codes and the class that the standard library gives them.

use vstd::prelude::*;

verus! {

/// A failure of the native call.
#[derive(Clone, Copy, Debug, PartialEq, Eq, Structural)]
pub struct OsError {
    /// The error code that the system left behind.
    pub code: libc::c_int,
}

/// What a failed native call means for the transfer.
#[derive(Clone, Copy, Debug, PartialEq, Eq, Structural)]
pub enum ErrorClass {
    /// The destination takes no more bytes for now.
    WouldBlock,
    /// A signal cut the call short.
    Interrupted,
    /// Anything else: the transfer cannot go on.
    Other,
}

/// `std::io::Error`, held only between the call that makes one from an error code and the
/// call that reads its kind. Nothing inside it is visible to a proof.
#[verifier::external_type_specification]
#[verifier::external_body]
pub struct ExIoError(std::io::Error);

/// `std::io::Error::from_raw_os_error`: the standard library's error value for an error code of
/// the system. Nothing is claimed of the value.
#[verifier::external_body]
fn io_error(code: libc::c_int) -> (error: std::io::Error) {
    std::io::Error::from_raw_os_error(code)
}

/// `std::io::Error::kind`: the kind that the standard library gives an error, reduced to the
/// three classes that the transfer tells apart. Which codes fall under which kind differs from
/// system to system, so nothing is claimed of the result.
#[verifier::external_body]
fn class_of(error: &std::io::Error) -> (class: ErrorClass) {
    match error.kind() {
        std::io::ErrorKind::WouldBlock => ErrorClass::WouldBlock,
        std::io::ErrorKind::Interrupted => ErrorClass::Interrupted,
        _ => ErrorClass::Other,
    }
}

impl OsError {
    /// The class of this error on the running system, as the standard library tells it.
    ///
    /// The same code stands for different errors on different systems, so no class is
    /// promised for any code. The caller is proved for each of the three classes:
    /// [`SendFile::step_with`](crate::operation::SendFile::step_with) says what follows from
    /// each.
    pub(crate) fn class(&self) -> ErrorClass {
        let error = io_error(self.code);
        class_of(&error)
    }
}

} // verus!
