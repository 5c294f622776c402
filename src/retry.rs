//! Telling a transient I/O failure from a fatal one.
//!
//! A socket with a timeout, or in non-blocking mode, reports "no frame yet"
//! as an error. Such an error is worth retrying; any other is fatal to the
//! call that met it.
use vstd::prelude::*;

verus! {

/// The kinds of I/O failure that the retry decision tells apart.
#[derive(Debug, Clone, Copy, PartialEq, Eq, Structural)]
pub enum IoErrorClass {
    /// The operation would have blocked (`EAGAIN`, `EWOULDBLOCK`).
    WouldBlock,
    /// A failure that std does not classify further; its OS code decides.
    Other,
    /// Any other kind of failure.
    AnyOther,
}

/// Whether a failure of class `class` with OS error code `raw_os_error` is
/// transient, where `in_progress` is the platform's `EINPROGRESS`.
pub open spec fn is_transient(class: IoErrorClass, raw_os_error: Option<i32>, in_progress: i32) -> bool {
    match class {
        IoErrorClass::WouldBlock => true,
        IoErrorClass::Other => raw_os_error == Some(in_progress),
        IoErrorClass::AnyOther => false,
    }
}

/// Decides whether a failure is transient: one that would block, or an
/// unclassified one whose OS code is `in_progress`.
pub fn retry_decision(class: IoErrorClass, raw_os_error: Option<i32>, in_progress: i32) -> (r: bool)
    ensures
        r == is_transient(class, raw_os_error, in_progress),
{
    match class {
        IoErrorClass::WouldBlock => true,
        IoErrorClass::Other => match raw_os_error {
            Some(code) => code == in_progress,
            None => false,
        },
        IoErrorClass::AnyOther => false,
    }
}

/// The class of the kind that `std::io::Error::kind` reports for `e`; it
/// depends on the error alone.
pub uninterp spec fn io_class_of(e: std::io::Error) -> IoErrorClass;

/// The OS error code that `std::io::Error::raw_os_error` reports for `e`; it
/// depends on the error alone.
pub uninterp spec fn io_os_code_of(e: std::io::Error) -> Option<i32>;

/// Relies on `std::io::Error::kind`: names the kind when it is one of the
/// two the decision reads, and any other kind as such. Which kinds are
/// retried is decided by `retry_decision`.
#[verifier::external_body]
fn io_error_class(e: &std::io::Error) -> (r: IoErrorClass)
    ensures
        r == io_class_of(*e),
{
    match e.kind() {
        std::io::ErrorKind::WouldBlock => IoErrorClass::WouldBlock,
        std::io::ErrorKind::Other => IoErrorClass::Other,
        _ => IoErrorClass::AnyOther,
    }
}

/// Relies on `std::io::Error::raw_os_error`: the OS error code the error
/// was made from, if any.
#[verifier::external_body]
fn io_raw_os_error(e: &std::io::Error) -> (r: Option<i32>)
    ensures
        r == io_os_code_of(*e),
{
    e.raw_os_error()
}

/// Relies on `nix::errno::Errno::EINPROGRESS`: the platform's code for an
/// operation still in progress.
#[verifier::external_body]
fn in_progress_errno() -> (r: i32) {
    nix::errno::Errno::EINPROGRESS as i32
}

/// Whether a failed operation is worth retrying.
pub trait ShouldRetry {
    /// Holds of a value that reports success, which is never retried.
    spec fn is_success(&self) -> bool;

    /// Whether the value is a transient failure, where `in_progress` is the
    /// platform's `EINPROGRESS`.
    spec fn transient_with(&self, in_progress: i32) -> bool;

    /// `true` if the error is most likely a timeout; never for a success.
    /// The answer is the transient-failure decision, taken with the
    /// platform's `EINPROGRESS` code.
    fn should_retry(&self) -> (r: bool)
        ensures
            self.is_success() ==> !r,
            exists|in_progress: i32| r == #[trigger] self.transient_with(in_progress),
    ;
}

impl ShouldRetry for std::io::Error {
    open spec fn is_success(&self) -> bool {
        false
    }

    /// Transient exactly when `retry_decision` says so of the error's kind
    /// and OS code.
    open spec fn transient_with(&self, in_progress: i32) -> bool {
        is_transient(io_class_of(*self), io_os_code_of(*self), in_progress)
    }

    fn should_retry(&self) -> (r: bool) {
        let class = io_error_class(self);
        let raw = io_raw_os_error(self);
        let in_progress = in_progress_errno();
        let r = retry_decision(class, raw, in_progress);
        assert(r == self.transient_with(in_progress));
        r
    }
}

impl<E> ShouldRetry for std::io::Result<E> {
    open spec fn is_success(&self) -> bool {
        self is Ok
    }

    /// A success is never transient; a failure answers as its error does.
    open spec fn transient_with(&self, in_progress: i32) -> bool {
        match self {
            Ok(_) => false,
            Err(e) => e.transient_with(in_progress),
        }
    }

    fn should_retry(&self) -> (r: bool) {
        match self {
            Err(e) => {
                let r = e.should_retry();
                proof {
                    let p = choose|p: i32| r == #[trigger] e.transient_with(p);
                    assert(r == self.transient_with(p));
                }
                r
            },
            Ok(_) => {
                assert(false == self.transient_with(0));
                false
            },
        }
    }
}

} // verus!
