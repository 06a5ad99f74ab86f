//! How the response of one stream can fail.

use vstd::prelude::*;

verus! {

/// The failure of one response. `T` is what the transport fails with, `B`
/// what the producer of the body fails with.
#[derive(Debug)]
pub enum DispatchError<T, B> {
    /// The transport did not take the head of the response.
    SendResponse(T),
    /// The transport failed after the head was sent: it granted no capacity
    /// or did not take a data frame.
    SendData(T),
    /// The producer of the body failed.
    ResponseBody(B),
}

/// How loudly the failure of a response is logged.
#[derive(Clone, Copy, Debug, PartialEq, Eq, Structural)]
pub enum Level {
    /// For diagnosis only.
    Trace,
    /// Worth a warning.
    Warn,
    /// An error of the application.
    Error,
}

impl<T, B> DispatchError<T, B> {
    /// The level at which this failure is logged: a head that could not be
    /// sent is traced, a failure while sending data is a warning, and a body
    /// that failed is an error.
    pub open spec fn spec_level(&self) -> Level {
        match self {
            DispatchError::SendResponse(_) => Level::Trace,
            DispatchError::SendData(_) => Level::Warn,
            DispatchError::ResponseBody(_) => Level::Error,
        }
    }

    /// The level at which this failure is logged.
    pub fn level(&self) -> (level: Level)
        ensures
            level == self.spec_level(),
    {
        match self {
            DispatchError::SendResponse(_) => Level::Trace,
            DispatchError::SendData(_) => Level::Warn,
            DispatchError::ResponseBody(_) => Level::Error,
        }
    }
}

} // verus!
