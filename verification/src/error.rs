//! Errors of the client.
use crate::protocol::{LockStatusResult, SetAttrStatusResult, StatusResult};
use std::io::Error as IoError;
use sun_rpc_client::Error as RpcError;
use vstd::prelude::*;
use vstd::std_specs::convert::FromSpecImpl;

verus! {

/// Why a request failed.
#[derive(Debug)]
pub enum Error {
    /// The request was not sent, or no reply was received.
    SunRpc(RpcError),
    /// The server answered with a status other than success.
    Protocol(nfs4::StatusError),
    /// The server answered a lock or link operation with a status other than success.
    Lock(nfs4::LockStatusError),
    /// Data could not be read from its source or written to its sink.
    Io(IoError),
    /// The reply does not answer the request operation by operation.
    CompoundResponseMismatch(String),
}

pub type Result<T> = std::result::Result<T, Error>;

/// What an [`Error`] says.
pub enum ErrorView {
    SunRpc(RpcError),
    Protocol(nfs4::StatusError),
    Lock(nfs4::LockStatusError),
    Io(IoError),
    CompoundResponseMismatch(Seq<char>),
}

impl View for Error {
    type V = ErrorView;

    open spec fn view(&self) -> ErrorView {
        match *self {
            Error::SunRpc(e) => ErrorView::SunRpc(e),
            Error::Protocol(e) => ErrorView::Protocol(e),
            Error::Lock(e) => ErrorView::Lock(e),
            Error::Io(e) => ErrorView::Io(e),
            Error::CompoundResponseMismatch(text) => ErrorView::CompoundResponseMismatch(text@),
        }
    }
}

impl FromSpecImpl<RpcError> for Error {
    open spec fn obeys_from_spec() -> bool {
        true
    }

    open spec fn from_spec(e: RpcError) -> Self {
        Error::SunRpc(e)
    }
}

impl From<RpcError> for Error {
    fn from(e: RpcError) -> Self {
        Error::SunRpc(e)
    }
}

impl FromSpecImpl<nfs4::StatusError> for Error {
    open spec fn obeys_from_spec() -> bool {
        true
    }

    open spec fn from_spec(e: nfs4::StatusError) -> Self {
        Error::Protocol(e)
    }
}

impl From<nfs4::StatusError> for Error {
    fn from(e: nfs4::StatusError) -> Self {
        Error::Protocol(e)
    }
}

impl FromSpecImpl<nfs4::LockStatusError> for Error {
    open spec fn obeys_from_spec() -> bool {
        true
    }

    open spec fn from_spec(e: nfs4::LockStatusError) -> Self {
        Error::Lock(e)
    }
}

impl From<nfs4::LockStatusError> for Error {
    fn from(e: nfs4::LockStatusError) -> Self {
        Error::Lock(e)
    }
}

impl FromSpecImpl<IoError> for Error {
    open spec fn obeys_from_spec() -> bool {
        true
    }

    open spec fn from_spec(e: IoError) -> Self {
        Error::Io(e)
    }
}

impl From<IoError> for Error {
    fn from(e: IoError) -> Self {
        Error::Io(e)
    }
}

/// Result of one operation, on its way from the server's form to the client's.
pub struct TempResult<T>(pub Result<T>);

impl<T> FromSpecImpl<StatusResult<T>> for TempResult<T> {
    open spec fn obeys_from_spec() -> bool {
        true
    }

    open spec fn from_spec(res: StatusResult<T>) -> Self {
        TempResult(
            match res {
                Ok(res) => Ok(res),
                Err(e) => Err(Error::Protocol(e)),
            },
        )
    }
}

impl<T> From<StatusResult<T>> for TempResult<T> {
    fn from(res: StatusResult<T>) -> Self {
        TempResult(
            match res {
                Ok(res) => Ok(res),
                Err(e) => Err(Error::from(e)),
            },
        )
    }
}

impl FromSpecImpl<SetAttrStatusResult> for TempResult<nfs4::SetAttrRes> {
    open spec fn obeys_from_spec() -> bool {
        true
    }

    open spec fn from_spec(res: SetAttrStatusResult) -> Self {
        TempResult(
            match res.status {
                Ok(_) => Ok(res.res),
                Err(e) => Err(Error::Protocol(e)),
            },
        )
    }
}

impl From<SetAttrStatusResult> for TempResult<nfs4::SetAttrRes> {
    fn from(res: SetAttrStatusResult) -> Self {
        TempResult(
            match res.status {
                Ok(_) => Ok(res.res),
                Err(e) => Err(Error::from(e)),
            },
        )
    }
}

impl<T> FromSpecImpl<LockStatusResult<T>> for TempResult<T> {
    open spec fn obeys_from_spec() -> bool {
        true
    }

    open spec fn from_spec(res: LockStatusResult<T>) -> Self {
        TempResult(
            match res {
                Ok(res) => Ok(res),
                Err(e) => Err(Error::Lock(e)),
            },
        )
    }
}

impl<T> From<LockStatusResult<T>> for TempResult<T> {
    fn from(res: LockStatusResult<T>) -> Self {
        TempResult(
            match res {
                Ok(res) => Ok(res),
                Err(e) => Err(Error::from(e)),
            },
        )
    }
}

} // verus!
