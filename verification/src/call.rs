//! One exchange with the server: a compound request and what its reply comes to.
use crate::compound::{lemma_replies_used, operations_of, replies_failure, CompoundRequest};
use crate::error::{Error, ErrorView, Result};
use crate::ops::{ArgOp, CompoundArgs, CompoundRes, OperationId, ResOp};
use crate::protocol::{FileHandle, GetFhRes, RemoveRes};
use std::collections::VecDeque;
use sun_rpc_client::Error as RpcError;
use vstd::prelude::*;

verus! {

/// Number of the NFS program.
pub const NFS: u32 = 100003;

/// Number of the program that takes callbacks from an NFS server.
pub const NFS_CB: u32 = 0x40000000;

/// TCP port that NFS servers listen on.
pub const NFS_PORT: u16 = 2049;

/// Number of the procedure that runs compound requests.
pub const COMPOUND_PROCEDURE: u32 = 1;

/// Text that `{:?}` prints for replies in a `VecDeque`.
pub uninterp spec fn res_ops_debug(ops: Seq<ResOp>) -> Seq<char>;

/// Formats replies with `{:?}`, through the standard library's `format`.
///
/// Claims only that the text depends on the replies and their order and nothing else; what the
/// text says is not stated.
#[verifier::external_body]
fn debug_res_ops(ops: &VecDeque<ResOp>) -> (text: String)
    ensures
        text@ == res_ops_debug(ops@),
{
    format!("{ops:?}")
}

/// What came back for a compound request.
pub type CompoundReply = std::result::Result<CompoundRes, RpcError>;

/// What is wrong with `reply` as the reply to a request that expects answers to `expected`, if
/// anything is: the exchange failed, the request as a whole failed, an operation was not
/// answered or failed, or there is an answer too many.
pub open spec fn compound_failure(expected: Seq<OperationId>, reply: CompoundReply) -> Option<
    ErrorView,
> {
    match reply {
        Err(e) => Some(ErrorView::SunRpc(e)),
        Ok(res) => match res.status {
            Err(e) => Some(ErrorView::Protocol(e)),
            Ok(_) => {
                let replies = res.res_array@;
                if replies_failure(expected, replies) is Some {
                    replies_failure(expected, replies)
                } else if replies.len() > expected.len() {
                    Some(
                        ErrorView::CompoundResponseMismatch(
                            "trailing response: "@ + res_ops_debug(
                                replies.skip(expected.len() as int),
                            ),
                        ),
                    )
                } else {
                    None
                }
            },
        },
    }
}

/// Each operation is answered exactly once in a reply with which nothing is wrong.
pub proof fn lemma_one_reply_each(expected: Seq<OperationId>, reply: CompoundReply)
    requires
        compound_failure(expected, reply) is None,
    ensures
        reply matches Ok(res) && res.res_array@.len() == expected.len(),
{
    if let Ok(res) = reply {
        lemma_replies_used(expected, res.res_array@);
    }
}

/// A request whose reply is still to come.
pub struct Pending<R: CompoundRequest> {
    geometry: R::Geometry,
}

/// A compound request to send, with what is needed to read its reply.
pub struct Call<R: CompoundRequest> {
    pub args: CompoundArgs,
    pub pending: Pending<R>,
}

impl<R: CompoundRequest> Call<R> {
    /// Whether the call asks for exactly the operations `ops`, in that order, and waits for the
    /// replies to them.
    pub open spec fn asks(self, ops: Seq<ArgOp>) -> bool {
        &&& self.args.tag@ == "Test Client"@
        &&& self.args.minor_version == 1
        &&& self.args.arg_array@ == ops
        &&& self.pending.expected() == operations_of(ops)
    }

    /// The call that runs `request`.
    pub fn new(request: R) -> (call: Self)
        ensures
            call.asks(request.operations()),
            call.args.tag@ == "Test Client"@,
            call.args.minor_version == 1,
            call.args.arg_array@ == request.operations(),
            call.pending.expected() == operations_of(request.operations()),
            request.has_shape(call.pending.geometry()),
    {
        let (arg_array, geometry) = request.into_arg_array();
        Call {
            args: CompoundArgs { tag: "Test Client".to_owned(), minor_version: 1, arg_array },
            pending: Pending { geometry },
        }
    }
}

impl<R: CompoundRequest> Pending<R> {
    /// The shape of the request.
    pub closed spec fn geometry(self) -> R::Geometry {
        self.geometry
    }

    /// The kinds of reply that are waited for.
    pub open spec fn expected(self) -> Seq<OperationId> {
        R::expected(self.geometry())
    }

    /// Whether `response` is what the operations in `reply` give.
    pub open spec fn answered(self, reply: CompoundReply, response: R::Response) -> bool {
        reply matches Ok(res) && R::answered(self.geometry(), res.res_array@, response)
    }

    /// Reads the reply.
    pub fn finish(self, reply: CompoundReply) -> (response: Result<R::Response>)
        ensures
            match response {
                Ok(response) => {
                    &&& compound_failure(self.expected(), reply) is None
                    &&& self.answered(reply, response)
                },
                Err(e) => compound_failure(self.expected(), reply) == Some(e@),
            },
    {
        let compound_reply = match reply {
            Ok(compound_reply) => compound_reply,
            Err(e) => {
                return Err(Error::from(e));
            },
        };
        if let Err(e) = compound_reply.status {
            return Err(Error::from(e));
        }
        let ghost replies = compound_reply.res_array@;
        let mut res_array: VecDeque<ResOp> = VecDeque::new();
        for op in it: compound_reply.res_array
            invariant
                it.seq() == replies,
                res_array@ == replies.take(it.index()),
        {
            res_array.push_back(op);
        }
        assert(res_array@ =~= replies);
        let ghost expected = self.expected();
        match R::process_reply(&mut res_array, self.geometry) {
            Err(e) => Err(e),
            Ok(response) => {
                proof {
                    lemma_replies_used(expected, replies);
                }
                if res_array.len() != 0 {
                    let mut text = "trailing response: ".to_owned();
                    text.append(debug_res_ops(&res_array).as_str());
                    return Err(Error::CompoundResponseMismatch(text));
                }
                assert(replies.take(expected.len() as int) =~= replies);
                Ok(response)
            },
        }
    }

    /// Reads the reply to a request of which nothing but success matters.
    pub fn finish_unit(self, reply: CompoundReply) -> (response: Result<()>)
        ensures
            match response {
                Ok(_) => compound_failure(self.expected(), reply) is None,
                Err(e) => compound_failure(self.expected(), reply) == Some(e@),
            },
    {
        match self.finish(reply) {
            Ok(_) => Ok(()),
            Err(e) => Err(e),
        }
    }
}

impl<R: CompoundRequest<Response = GetFhRes>> Pending<R> {
    /// Reads the reply to a request that ends by asking for a file handle.
    pub fn finish_handle(self, reply: CompoundReply) -> (response: Result<FileHandle>)
        ensures
            match response {
                Ok(object) => {
                    &&& compound_failure(self.expected(), reply) is None
                    &&& self.answered(reply, (GetFhRes { object }))
                },
                Err(e) => compound_failure(self.expected(), reply) == Some(e@),
            },
    {
        match self.finish(reply) {
            Ok(res) => Ok(res.object),
            Err(e) => Err(e),
        }
    }
}

impl<R: CompoundRequest<Response = RemoveRes>> Pending<R> {
    /// Reads the reply to a request that ends by removing a directory entry.
    pub fn finish_change_info(self, reply: CompoundReply) -> (response: Result<nfs4::ChangeInfo>)
        ensures
            match response {
                Ok(change_info) => {
                    &&& compound_failure(self.expected(), reply) is None
                    &&& self.answered(reply, (RemoveRes { change_info }))
                },
                Err(e) => compound_failure(self.expected(), reply) == Some(e@),
            },
    {
        match self.finish(reply) {
            Ok(res) => Ok(res.change_info),
            Err(e) => Err(e),
        }
    }
}

} // verus!
