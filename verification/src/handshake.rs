//! Setting up a session: the client names itself, opens a session and learns what the server
//! supports, in three exchanges.
use crate::attrs::{
    attr_id_sets, attr_ids, attr_set_from_ids, attr_sizes, has_root_attrs, tells_root_attrs,
    MAX_READ, MAX_WRITE, SUPPORTED_ATTRS,
};
use crate::call::{compound_failure, lemma_one_reply_each, Call, CompoundReply, Pending, NFS_CB};
use crate::client::{lemma_last_reply, Client, ClientView, Sequenced};
use crate::compound::ReturnSecond;
use crate::error::Result;
use crate::ops::{ArgOp, CompoundArgs, ResOp};
use crate::owner::{is_owner_number, random_client_owner};
use crate::protocol::{
    ChannelAttrs, ClientId, ClientOwner, CreateSessionArgs, ExchangeIdArgs, GetAttrArgs,
    ReclaimCompleteArgs, SequenceId, StateProtection,
};
use crate::requests::PutRootFh;
use vstd::prelude::*;

verus! {

/// Limits that a client proposes for its own requests.
pub open spec fn fore_channel() -> ChannelAttrs {
    ChannelAttrs {
        header_pad_size: 0,
        max_request_size: 1049620,
        max_response_size: 1049480,
        max_response_size_cached: 7584,
        max_operations: 16,
        max_requests: 64,
        rdma_ird: None,
    }
}

/// Limits that a client proposes for requests of the server.
pub open spec fn back_channel() -> ChannelAttrs {
    ChannelAttrs {
        header_pad_size: 0,
        max_request_size: 4096,
        max_response_size: 4096,
        max_response_size_cached: 0,
        max_operations: 16,
        max_requests: 16,
        rdma_ird: None,
    }
}

/// A request that ends the recovery of earlier state and asks for attributes of the root of the
/// server.
pub type RootAttrsRequest = Sequenced<ReturnSecond<(ReclaimCompleteArgs, PutRootFh), GetAttrArgs>>;

/// Whether `op` names the client as `owner` and asks for nothing more.
pub open spec fn names_client(op: ArgOp, owner: ClientOwner) -> bool {
    op matches ArgOp::ExchangeId(args) && {
        &&& args.client_owner.verifier == owner.verifier
        &&& args.client_owner.owner_id@ == owner.owner_id@
        &&& args.flags == 0
        &&& args.state_protect == StateProtection::Unprotected
        &&& args.client_impl_id is None
    }
}

/// Whether `op` opens a session for the client `client_id`.
pub open spec fn opens_session(op: ArgOp, client_id: ClientId) -> bool {
    op matches ArgOp::CreateSession(args) && {
        &&& args.client_id == client_id
        &&& args.sequence_id == SequenceId(1)
        &&& args.flags == 0
        &&& args.fore_channel_attrs == fore_channel()
        &&& args.back_channel_attrs == back_channel()
        &&& args.program == NFS_CB
        &&& args.security_parameters@.len() == 0
    }
}

/// Whether `ops` are the operations with which `client` learns what the server supports.
pub open spec fn asks_root_attrs(ops: Seq<ArgOp>, client: ClientView) -> bool {
    &&& ops.len() == 4
    &&& ops[0] == client.sequence_op()
    &&& ops[1] == ArgOp::ReclaimComplete(ReclaimCompleteArgs { one_fs: false })
    &&& ops[2] == ArgOp::PutRootFh
    &&& ops[3] matches ArgOp::GetAttr(args) && attr_ids(args.attr_request)
        == set![SUPPORTED_ATTRS, MAX_READ, MAX_WRITE]
}

/// A client that has named itself and waits for the name that the server gives to it.
pub struct Identifying {
    client_owner: ClientOwner,
    pending: Pending<ExchangeIdArgs>,
}

/// A client that has asked for a session.
pub struct Opening {
    client_owner: ClientOwner,
    client_id: ClientId,
    pending: Pending<CreateSessionArgs>,
}

/// A client in a new session that has asked what the server supports.
pub struct Learning {
    client: Client,
    pending: Pending<RootAttrsRequest>,
}

impl Identifying {
    /// The name that the client gave to itself.
    pub closed spec fn client_owner(self) -> ClientOwner {
        self.client_owner
    }

    /// The request whose reply is waited for.
    pub closed spec fn pending(self) -> Pending<ExchangeIdArgs> {
        self.pending
    }

    /// Starts with a random name.
    pub fn start() -> (started: (Identifying, CompoundArgs))
        ensures
            exists|n: u64| is_owner_number(started.0.client_owner(), n),
            (Call { args: started.1, pending: started.0.pending() }).asks(started.1.arg_array@),
            started.1.arg_array@.len() == 1,
            names_client(started.1.arg_array@[0], started.0.client_owner()),
            started.1.tag@ == "Test Client"@,
            started.1.minor_version == 1,
            started.1.arg_array@[0] matches ArgOp::ExchangeId(args) && {
                &&& args.client_owner.verifier == started.0.client_owner().verifier
                &&& args.client_owner.owner_id@ == started.0.client_owner().owner_id@
                &&& args.flags == 0
                &&& args.state_protect is Unprotected
                &&& args.client_impl_id is None
            },
    {
        Self::start_as(random_client_owner())
    }

    /// Starts with the name `client_owner`.
    pub fn start_as(client_owner: ClientOwner) -> (started: (Identifying, CompoundArgs))
        ensures
            started.0.client_owner() == client_owner,
            (Call { args: started.1, pending: started.0.pending() }).asks(started.1.arg_array@),
            started.1.arg_array@.len() == 1,
            names_client(started.1.arg_array@[0], client_owner),
            started.1.tag@ == "Test Client"@,
            started.1.minor_version == 1,
            started.1.arg_array@[0] matches ArgOp::ExchangeId(args) && {
                &&& args.client_owner.verifier == client_owner.verifier
                &&& args.client_owner.owner_id@ == client_owner.owner_id@
                &&& args.flags == 0
                &&& args.state_protect is Unprotected
                &&& args.client_impl_id is None
            },
    {
        let call = Call::new(
            ExchangeIdArgs {
                client_owner: client_owner.clone(),
                flags: 0,
                state_protect: StateProtection::Unprotected,
                client_impl_id: None,
            },
        );
        (Identifying { client_owner, pending: call.pending }, call.args)
    }

    /// Reads the reply to the first request and makes the second.
    pub fn identified(self, reply: CompoundReply) -> (opening: Result<(Opening, CompoundArgs)>)
        ensures
            match opening {
                Ok((opening, args)) => {
                    &&& compound_failure(self.pending().expected(), reply) is None
                    &&& reply matches Ok(res) && res.res_array@[0] matches ResOp::ExchangeId(
                        Ok(named),
                    ) && named.client_id == opening.client_id()
                    &&& opening.client_owner() == self.client_owner()
                    &&& (Call { args, pending: opening.pending() }).asks(args.arg_array@)
                    &&& args.arg_array@.len() == 1
                    &&& opens_session(args.arg_array@[0], opening.client_id())
                    &&& args.tag@ == "Test Client"@
                    &&& args.minor_version == 1
                    &&& reply matches Ok(res) && res.res_array@[0] matches ResOp::ExchangeId(
                        Ok(named),
                    ) && args.arg_array@[0] matches ArgOp::CreateSession(asked) && {
                        &&& asked.client_id.0 == named.client_id.0
                        &&& asked.sequence_id.0 == 1
                        &&& asked.flags == 0
                        &&& asked.program == 0x40000000
                        &&& asked.security_parameters@.len() == 0
                        &&& asked.fore_channel_attrs == (ChannelAttrs {
                            header_pad_size: 0,
                            max_request_size: 1049620,
                            max_response_size: 1049480,
                            max_response_size_cached: 7584,
                            max_operations: 16,
                            max_requests: 64,
                            rdma_ird: None,
                        })
                        &&& asked.back_channel_attrs == (ChannelAttrs {
                            header_pad_size: 0,
                            max_request_size: 4096,
                            max_response_size: 4096,
                            max_response_size_cached: 0,
                            max_operations: 16,
                            max_requests: 16,
                            rdma_ird: None,
                        })
                    }
                },
                Err(e) => compound_failure(self.pending().expected(), reply) == Some(e@),
            },
    {
        let client_id = match self.pending.finish(reply) {
            Ok(named) => named.client_id,
            Err(e) => {
                return Err(e);
            },
        };
        let call = Call::new(
            CreateSessionArgs {
                client_id,
                sequence_id: SequenceId(1),
                flags: 0,
                fore_channel_attrs: ChannelAttrs {
                    header_pad_size: 0,
                    max_request_size: 1049620,
                    max_response_size: 1049480,
                    max_response_size_cached: 7584,
                    max_operations: 16,
                    max_requests: 64,
                    rdma_ird: None,
                },
                back_channel_attrs: ChannelAttrs {
                    header_pad_size: 0,
                    max_request_size: 4096,
                    max_response_size: 4096,
                    max_response_size_cached: 0,
                    max_operations: 16,
                    max_requests: 16,
                    rdma_ird: None,
                },
                program: NFS_CB,
                security_parameters: Vec::new(),
            },
        );
        let opening = Opening {
            client_owner: self.client_owner,
            client_id,
            pending: call.pending,
        };
        Ok((opening, call.args))
    }
}

impl Opening {
    /// The name that the client gave to itself.
    pub closed spec fn client_owner(self) -> ClientOwner {
        self.client_owner
    }

    /// The name that the server gave to the client.
    pub closed spec fn client_id(self) -> ClientId {
        self.client_id
    }

    /// The request whose reply is waited for.
    pub closed spec fn pending(self) -> Pending<CreateSessionArgs> {
        self.pending
    }

    /// Reads the reply to the second request and makes the third.
    pub fn opened(self, reply: CompoundReply) -> (learning: Result<(Learning, CompoundArgs)>)
        ensures
            match learning {
                Ok((learning, args)) => {
                    &&& compound_failure(self.pending().expected(), reply) is None
                    &&& reply matches Ok(res) && res.res_array@[0] matches ResOp::CreateSession(
                        Ok(session),
                    ) && {
                        let client = ClientView::new(
                            session,
                            self.client_id(),
                            self.client_owner(),
                        );
                        &&& asks_root_attrs(args.arg_array@, client)
                        &&& learning.client() == client.after_call()
                    }
                    &&& (Call { args, pending: learning.pending() }).asks(args.arg_array@)
                    &&& args.tag@ == "Test Client"@
                    &&& args.minor_version == 1
                    &&& args.arg_array@.len() == 4
                    &&& reply matches Ok(res) && res.res_array@[0] matches ResOp::CreateSession(
                        Ok(session),
                    ) && args.arg_array@[0] matches ArgOp::Sequence(asked) && {
                        &&& asked.session_id == session.session_id
                        &&& asked.sequence_id.0 == 1
                        &&& asked.slot_id.0 == 0
                        &&& asked.highest_slot_id.0 == 0
                        &&& !asked.cache_this
                        &&& learning.client() == (ClientView {
                            session,
                            sequence_id: SequenceId(2),
                            client_id: self.client_id(),
                            client_owner: self.client_owner(),
                            max_read: 0,
                            max_write: 0,
                            supported_attrs: Set::empty(),
                        })
                    }
                    &&& args.arg_array@[1] matches ArgOp::ReclaimComplete(asked) && !asked.one_fs
                    &&& args.arg_array@[2] is PutRootFh
                    &&& args.arg_array@[3] matches ArgOp::GetAttr(asked) && attr_ids(
                        asked.attr_request,
                    ) == set![0u32, 30u32, 31u32]
                },
                Err(e) => compound_failure(self.pending().expected(), reply) == Some(e@),
            },
    {
        let session = match self.pending.finish(reply) {
            Ok(session) => session,
            Err(e) => {
                return Err(e);
            },
        };
        let mut client = Client::new(session, self.client_id, self.client_owner);
        let call = client.ask_root_attrs();
        Ok((Learning { client, pending: call.pending }, call.args))
    }
}

/// Whether `reply` ends with attributes of the root that lack one that the client has to know.
pub open spec fn lacks_root_attrs(reply: CompoundReply) -> bool {
    &&& reply matches Ok(res)
    &&& res.res_array@.len() > 0
    &&& res.res_array@.last() matches ResOp::GetAttr(Ok(got))
    &&& !has_root_attrs(got.object_attributes)
}

/// Tells whether `reply` ends with attributes of the root that lack one that the client has to
/// know.
pub fn root_attrs_are_lacking(reply: &CompoundReply) -> (lacking: bool)
    ensures
        lacking == lacks_root_attrs(*reply),
{
    match reply {
        Ok(res) => {
            let n: usize = res.res_array.len();
            if n == 0 {
                return false;
            }
            match &res.res_array[n - 1] {
                ResOp::GetAttr(Ok(got)) => !tells_root_attrs(&got.object_attributes),
                _ => false,
            }
        },
        Err(_) => false,
    }
}

impl Learning {
    /// The client in its new session.
    pub closed spec fn client(self) -> ClientView {
        self.client@
    }

    /// The request whose reply is waited for.
    pub closed spec fn pending(self) -> Pending<RootAttrsRequest> {
        self.pending
    }

    /// Whether `reply` fails, or tells all that the client has to know.
    pub open spec fn fails_or_tells(self, reply: CompoundReply) -> bool {
        compound_failure(self.pending().expected(), reply) is Some || !lacks_root_attrs(reply)
    }

    /// Reads the reply to the third request. The session is then ready.
    pub fn learnt(self, reply: CompoundReply) -> (client: Result<Client>)
        requires
            self.fails_or_tells(reply),
        ensures
            match client {
                Ok(client) => {
                    &&& compound_failure(self.pending().expected(), reply) is None
                    &&& reply matches Ok(res) && res.res_array@[3] matches ResOp::GetAttr(Ok(got))
                        && client@ == self.client().learnt(got.object_attributes)
                        && client@ == (ClientView {
                        max_read: attr_sizes(got.object_attributes)[30u32],
                        max_write: attr_sizes(got.object_attributes)[31u32],
                        supported_attrs: attr_id_sets(got.object_attributes)[0u32],
                        ..self.client()
                    })
                },
                Err(e) => compound_failure(self.pending().expected(), reply) == Some(e@),
            },
    {
        let ghost pending = self.pending;
        let mut client = self.client;
        let res = match self.pending.finish(reply) {
            Ok(res) => res,
            Err(e) => {
                return Err(e);
            },
        };
        proof {
            lemma_one_reply_each(pending.expected(), reply);
            lemma_last_reply(pending, reply, res);
        }
        client.learn(res.object_attributes);
        Ok(client)
    }

    /// Reads the reply to the third request, whatever it tells. There is no client if the
    /// request succeeds and the reply lacks an attribute that the client has to know.
    pub fn learnt_if_told(self, reply: CompoundReply) -> (client: Result<Option<Client>>)
        ensures
            match client {
                Ok(client) => {
                    &&& compound_failure(self.pending().expected(), reply) is None
                    &&& reply matches Ok(res) && res.res_array@[3] matches ResOp::GetAttr(Ok(got))
                        && match client {
                        Some(client) => {
                            &&& has_root_attrs(got.object_attributes)
                            &&& client@ == self.client().learnt(got.object_attributes)
                            &&& client@ == (ClientView {
                                max_read: attr_sizes(got.object_attributes)[30u32],
                                max_write: attr_sizes(got.object_attributes)[31u32],
                                supported_attrs: attr_id_sets(got.object_attributes)[0u32],
                                ..self.client()
                            })
                        },
                        None => !has_root_attrs(got.object_attributes),
                    }
                },
                Err(e) => compound_failure(self.pending().expected(), reply) == Some(e@),
            },
    {
        let ghost pending = self.pending;
        proof {
            if compound_failure(pending.expected(), reply) is None {
                lemma_one_reply_each(pending.expected(), reply);
            }
        }
        if root_attrs_are_lacking(&reply) {
            return match self.pending.finish_unit(reply) {
                Ok(_) => Ok(None),
                Err(e) => Err(e),
            };
        }
        match self.learnt(reply) {
            Ok(client) => Ok(Some(client)),
            Err(e) => Err(e),
        }
    }
}

impl Client {
    /// Ends the recovery of earlier state and asks what the server supports.
    pub fn ask_root_attrs(&mut self) -> (call: Call<RootAttrsRequest>)
        requires
            old(self)@.can_call(),
        ensures
            call.asks(call.args.arg_array@),
            asks_root_attrs(call.args.arg_array@, old(self)@),
            final(self)@ == old(self)@.after_call(),
    {
        let mut ids: Vec<u32> = Vec::new();
        ids.push(SUPPORTED_ATTRS);
        ids.push(MAX_READ);
        ids.push(MAX_WRITE);
        assert(ids@.to_set() =~= set![SUPPORTED_ATTRS, MAX_READ, MAX_WRITE]) by {
            assert(ids@[0] == SUPPORTED_ATTRS && ids@[1] == MAX_READ && ids@[2] == MAX_WRITE);
        }
        let attr_request = attr_set_from_ids(ids);
        self.do_compound(
            ReturnSecond(
                (ReclaimCompleteArgs { one_fs: false }, PutRootFh),
                GetAttrArgs { attr_request },
            ),
        )
    }
}

} // verus!
