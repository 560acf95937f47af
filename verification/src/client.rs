//! A session with a server: the requests that can be made in it.
use crate::attrs::{
    attr_id_sets, attr_ids, attr_set_from_ids, attr_sizes, has_root_attrs, keep_supported,
    read_root_attrs, without_set_only, MAX_READ, MAX_WRITE, SUPPORTED_ATTRS, TIME_ACCESS_SET,
    TIME_MODIFY_SET,
};
use crate::call::{compound_failure, lemma_one_reply_each, Call, CompoundReply, Pending};
use crate::compound::{lemma_operations_of_ops, CompoundOp, CompoundRequest, ReturnSecond};
use crate::error::{Error, Result};
use crate::ops::ArgOp;
use crate::path::{names_in_parts, names_in_path, part_names, path_names, texts, PathPart};
use crate::protocol::{
    clone_bytes, AccessArgs, AttrSet, ClientId, ClientOwner, CommitArgs, CreateArgs, CreateHow,
    CreateSessionRes, CreateType, FileAttributes, FileHandle, GetAttrArgs, LookUpArgs, OpenArgs,
    OpenClaim, OpenFlag, PutFhArgs, ReadArgs, RemoveArgs, RenameArgs, SequenceArgs, SequenceId,
    SetAttrArgs, SlotId, StableHow, StateId, StateOwner, VerifyArgs, WriteArgs,
};
use crate::requests::{GetFh, PutRootFh, ReadLink, SaveFh};
use sun_rpc_client::Error as RpcError;
use vstd::prelude::*;

verus! {

/// Share access with which a file is created.
pub const SHARE_ACCESS_WRITE: u32 = 0x00000002;

/// Share reservation with which a file is created.
pub const SHARE_DENY_NONE: u32 = 0x00000000;

/// The permissions that `Access` knows, one bit each.
pub const ACCESS_ALL: u32 = 0x0000003f;

/// Calls `nfs4::Access::from_bits_truncate`: bits that stand for no permission are dropped, the
/// others kept.
#[verifier::external_body]
fn known_access(bits: u32) -> (known: u32)
    ensures
        known == bits & ACCESS_ALL,
{
    nfs4::Access::from_bits_truncate(bits).bits()
}

/// Whether `state_id` stands for no state at all.
pub open spec fn is_anonymous(state_id: StateId) -> bool {
    state_id.sequence_id == 0 && state_id.other@ == Seq::new(12, |i: int| 0u8)
}

/// Calls `nfs4::StateId::anonymous`: all of it is zero.
#[verifier::external_body]
fn anonymous_state() -> (state_id: StateId)
    ensures
        is_anonymous(state_id),
{
    let outside = nfs4::StateId::anonymous();
    StateId { sequence_id: outside.sequence_id, other: outside.other }
}

/// Calls `nfs4::SequenceId::incr`: one more than before.
#[verifier::external_body]
fn sequence_id_incr(id: &mut SequenceId)
    requires
        old(id).0 < u32::MAX,
    ensures
        final(id).0 == old(id).0 + 1,
{
    let mut outside = nfs4::SequenceId(id.0);
    outside.incr();
    id.0 = outside.0;
}

/// A request that runs under the next number of a session.
pub type Sequenced<R> = ReturnSecond<SequenceArgs, R>;

/// A request that works on a given file, under the next number of a session.
pub type OnFile<R> = Sequenced<ReturnSecond<PutFhArgs, R>>;

/// A request that leads from a directory to a file and asks for the file's handle, under the
/// next number of a session.
pub type OnEntry<R> = Sequenced<ReturnSecond<(PutFhArgs, R), GetFh>>;

/// A request that leads from the root of the server to a file and asks for the file's handle,
/// under the next number of a session.
pub type FromRoot = Sequenced<ReturnSecond<(PutRootFh, Vec<LookUpArgs>), GetFh>>;

/// A request of a session that ends in an operation gives what the last reply gives.
pub proof fn lemma_last_reply<A: CompoundRequest, T: CompoundOp>(
    pending: Pending<Sequenced<ReturnSecond<A, T>>>,
    reply: CompoundReply,
    response: T::Res,
)
    requires
        compound_failure(pending.expected(), reply) is None,
    ensures
        pending.answered(reply, response) <==> (reply matches Ok(res) && T::gives(
            res.res_array@.last(),
            response,
        )),
{
    lemma_one_reply_each(pending.expected(), reply);
    if let Ok(res) = reply {
        let n = A::expected(pending.geometry().1.0).len() as int;
        assert(res.res_array@.skip(1).skip(n)[0] == res.res_array@.last());
    }
}

/// A session with a server.
pub struct Client {
    session: CreateSessionRes,
    sequence_id: SequenceId,
    client_id: ClientId,
    client_owner: ClientOwner,
    max_read: u64,
    max_write: u64,
    supported_attrs: AttrSet,
}

/// What a client knows: its session and the number of the next request in it, the name that the
/// server gave to it, the name that it gave to itself, how much one `Read` returns and one
/// `Write` takes at most, and the ids of the attributes that the server supports.
pub struct ClientView {
    pub session: CreateSessionRes,
    pub sequence_id: SequenceId,
    pub client_id: ClientId,
    pub client_owner: ClientOwner,
    pub max_read: u64,
    pub max_write: u64,
    pub supported_attrs: Set<u32>,
}

impl View for Client {
    type V = ClientView;

    closed spec fn view(&self) -> ClientView {
        ClientView {
            session: self.session,
            sequence_id: self.sequence_id,
            client_id: self.client_id,
            client_owner: self.client_owner,
            max_read: self.max_read,
            max_write: self.max_write,
            supported_attrs: attr_ids(self.supported_attrs),
        }
    }
}

impl ClientView {
    /// A client in a session in which no request has been made and nothing learnt.
    pub open spec fn new(
        session: CreateSessionRes,
        client_id: ClientId,
        client_owner: ClientOwner,
    ) -> Self {
        ClientView {
            session,
            sequence_id: SequenceId(1),
            client_id,
            client_owner,
            max_read: 0,
            max_write: 0,
            supported_attrs: Set::empty(),
        }
    }

    /// The client once it has learnt what the attributes `attrs` of the root tell.
    pub open spec fn learnt(self, attrs: FileAttributes) -> Self {
        ClientView {
            max_read: attr_sizes(attrs)[MAX_READ],
            max_write: attr_sizes(attrs)[MAX_WRITE],
            supported_attrs: attr_id_sets(attrs)[SUPPORTED_ATTRS],
            ..self
        }
    }

    /// Whether the session has a number left for another request.
    pub open spec fn can_call(self) -> bool {
        self.sequence_id.0 < u32::MAX
    }

    /// The session once another request has been made in it.
    pub open spec fn after_call(self) -> Self {
        ClientView { sequence_id: SequenceId((self.sequence_id.0 + 1) as u32), ..self }
    }

    /// The operation with which the next request of the session starts.
    pub open spec fn sequence_op(self) -> ArgOp {
        ArgOp::Sequence(
            SequenceArgs {
                session_id: self.session.session_id,
                sequence_id: self.sequence_id,
                slot_id: SlotId(0),
                highest_slot_id: SlotId(0),
                cache_this: false,
            },
        )
    }

    /// The operations of a request that runs `op` on a file.
    pub open spec fn file_ops(self, handle: FileHandle, op: ArgOp) -> Seq<ArgOp> {
        seq![self.sequence_op(), ArgOp::PutFh(PutFhArgs { object: handle }), op]
    }

    /// The operations of a request that runs `op` in a directory and asks for the handle of the
    /// file that this leads to.
    pub open spec fn entry_ops(self, dir: FileHandle, op: ArgOp) -> Seq<ArgOp> {
        seq![self.sequence_op(), ArgOp::PutFh(PutFhArgs { object: dir }), op, ArgOp::GetFh]
    }

    /// Whether `ops` go from the root of the server through the entries `names`, one after the
    /// other, and ask for the handle of the file that this leads to.
    pub open spec fn look_up_ops(self, ops: Seq<ArgOp>, names: Seq<Seq<char>>) -> bool {
        &&& ops.len() == names.len() + 3
        &&& ops[0] == self.sequence_op()
        &&& ops[1] == ArgOp::PutRootFh
        &&& forall|i: int|
            0 <= i < names.len() ==> (#[trigger] ops[i + 2] matches ArgOp::LookUp(args)
                && args.object_name@ == names[i])
        &&& ops.last() == ArgOp::GetFh
    }
}

impl Client {
    /// A client in a session in which no request has been made.
    pub fn new(
        session: CreateSessionRes,
        client_id: ClientId,
        client_owner: ClientOwner,
    ) -> (client: Self)
        ensures
            client@ == ClientView::new(session, client_id, client_owner),
    {
        let supported_attrs = attr_set_from_ids(Vec::new());
        assert(attr_ids(supported_attrs) =~= Set::<u32>::empty());
        Client {
            session,
            sequence_id: SequenceId(1),
            client_id,
            client_owner,
            max_read: 0,
            max_write: 0,
            supported_attrs,
        }
    }

    /// Takes over what the attributes `attrs` of the root tell.
    pub(crate) fn learn(&mut self, attrs: FileAttributes)
        requires
            has_root_attrs(attrs),
        ensures
            final(self)@ == old(self)@.learnt(attrs),
    {
        let root = read_root_attrs(attrs);
        self.supported_attrs = root.supported_attrs;
        self.max_read = root.max_read;
        self.max_write = root.max_write;
    }

    /// Tells whether the session has a number left for another request.
    pub fn has_number_left(&self) -> (left: bool)
        ensures
            left == self@.can_call(),
    {
        self.sequence_id.0 < u32::MAX
    }

    /// The ids in `requested` of attributes that the server supports.
    pub(crate) fn keep_supported(&self, requested: AttrSet) -> (kept: AttrSet)
        ensures
            attr_ids(kept) == attr_ids(requested).intersect(self@.supported_attrs),
    {
        keep_supported(requested, &self.supported_attrs)
    }

    /// Makes a request in the session.
    pub fn do_compound<R: CompoundRequest>(&mut self, request: R) -> (call: Call<Sequenced<R>>)
        requires
            old(self)@.can_call(),
        ensures
            call.asks(seq![old(self)@.sequence_op()] + request.operations()),
            call.args.tag@ == "Test Client"@,
            call.args.minor_version == 1,
            call.args.arg_array@ == seq![
                ArgOp::Sequence(
                    SequenceArgs {
                        session_id: old(self)@.session.session_id,
                        sequence_id: old(self)@.sequence_id,
                        slot_id: SlotId(0),
                        highest_slot_id: SlotId(0),
                        cache_this: false,
                    },
                ),
            ] + request.operations(),
            final(self)@ == (ClientView {
                sequence_id: SequenceId((old(self)@.sequence_id.0 + 1) as u32),
                ..old(self)@
            }),
            request.has_shape(call.pending.geometry().1),
            final(self)@ == old(self)@.after_call(),
    {
        let sequence = SequenceArgs {
            session_id: self.session.session_id,
            sequence_id: self.sequence_id,
            slot_id: SlotId(0),
            highest_slot_id: SlotId(0),
            cache_this: false,
        };
        sequence_id_incr(&mut self.sequence_id);
        Call::new(ReturnSecond(sequence, request))
    }

    /// Runs `op` on a file.
    pub(crate) fn on_file<T: CompoundOp>(&mut self, handle: FileHandle, op: T) -> (call: Call<
        OnFile<T>,
    >)
        requires
            old(self)@.can_call(),
        ensures
            call.asks(old(self)@.file_ops(handle, op.arg_op())),
            final(self)@ == old(self)@.after_call(),
    {
        let call = self.do_compound(ReturnSecond(PutFhArgs { object: handle }, op));
        assert(call.args.arg_array@ =~= old(self)@.file_ops(handle, op.arg_op()));
        call
    }

    /// Runs `op` in a directory and asks for the handle of the file that this leads to.
    fn on_entry<T: CompoundOp>(&mut self, dir: FileHandle, op: T) -> (call: Call<OnEntry<T>>)
        requires
            old(self)@.can_call(),
        ensures
            call.asks(old(self)@.entry_ops(dir, op.arg_op())),
            final(self)@ == old(self)@.after_call(),
    {
        let call = self.do_compound(ReturnSecond((PutFhArgs { object: dir }, op), GetFh));
        assert(call.args.arg_array@ =~= old(self)@.entry_ops(dir, op.arg_op()));
        call
    }

    /// Reads the reply to a call of the procedure that does nothing.
    pub fn null(reply: std::result::Result<(), RpcError>) -> (response: Result<()>)
        ensures
            match reply {
                Ok(_) => response is Ok,
                Err(e) => response == Err::<(), Error>(Error::SunRpc(e)),
            },
    {
        match reply {
            Ok(_) => Ok(()),
            Err(e) => Err(Error::from(e)),
        }
    }

    /// Asks which of the permissions `access` the caller has on a file.
    pub fn access(&mut self, handle: FileHandle, access: u32) -> (call: Call<OnFile<AccessArgs>>)
        requires
            old(self)@.can_call(),
        ensures
            call.asks(
                old(self)@.file_ops(
                    handle,
                    ArgOp::Access(AccessArgs { access: access & ACCESS_ALL }),
                ),
            ),
            final(self)@ == old(self)@.after_call(),
    {
        self.on_file(handle, AccessArgs { access: known_access(access) })
    }

    /// Asks the server to put data written to a file into stable storage.
    pub fn commit(&mut self, handle: FileHandle, offset: u64, count: u32) -> (call: Call<
        OnFile<CommitArgs>,
    >)
        requires
            old(self)@.can_call(),
        ensures
            call.asks(
                old(self)@.file_ops(handle, ArgOp::Commit(CommitArgs { offset, count })),
            ),
            final(self)@ == old(self)@.after_call(),
    {
        self.on_file(handle, CommitArgs { offset, count })
    }

    /// Asks for all attributes of a file that the server supports and that can be read.
    pub fn get_attr(&mut self, handle: FileHandle) -> (call: Call<OnFile<GetAttrArgs>>)
        requires
            old(self)@.can_call(),
        ensures
            ({
                let op = call.args.arg_array@[2];
                &&& call.asks(old(self)@.file_ops(handle, op))
                &&& op matches ArgOp::GetAttr(args) && attr_ids(args.attr_request) == old(
                    self,
                )@.supported_attrs.remove(TIME_ACCESS_SET).remove(TIME_MODIFY_SET)
            }),
            final(self)@ == old(self)@.after_call(),
    {
        let attr_request = without_set_only(&self.supported_attrs);
        self.on_file(handle, GetAttrArgs { attr_request })
    }

    /// Asks for the handle of the entry `path` of a directory.
    pub fn look_up_in(&mut self, dir_handle: FileHandle, path: &str) -> (call: Call<
        OnEntry<LookUpArgs>,
    >)
        requires
            old(self)@.can_call(),
        ensures
            ({
                let op = call.args.arg_array@[2];
                &&& call.asks(old(self)@.entry_ops(dir_handle, op))
                &&& op matches ArgOp::LookUp(args) && args.object_name@ == path@
            }),
            final(self)@ == old(self)@.after_call(),
    {
        self.on_entry(dir_handle, LookUpArgs { object_name: path.to_owned() })
    }

    /// Asks for the handle of the file that a path, which the host has split into `parts`, leads
    /// to from the root of the server.
    pub fn look_up(&mut self, parts: Vec<PathPart>) -> (call: Call<FromRoot>)
        requires
            old(self)@.can_call(),
        ensures
            call.asks(call.args.arg_array@),
            old(self)@.look_up_ops(call.args.arg_array@, part_names(parts@)),
            final(self)@ == old(self)@.after_call(),
    {
        self.look_up_names(names_in_parts(parts))
    }

    /// Asks for the handle of the file that `path`, written as on Unix, leads to from the root of
    /// the server.
    pub fn look_up_unix(&mut self, path: &str) -> (call: Call<FromRoot>)
        requires
            old(self)@.can_call(),
        ensures
            call.asks(call.args.arg_array@),
            old(self)@.look_up_ops(call.args.arg_array@, path_names(path@)),
            final(self)@ == old(self)@.after_call(),
    {
        self.look_up_names(names_in_path(path))
    }

    /// Asks for the handle of the file that the entries `names` lead to from the root of the
    /// server.
    fn look_up_names(&mut self, names: Vec<String>) -> (call: Call<FromRoot>)
        requires
            old(self)@.can_call(),
        ensures
            call.asks(call.args.arg_array@),
            old(self)@.look_up_ops(call.args.arg_array@, texts(names@)),
            final(self)@ == old(self)@.after_call(),
    {
        let ghost named = names@;
        let mut look_ups: Vec<LookUpArgs> = Vec::new();
        for object_name in it: names
            invariant
                it.seq() == named,
                look_ups@.len() == it.index(),
                forall|i: int|
                    0 <= i < it.index() ==> (#[trigger] look_ups@[i]).object_name == named[i],
        {
            look_ups.push(LookUpArgs { object_name });
        }
        let ghost items = look_ups@;
        let call = self.do_compound(ReturnSecond((PutRootFh, look_ups), GetFh));
        proof {
            let ops = call.args.arg_array@;
            let middle = items.map_values(|item: LookUpArgs| item.arg_op());
            lemma_operations_of_ops(items);
            assert(ops =~= seq![old(self)@.sequence_op(), ArgOp::PutRootFh] + middle
                + seq![ArgOp::GetFh]);
            assert forall|i: int| 0 <= i < named.len() implies (
            #[trigger] ops[i + 2] matches ArgOp::LookUp(args) && args.object_name@ == texts(
                named,
            )[i]) by {
                assert(ops[i + 2] == middle[i]);
            }
        }
        call
    }

    /// Asks for up to `count` bytes of a file from `offset` on.
    pub fn read(&mut self, handle: FileHandle, offset: u64, count: u32) -> (call: Call<
        OnFile<ReadArgs>,
    >)
        requires
            old(self)@.can_call(),
        ensures
            ({
                let op = call.args.arg_array@[2];
                &&& call.asks(old(self)@.file_ops(handle, op))
                &&& op matches ArgOp::Read(args) && is_anonymous(args.state_id) && args.offset
                    == offset && args.count == count
            }),
            final(self)@ == old(self)@.after_call(),
    {
        self.on_file(handle, ReadArgs { state_id: anonymous_state(), offset, count })
    }

    /// Asks the server to write `data` to a file at `offset`, and to answer once the data is in
    /// stable storage.
    pub fn write(&mut self, handle: FileHandle, offset: u64, data: Vec<u8>) -> (call: Call<
        OnFile<WriteArgs>,
    >)
        requires
            old(self)@.can_call(),
        ensures
            ({
                let op = call.args.arg_array@[2];
                &&& call.asks(old(self)@.file_ops(handle, op))
                &&& op matches ArgOp::Write(args) && is_anonymous(args.state_id) && args.offset
                    == offset && args.stable == StableHow::FileSync && args.data == data
            }),
            final(self)@ == old(self)@.after_call(),
    {
        self.on_file(
            handle,
            WriteArgs { state_id: anonymous_state(), offset, stable: StableHow::FileSync, data },
        )
    }

    /// Asks the server to create a file that must not exist yet, and for its handle.
    pub fn create_file(&mut self, parent: FileHandle, name: &str, attrs: FileAttributes) -> (call:
        Call<OnEntry<OpenArgs>>)
        requires
            old(self)@.can_call(),
        ensures
            ({
                let op = call.args.arg_array@[2];
                &&& call.asks(old(self)@.entry_ops(parent, op))
                &&& op matches ArgOp::Open(args) && {
                    &&& args.sequence_id == SequenceId(0)
                    &&& args.share_access == SHARE_ACCESS_WRITE
                    &&& args.share_deny == SHARE_DENY_NONE
                    &&& args.owner.client_id == old(self)@.client_id
                    &&& args.owner.opaque@ == old(self)@.client_owner.owner_id@
                    &&& args.open_how == OpenFlag::OpenCreate(
                        CreateHow::Guarded { create_attrs: attrs },
                    )
                    &&& args.claim matches OpenClaim::Null { file } && file@ == name@
                }
            }),
            final(self)@ == old(self)@.after_call(),
    {
        let owner = StateOwner {
            client_id: self.client_id,
            opaque: clone_bytes(&self.client_owner.owner_id),
        };
        self.on_entry(
            parent,
            OpenArgs {
                sequence_id: SequenceId(0),
                share_access: SHARE_ACCESS_WRITE,
                share_deny: SHARE_DENY_NONE,
                owner,
                open_how: OpenFlag::OpenCreate(CreateHow::Guarded { create_attrs: attrs }),
                claim: OpenClaim::Null { file: name.to_owned() },
            },
        )
    }

    /// Asks the server to set attributes of a file.
    pub fn set_attr(&mut self, handle: FileHandle, attrs: FileAttributes) -> (call: Call<
        OnFile<SetAttrArgs>,
    >)
        requires
            old(self)@.can_call(),
        ensures
            ({
                let op = call.args.arg_array@[2];
                &&& call.asks(old(self)@.file_ops(handle, op))
                &&& op matches ArgOp::SetAttr(args) && is_anonymous(args.state_id)
                    && args.object_attributes == attrs
            }),
            final(self)@ == old(self)@.after_call(),
    {
        self.on_file(
            handle,
            SetAttrArgs { state_id: anonymous_state(), object_attributes: attrs },
        )
    }

    /// Asks the server to set attributes of a file, if the file has the attributes `verif_attrs`.
    pub fn set_attr_verified(
        &mut self,
        handle: FileHandle,
        attrs: FileAttributes,
        verif_attrs: FileAttributes,
    ) -> (call: Call<Sequenced<ReturnSecond<(PutFhArgs, VerifyArgs), SetAttrArgs>>>)
        requires
            old(self)@.can_call(),
        ensures
            ({
                let op = call.args.arg_array@[3];
                &&& call.asks(
                    seq![
                        old(self)@.sequence_op(),
                        ArgOp::PutFh(PutFhArgs { object: handle }),
                        ArgOp::Verify(VerifyArgs { object_attributes: verif_attrs }),
                        op,
                    ],
                )
                &&& op matches ArgOp::SetAttr(args) && is_anonymous(args.state_id)
                    && args.object_attributes == attrs
            }),
            final(self)@ == old(self)@.after_call(),
    {
        let set_attr = SetAttrArgs { state_id: anonymous_state(), object_attributes: attrs };
        let call = self.do_compound(
            ReturnSecond(
                (PutFhArgs { object: handle }, VerifyArgs { object_attributes: verif_attrs }),
                set_attr,
            ),
        );
        assert(call.args.arg_array@ =~= seq![
            old(self)@.sequence_op(),
            ArgOp::PutFh(PutFhArgs { object: handle }),
            ArgOp::Verify(VerifyArgs { object_attributes: verif_attrs }),
            ArgOp::SetAttr(set_attr),
        ]);
        call
    }

    /// Asks the server to remove an entry of a directory.
    pub fn remove(&mut self, handle: FileHandle, entry_name: &str) -> (call: Call<
        OnFile<RemoveArgs>,
    >)
        requires
            old(self)@.can_call(),
        ensures
            ({
                let op = call.args.arg_array@[2];
                &&& call.asks(old(self)@.file_ops(handle, op))
                &&& op matches ArgOp::Remove(args) && args.target@ == entry_name@
            }),
            final(self)@ == old(self)@.after_call(),
    {
        self.on_file(handle, RemoveArgs { target: entry_name.to_owned() })
    }

    /// Asks the server to move an entry of one directory to another.
    pub fn rename(
        &mut self,
        src_dir: FileHandle,
        target_dir: FileHandle,
        src_entry: &str,
        target_entry: &str,
    ) -> (call: Call<Sequenced<ReturnSecond<(PutFhArgs, SaveFh, PutFhArgs), RenameArgs>>>)
        requires
            old(self)@.can_call(),
        ensures
            ({
                let op = call.args.arg_array@[4];
                &&& call.asks(
                    seq![
                        old(self)@.sequence_op(),
                        ArgOp::PutFh(PutFhArgs { object: src_dir }),
                        ArgOp::SaveFh,
                        ArgOp::PutFh(PutFhArgs { object: target_dir }),
                        op,
                    ],
                )
                &&& op matches ArgOp::Rename(args) && args.old_name@ == src_entry@
                    && args.new_name@ == target_entry@
            }),
            final(self)@ == old(self)@.after_call(),
    {
        let rename = RenameArgs {
            old_name: src_entry.to_owned(),
            new_name: target_entry.to_owned(),
        };
        let call = self.do_compound(
            ReturnSecond(
                (PutFhArgs { object: src_dir }, SaveFh, PutFhArgs { object: target_dir }),
                rename,
            ),
        );
        assert(call.args.arg_array@ =~= seq![
            old(self)@.sequence_op(),
            ArgOp::PutFh(PutFhArgs { object: src_dir }),
            ArgOp::SaveFh,
            ArgOp::PutFh(PutFhArgs { object: target_dir }),
            ArgOp::Rename(rename),
        ]);
        call
    }

    /// Asks the server to create a directory, and for its handle.
    pub fn create_directory(
        &mut self,
        parent_dir: FileHandle,
        name: &str,
        attrs: FileAttributes,
    ) -> (call: Call<OnEntry<CreateArgs>>)
        requires
            old(self)@.can_call(),
        ensures
            ({
                let op = call.args.arg_array@[2];
                &&& call.asks(old(self)@.entry_ops(parent_dir, op))
                &&& op matches ArgOp::Create(args) && args.object_type == CreateType::Directory
                    && args.object_name@ == name@ && args.create_attrs == attrs
            }),
            final(self)@ == old(self)@.after_call(),
    {
        self.on_entry(
            parent_dir,
            CreateArgs {
                object_type: CreateType::Directory,
                object_name: name.to_owned(),
                create_attrs: attrs,
            },
        )
    }

    /// Asks the server to create a symbolic link to `src_path`, and for its handle.
    pub fn create_link(
        &mut self,
        src_path: &str,
        parent_dir: FileHandle,
        name: &str,
        attrs: FileAttributes,
    ) -> (call: Call<OnEntry<CreateArgs>>)
        requires
            old(self)@.can_call(),
        ensures
            ({
                let op = call.args.arg_array@[2];
                &&& call.asks(old(self)@.entry_ops(parent_dir, op))
                &&& op matches ArgOp::Create(args) && {
                    &&& args.object_type matches CreateType::Link(target) && target@ == src_path@
                    &&& args.object_name@ == name@
                    &&& args.create_attrs == attrs
                }
            }),
            final(self)@ == old(self)@.after_call(),
    {
        self.on_entry(
            parent_dir,
            CreateArgs {
                object_type: CreateType::Link(src_path.to_owned()),
                object_name: name.to_owned(),
                create_attrs: attrs,
            },
        )
    }

    /// Asks where a symbolic link leads.
    pub fn read_link(&mut self, handle: FileHandle) -> (call: Call<OnFile<ReadLink>>)
        requires
            old(self)@.can_call(),
        ensures
            call.asks(old(self)@.file_ops(handle, ArgOp::ReadLink)),
            final(self)@ == old(self)@.after_call(),
    {
        self.on_file(handle, ReadLink)
    }

    /// How much one `Read` returns at most.
    pub fn get_max_read_size(&self) -> (size: u64)
        ensures
            size == self@.max_read,
    {
        self.max_read
    }

    /// How much one `Write` takes at most.
    pub fn get_max_write_size(&self) -> (size: u64)
        ensures
            size == self@.max_write,
    {
        self.max_write
    }
}

} // verus!
