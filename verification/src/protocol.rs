//! Values of the NFSv4.1 protocol that the client builds or reads.
use vstd::prelude::*;

verus! {

/// Attributes of a file, by attribute id.
pub type FileAttributes = nfs4::EnumMap<nfs4::FileAttributeId, nfs4::FileAttribute>;

/// Set of attribute ids.
pub type AttrSet = nfs4::EnumSet<nfs4::FileAttributeId>;

/// Name that a server gives to a file.
#[derive(Debug, PartialEq, Eq)]
pub struct FileHandle(pub Vec<u8>);

impl View for FileHandle {
    type V = Seq<u8>;

    open spec fn view(&self) -> Seq<u8> {
        self.0@
    }
}

impl Clone for FileHandle {
    fn clone(&self) -> (copy: Self)
        ensures
            copy@ == self@,
    {
        FileHandle(clone_bytes(&self.0))
    }
}

/// Copy of a byte string.
pub fn clone_bytes(bytes: &Vec<u8>) -> (copy: Vec<u8>)
    ensures
        copy@ == bytes@,
{
    let copy = bytes.clone();
    assert(copy@ =~= bytes@);
    copy
}

/// Opaque value that a peer hands back unchanged.
#[derive(Debug, PartialEq, Eq, Clone, Copy)]
pub struct Verifier(pub u64);

/// Position in a directory listing.
#[derive(Debug, PartialEq, Eq, Clone, Copy)]
pub struct Cookie(pub u64);

/// Number of a request within its slot.
#[derive(Debug, PartialEq, Eq, Clone, Copy)]
pub struct SequenceId(pub u32);

/// Slot of a session.
#[derive(Debug, PartialEq, Eq, Clone, Copy)]
pub struct SlotId(pub u32);

/// Name that a server gives to a client.
#[derive(Debug, PartialEq, Eq, Clone, Copy)]
pub struct ClientId(pub u64);

/// Name that a server gives to a session.
#[derive(Debug, PartialEq, Eq, Clone, Copy)]
pub struct SessionId(pub [u8; 16]);

/// Open or lock state that an operation runs under.
#[derive(Debug, PartialEq, Eq, Clone, Copy)]
pub struct StateId {
    pub sequence_id: u32,
    pub other: [u8; 12],
}

/// How a client names itself to a server.
#[derive(Debug, PartialEq, Eq)]
pub struct ClientOwner {
    pub verifier: Verifier,
    pub owner_id: Vec<u8>,
}

impl Clone for ClientOwner {
    fn clone(&self) -> (copy: Self)
        ensures
            copy.verifier == self.verifier,
            copy.owner_id@ == self.owner_id@,
    {
        ClientOwner { verifier: self.verifier, owner_id: clone_bytes(&self.owner_id) }
    }
}

/// Owner of open state.
#[derive(Debug, PartialEq, Eq)]
pub struct StateOwner {
    pub client_id: ClientId,
    pub opaque: Vec<u8>,
}

/// Outcome of an operation.
pub type StatusResult<T> = std::result::Result<T, nfs4::StatusError>;

/// Outcome of an operation that can run into a lock.
pub type LockStatusResult<T> = std::result::Result<T, nfs4::LockStatusError>;

/// Outcome of `SetAttr`, which tells what was set even when it failed.
#[derive(Debug, PartialEq, Eq)]
pub struct SetAttrStatusResult {
    pub status: StatusResult<()>,
    pub res: nfs4::SetAttrRes,
}

/// Kind of object that `Create` makes.
#[derive(Debug, PartialEq, Eq)]
pub enum CreateType {
    Directory,
    Block,
    Character(nfs4::DeviceData),
    Link(String),
    Socket,
    Fifo,
}

/// How `Open` treats a file that is not there.
#[derive(Debug, PartialEq, Eq)]
pub enum OpenFlag {
    OpenNoCreate,
    OpenCreate(CreateHow),
}

/// How `Open` creates a file.
#[derive(Debug, PartialEq, Eq)]
pub enum CreateHow {
    Unchecked,
    Guarded { create_attrs: FileAttributes },
    Exclusive { create_verifier: Verifier },
    ExclusiveBoth { create_verifier: Verifier, create_attrs: FileAttributes },
}

/// What `Open` opens.
#[derive(Debug, PartialEq, Eq)]
pub enum OpenClaim {
    Null { file: String },
    Previous { delegate_type: nfs4::OpenDelegationType },
    DelegateCurrent { delegate_current_info: nfs4::OpenClaimDelegateCurrent },
    DelegatePrevious { file_delegate_previous: String },
    Fh,
    DelegateCurrentFh { oc_delegate_state_id: StateId },
    PreviousFh,
}

/// How far written data has to have got before the server answers.
#[derive(Debug, PartialEq, Eq, Clone, Copy)]
pub enum StableHow {
    Unstable,
    DataSync,
    FileSync,
}

/// Protection of a client's state against other clients.
#[derive(Debug, PartialEq, Eq)]
pub enum StateProtection {
    Unprotected,
    MachCred(nfs4::StateProtectOps),
    Ssv(nfs4::SsvStateProtectParams),
}

/// Limits of one direction of a session.
#[derive(Debug, PartialEq, Eq, Clone, Copy)]
pub struct ChannelAttrs {
    pub header_pad_size: u32,
    pub max_request_size: u32,
    pub max_response_size: u32,
    pub max_response_size_cached: u32,
    pub max_operations: u32,
    pub max_requests: u32,
    pub rdma_ird: Option<u32>,
}

/// Arguments of `Access`: the permissions to ask about, one bit each.
#[derive(Debug, PartialEq, Eq)]
pub struct AccessArgs {
    pub access: u32,
}

#[derive(Debug, PartialEq, Eq)]
pub struct CommitArgs {
    pub offset: u64,
    pub count: u32,
}

#[derive(Debug, PartialEq, Eq)]
pub struct CreateArgs {
    pub object_type: CreateType,
    pub object_name: String,
    pub create_attrs: FileAttributes,
}

#[derive(Debug, PartialEq, Eq)]
pub struct GetAttrArgs {
    pub attr_request: AttrSet,
}

#[derive(Debug, PartialEq, Eq)]
pub struct LookUpArgs {
    pub object_name: String,
}

#[derive(Debug, PartialEq, Eq)]
pub struct OpenArgs {
    pub sequence_id: SequenceId,
    pub share_access: u32,
    pub share_deny: u32,
    pub owner: StateOwner,
    pub open_how: OpenFlag,
    pub claim: OpenClaim,
}

#[derive(Debug, PartialEq, Eq)]
pub struct PutFhArgs {
    pub object: FileHandle,
}

#[derive(Debug, PartialEq, Eq)]
pub struct ReadArgs {
    pub state_id: StateId,
    pub offset: u64,
    pub count: u32,
}

#[derive(Debug, PartialEq, Eq)]
pub struct ReadDirArgs {
    pub cookie: Cookie,
    pub cookie_verifier: Verifier,
    pub directory_count: u32,
    pub max_count: u32,
    pub attr_request: AttrSet,
}

#[derive(Debug, PartialEq, Eq)]
pub struct RemoveArgs {
    pub target: String,
}

#[derive(Debug, PartialEq, Eq)]
pub struct RenameArgs {
    pub old_name: String,
    pub new_name: String,
}

#[derive(Debug, PartialEq, Eq)]
pub struct SetAttrArgs {
    pub state_id: StateId,
    pub object_attributes: FileAttributes,
}

#[derive(Debug, PartialEq, Eq)]
pub struct VerifyArgs {
    pub object_attributes: FileAttributes,
}

#[derive(Debug, PartialEq, Eq)]
pub struct WriteArgs {
    pub state_id: StateId,
    pub offset: u64,
    pub stable: StableHow,
    pub data: Vec<u8>,
}

#[derive(Debug, PartialEq, Eq)]
pub struct ExchangeIdArgs {
    pub client_owner: ClientOwner,
    pub flags: u32,
    pub state_protect: StateProtection,
    pub client_impl_id: Option<nfs4::ImplId>,
}

#[derive(Debug, PartialEq, Eq)]
pub struct CreateSessionArgs {
    pub client_id: ClientId,
    pub sequence_id: SequenceId,
    pub flags: u32,
    pub fore_channel_attrs: ChannelAttrs,
    pub back_channel_attrs: ChannelAttrs,
    pub program: u32,
    pub security_parameters: Vec<nfs4::CallbackSecurityParameters>,
}

#[derive(Debug, PartialEq, Eq, Clone, Copy)]
pub struct SequenceArgs {
    pub session_id: SessionId,
    pub sequence_id: SequenceId,
    pub slot_id: SlotId,
    pub highest_slot_id: SlotId,
    pub cache_this: bool,
}

#[derive(Debug, PartialEq, Eq)]
pub struct ReclaimCompleteArgs {
    pub one_fs: bool,
}

#[derive(Debug, PartialEq, Eq)]
pub struct GetAttrRes {
    pub object_attributes: FileAttributes,
}

#[derive(Debug, PartialEq, Eq)]
pub struct GetFhRes {
    pub object: FileHandle,
}

#[derive(Debug, PartialEq, Eq)]
pub struct ReadRes {
    pub eof: bool,
    pub data: Vec<u8>,
}

/// One entry of a directory listing.
#[derive(Debug, PartialEq, Eq)]
pub struct DirectoryEntry {
    pub cookie: Cookie,
    pub name: String,
    pub attrs: FileAttributes,
}

/// Part of a directory listing; `eof` marks the last part.
#[derive(Debug, PartialEq, Eq)]
pub struct DirectoryList {
    pub entries: Vec<DirectoryEntry>,
    pub eof: bool,
}

#[derive(Debug, PartialEq, Eq)]
pub struct ReadDirRes {
    pub cookie_verifier: Verifier,
    pub reply: DirectoryList,
}

#[derive(Debug, PartialEq, Eq)]
pub struct RemoveRes {
    pub change_info: nfs4::ChangeInfo,
}

#[derive(Debug, PartialEq, Eq)]
pub struct WriteRes {
    pub count: u32,
    pub committed: StableHow,
    pub write_veritifer: Verifier,
}

#[derive(Debug, PartialEq, Eq)]
pub struct ExchangeIdRes {
    pub client_id: ClientId,
    pub sequence_id: SequenceId,
    pub flags: nfs4::ExchangeIdFlags,
    pub state_protect: nfs4::StateProtect,
    pub server_owner: nfs4::ServerOwner,
    pub server_scope: nfs4::ServerScope,
    pub server_impl_id: Option<nfs4::ImplId>,
}

#[derive(Debug, PartialEq, Eq)]
pub struct CreateSessionRes {
    pub session_id: SessionId,
    pub sequence_id: SequenceId,
    pub flags: nfs4::CreateSessionFlags,
    pub fore_channel_attrs: ChannelAttrs,
    pub back_channel_attrs: ChannelAttrs,
}

} // verus!
