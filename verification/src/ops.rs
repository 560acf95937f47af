//! Operations of a compound request and the replies to them.
use crate::error::ErrorView;
use crate::protocol::{
    AccessArgs, CommitArgs, CreateArgs, CreateSessionArgs, CreateSessionRes, ExchangeIdArgs,
    ExchangeIdRes, GetAttrArgs, GetAttrRes, GetFhRes, LookUpArgs, OpenArgs, PutFhArgs, ReadArgs,
    ReadDirArgs, ReadDirRes, ReadRes, ReclaimCompleteArgs, RemoveArgs, RemoveRes, RenameArgs,
    SequenceArgs, SetAttrArgs, VerifyArgs, WriteArgs, WriteRes, LockStatusResult,
    SetAttrStatusResult, StatusResult,
};
use vstd::prelude::*;

verus! {

/// Kind of an operation.
#[derive(Debug, PartialEq, Eq, Structural, Clone, Copy)]
pub enum OperationId {
    Access,
    Close,
    Commit,
    Create,
    DelegPurge,
    DelegReturn,
    GetAttr,
    GetFh,
    Link,
    Lock,
    LockT,
    LockU,
    LookUp,
    LookUpP,
    NVerify,
    Open,
    OpenAttr,
    OpenDowngrade,
    PutFh,
    PutPubFh,
    PutRootFh,
    Read,
    ReadDir,
    ReadLink,
    Remove,
    Rename,
    RestoreFh,
    SaveFh,
    SecInfo,
    SetAttr,
    Verify,
    Write,
    BackchannelCtl,
    BindConnToSession,
    ExchangeId,
    CreateSession,
    DestroySession,
    FreeStateid,
    GetDirDelegation,
    GetDeviceInfo,
    GetDeviceList,
    LayoutCommit,
    LayoutGet,
    LayoutReturn,
    SecInfoNoName,
    Sequence,
    SetSsv,
    TestStateId,
    WantDelegation,
    DestroyClientId,
    ReclaimComplete,
}

impl OperationId {
    /// The operation's name.
    pub open spec fn spec_name(self) -> Seq<char> {
        match self {
            OperationId::Access => "Access"@,
            OperationId::Close => "Close"@,
            OperationId::Commit => "Commit"@,
            OperationId::Create => "Create"@,
            OperationId::DelegPurge => "DelegPurge"@,
            OperationId::DelegReturn => "DelegReturn"@,
            OperationId::GetAttr => "GetAttr"@,
            OperationId::GetFh => "GetFh"@,
            OperationId::Link => "Link"@,
            OperationId::Lock => "Lock"@,
            OperationId::LockT => "LockT"@,
            OperationId::LockU => "LockU"@,
            OperationId::LookUp => "LookUp"@,
            OperationId::LookUpP => "LookUpP"@,
            OperationId::NVerify => "NVerify"@,
            OperationId::Open => "Open"@,
            OperationId::OpenAttr => "OpenAttr"@,
            OperationId::OpenDowngrade => "OpenDowngrade"@,
            OperationId::PutFh => "PutFh"@,
            OperationId::PutPubFh => "PutPubFh"@,
            OperationId::PutRootFh => "PutRootFh"@,
            OperationId::Read => "Read"@,
            OperationId::ReadDir => "ReadDir"@,
            OperationId::ReadLink => "ReadLink"@,
            OperationId::Remove => "Remove"@,
            OperationId::Rename => "Rename"@,
            OperationId::RestoreFh => "RestoreFh"@,
            OperationId::SaveFh => "SaveFh"@,
            OperationId::SecInfo => "SecInfo"@,
            OperationId::SetAttr => "SetAttr"@,
            OperationId::Verify => "Verify"@,
            OperationId::Write => "Write"@,
            OperationId::BackchannelCtl => "BackchannelCtl"@,
            OperationId::BindConnToSession => "BindConnToSession"@,
            OperationId::ExchangeId => "ExchangeId"@,
            OperationId::CreateSession => "CreateSession"@,
            OperationId::DestroySession => "DestroySession"@,
            OperationId::FreeStateid => "FreeStateid"@,
            OperationId::GetDirDelegation => "GetDirDelegation"@,
            OperationId::GetDeviceInfo => "GetDeviceInfo"@,
            OperationId::GetDeviceList => "GetDeviceList"@,
            OperationId::LayoutCommit => "LayoutCommit"@,
            OperationId::LayoutGet => "LayoutGet"@,
            OperationId::LayoutReturn => "LayoutReturn"@,
            OperationId::SecInfoNoName => "SecInfoNoName"@,
            OperationId::Sequence => "Sequence"@,
            OperationId::SetSsv => "SetSsv"@,
            OperationId::TestStateId => "TestStateId"@,
            OperationId::WantDelegation => "WantDelegation"@,
            OperationId::DestroyClientId => "DestroyClientId"@,
            OperationId::ReclaimComplete => "ReclaimComplete"@,
        }
    }

    /// The operation's name.
    pub fn name(self) -> (name: &'static str)
        ensures
            name@ == self.spec_name(),
    {
        match self {
            OperationId::Access => "Access",
            OperationId::Close => "Close",
            OperationId::Commit => "Commit",
            OperationId::Create => "Create",
            OperationId::DelegPurge => "DelegPurge",
            OperationId::DelegReturn => "DelegReturn",
            OperationId::GetAttr => "GetAttr",
            OperationId::GetFh => "GetFh",
            OperationId::Link => "Link",
            OperationId::Lock => "Lock",
            OperationId::LockT => "LockT",
            OperationId::LockU => "LockU",
            OperationId::LookUp => "LookUp",
            OperationId::LookUpP => "LookUpP",
            OperationId::NVerify => "NVerify",
            OperationId::Open => "Open",
            OperationId::OpenAttr => "OpenAttr",
            OperationId::OpenDowngrade => "OpenDowngrade",
            OperationId::PutFh => "PutFh",
            OperationId::PutPubFh => "PutPubFh",
            OperationId::PutRootFh => "PutRootFh",
            OperationId::Read => "Read",
            OperationId::ReadDir => "ReadDir",
            OperationId::ReadLink => "ReadLink",
            OperationId::Remove => "Remove",
            OperationId::Rename => "Rename",
            OperationId::RestoreFh => "RestoreFh",
            OperationId::SaveFh => "SaveFh",
            OperationId::SecInfo => "SecInfo",
            OperationId::SetAttr => "SetAttr",
            OperationId::Verify => "Verify",
            OperationId::Write => "Write",
            OperationId::BackchannelCtl => "BackchannelCtl",
            OperationId::BindConnToSession => "BindConnToSession",
            OperationId::ExchangeId => "ExchangeId",
            OperationId::CreateSession => "CreateSession",
            OperationId::DestroySession => "DestroySession",
            OperationId::FreeStateid => "FreeStateid",
            OperationId::GetDirDelegation => "GetDirDelegation",
            OperationId::GetDeviceInfo => "GetDeviceInfo",
            OperationId::GetDeviceList => "GetDeviceList",
            OperationId::LayoutCommit => "LayoutCommit",
            OperationId::LayoutGet => "LayoutGet",
            OperationId::LayoutReturn => "LayoutReturn",
            OperationId::SecInfoNoName => "SecInfoNoName",
            OperationId::Sequence => "Sequence",
            OperationId::SetSsv => "SetSsv",
            OperationId::TestStateId => "TestStateId",
            OperationId::WantDelegation => "WantDelegation",
            OperationId::DestroyClientId => "DestroyClientId",
            OperationId::ReclaimComplete => "ReclaimComplete",
        }
    }
}

/// Operation to run, with its arguments.
#[derive(Debug, PartialEq, Eq)]
pub enum ArgOp {
    Access(AccessArgs),
    Close(nfs4::CloseArgs),
    Commit(CommitArgs),
    Create(CreateArgs),
    DelegPurge(nfs4::DelegPurgeArgs),
    DelegReturn(nfs4::DelegReturnArgs),
    GetAttr(GetAttrArgs),
    GetFh,
    Link(nfs4::LinkArgs),
    Lock(nfs4::LockArgs),
    LockT(nfs4::LockTArgs),
    LockU(nfs4::LockUArgs),
    LookUp(LookUpArgs),
    LookUpP,
    NVerify(nfs4::NVerifyArgs),
    Open(OpenArgs),
    OpenAttr(nfs4::OpenAttrArgs),
    OpenDowngrade(nfs4::OpenDowngradeArgs),
    PutFh(PutFhArgs),
    PutPubFh,
    PutRootFh,
    Read(ReadArgs),
    ReadDir(ReadDirArgs),
    ReadLink,
    Remove(RemoveArgs),
    Rename(RenameArgs),
    RestoreFh,
    SaveFh,
    SecInfo(nfs4::SecInfoArgs),
    SetAttr(SetAttrArgs),
    Verify(VerifyArgs),
    Write(WriteArgs),
    BackchannelCtl(nfs4::BackchannelCtlArgs),
    BindConnToSession(nfs4::BindConnToSessionArgs),
    ExchangeId(ExchangeIdArgs),
    CreateSession(CreateSessionArgs),
    DestroySession(nfs4::DestroySessionArgs),
    FreeStateid(nfs4::FreeStateidArgs),
    GetDirDelegation(nfs4::GetDirDelegationArgs),
    GetDeviceInfo(nfs4::GetDeviceInfoArgs),
    GetDeviceList(nfs4::GetDeviceListArgs),
    LayoutCommit(nfs4::LayoutCommitArgs),
    LayoutGet(nfs4::LayoutGetArgs),
    LayoutReturn(nfs4::LayoutReturnArgs),
    SecInfoNoName(nfs4::SecInfoNoNameArgs),
    Sequence(SequenceArgs),
    SetSsv(nfs4::SetSsvArgs),
    TestStateId(nfs4::TestStateIdArgs),
    WantDelegation(nfs4::WantDelegationArgs),
    DestroyClientId(nfs4::DestroyClientIdArgs),
    ReclaimComplete(ReclaimCompleteArgs),
}

impl ArgOp {
    /// Which operation this is.
    pub open spec fn operation(self) -> OperationId {
        match self {
            ArgOp::Access(_) => OperationId::Access,
            ArgOp::Close(_) => OperationId::Close,
            ArgOp::Commit(_) => OperationId::Commit,
            ArgOp::Create(_) => OperationId::Create,
            ArgOp::DelegPurge(_) => OperationId::DelegPurge,
            ArgOp::DelegReturn(_) => OperationId::DelegReturn,
            ArgOp::GetAttr(_) => OperationId::GetAttr,
            ArgOp::GetFh => OperationId::GetFh,
            ArgOp::Link(_) => OperationId::Link,
            ArgOp::Lock(_) => OperationId::Lock,
            ArgOp::LockT(_) => OperationId::LockT,
            ArgOp::LockU(_) => OperationId::LockU,
            ArgOp::LookUp(_) => OperationId::LookUp,
            ArgOp::LookUpP => OperationId::LookUpP,
            ArgOp::NVerify(_) => OperationId::NVerify,
            ArgOp::Open(_) => OperationId::Open,
            ArgOp::OpenAttr(_) => OperationId::OpenAttr,
            ArgOp::OpenDowngrade(_) => OperationId::OpenDowngrade,
            ArgOp::PutFh(_) => OperationId::PutFh,
            ArgOp::PutPubFh => OperationId::PutPubFh,
            ArgOp::PutRootFh => OperationId::PutRootFh,
            ArgOp::Read(_) => OperationId::Read,
            ArgOp::ReadDir(_) => OperationId::ReadDir,
            ArgOp::ReadLink => OperationId::ReadLink,
            ArgOp::Remove(_) => OperationId::Remove,
            ArgOp::Rename(_) => OperationId::Rename,
            ArgOp::RestoreFh => OperationId::RestoreFh,
            ArgOp::SaveFh => OperationId::SaveFh,
            ArgOp::SecInfo(_) => OperationId::SecInfo,
            ArgOp::SetAttr(_) => OperationId::SetAttr,
            ArgOp::Verify(_) => OperationId::Verify,
            ArgOp::Write(_) => OperationId::Write,
            ArgOp::BackchannelCtl(_) => OperationId::BackchannelCtl,
            ArgOp::BindConnToSession(_) => OperationId::BindConnToSession,
            ArgOp::ExchangeId(_) => OperationId::ExchangeId,
            ArgOp::CreateSession(_) => OperationId::CreateSession,
            ArgOp::DestroySession(_) => OperationId::DestroySession,
            ArgOp::FreeStateid(_) => OperationId::FreeStateid,
            ArgOp::GetDirDelegation(_) => OperationId::GetDirDelegation,
            ArgOp::GetDeviceInfo(_) => OperationId::GetDeviceInfo,
            ArgOp::GetDeviceList(_) => OperationId::GetDeviceList,
            ArgOp::LayoutCommit(_) => OperationId::LayoutCommit,
            ArgOp::LayoutGet(_) => OperationId::LayoutGet,
            ArgOp::LayoutReturn(_) => OperationId::LayoutReturn,
            ArgOp::SecInfoNoName(_) => OperationId::SecInfoNoName,
            ArgOp::Sequence(_) => OperationId::Sequence,
            ArgOp::SetSsv(_) => OperationId::SetSsv,
            ArgOp::TestStateId(_) => OperationId::TestStateId,
            ArgOp::WantDelegation(_) => OperationId::WantDelegation,
            ArgOp::DestroyClientId(_) => OperationId::DestroyClientId,
            ArgOp::ReclaimComplete(_) => OperationId::ReclaimComplete,
        }
    }
}

/// Reply to one operation.
#[derive(Debug, PartialEq, Eq)]
pub enum ResOp {
    Access(StatusResult<nfs4::AccessRes>),
    Close(StatusResult<nfs4::CloseRes>),
    Commit(StatusResult<nfs4::CommitRes>),
    Create(StatusResult<nfs4::CreateRes>),
    DelegPurge(StatusResult<()>),
    DelegReturn(StatusResult<()>),
    GetAttr(StatusResult<GetAttrRes>),
    GetFh(StatusResult<GetFhRes>),
    Link(LockStatusResult<nfs4::LinkRes>),
    Lock(LockStatusResult<nfs4::LockRes>),
    LockT(StatusResult<()>),
    LockU(StatusResult<nfs4::LockURes>),
    LookUp(StatusResult<()>),
    LookUpP(StatusResult<()>),
    NVerify(StatusResult<()>),
    Open(StatusResult<nfs4::OpenRes>),
    OpenAttr(StatusResult<()>),
    OpenDowngrade(StatusResult<nfs4::OpenDowngradeRes>),
    PutFh(StatusResult<()>),
    PutPubFh(StatusResult<()>),
    PutRootFh(StatusResult<()>),
    Read(StatusResult<ReadRes>),
    ReadDir(StatusResult<ReadDirRes>),
    ReadLink(StatusResult<nfs4::ReadLinkRes>),
    Remove(StatusResult<RemoveRes>),
    Rename(StatusResult<nfs4::RenameRes>),
    RestoreFh(StatusResult<()>),
    SaveFh(StatusResult<()>),
    SecInfo(StatusResult<nfs4::SecInfoRes>),
    SetAttr(SetAttrStatusResult),
    Verify(StatusResult<()>),
    Write(StatusResult<WriteRes>),
    BackchannelCtl(StatusResult<()>),
    BindConnToSession(StatusResult<nfs4::BindConnToSessionRes>),
    ExchangeId(StatusResult<ExchangeIdRes>),
    CreateSession(StatusResult<CreateSessionRes>),
    DestroySession(StatusResult<()>),
    FreeStateid(StatusResult<()>),
    GetDirDelegation(StatusResult<nfs4::GetDirDelegationRes>),
    GetDeviceInfo(StatusResult<nfs4::GetDeviceInfoRes>),
    GetDeviceList(StatusResult<nfs4::GetDeviceListRes>),
    LayoutCommit(StatusResult<nfs4::LayoutCommitRes>),
    LayoutGet(StatusResult<nfs4::LayoutGetRes>),
    LayoutReturn(StatusResult<nfs4::LayoutReturnRes>),
    SecInfoNoName(StatusResult<nfs4::SecInfoRes>),
    Sequence(StatusResult<nfs4::SequenceRes>),
    SetSsv(StatusResult<nfs4::SetSsvRes>),
    TestStateId(StatusResult<nfs4::TestStateIdRes>),
    WantDelegation(StatusResult<nfs4::WantDelegationRes>),
    DestroyClientId(StatusResult<()>),
    ReclaimComplete(StatusResult<()>),
}

/// The error that a status stands for, if it is not success.
pub open spec fn status_failure<T>(status: StatusResult<T>) -> Option<ErrorView> {
    match status {
        Ok(_) => None,
        Err(e) => Some(ErrorView::Protocol(e)),
    }
}

/// The error that the status of a lock or link operation stands for, if it is not success.
pub open spec fn lock_status_failure<T>(status: LockStatusResult<T>) -> Option<ErrorView> {
    match status {
        Ok(_) => None,
        Err(e) => Some(ErrorView::Lock(e)),
    }
}

impl ResOp {
    /// Which operation this answers.
    pub open spec fn operation(self) -> OperationId {
        match self {
            ResOp::Access(_) => OperationId::Access,
            ResOp::Close(_) => OperationId::Close,
            ResOp::Commit(_) => OperationId::Commit,
            ResOp::Create(_) => OperationId::Create,
            ResOp::DelegPurge(_) => OperationId::DelegPurge,
            ResOp::DelegReturn(_) => OperationId::DelegReturn,
            ResOp::GetAttr(_) => OperationId::GetAttr,
            ResOp::GetFh(_) => OperationId::GetFh,
            ResOp::Link(_) => OperationId::Link,
            ResOp::Lock(_) => OperationId::Lock,
            ResOp::LockT(_) => OperationId::LockT,
            ResOp::LockU(_) => OperationId::LockU,
            ResOp::LookUp(_) => OperationId::LookUp,
            ResOp::LookUpP(_) => OperationId::LookUpP,
            ResOp::NVerify(_) => OperationId::NVerify,
            ResOp::Open(_) => OperationId::Open,
            ResOp::OpenAttr(_) => OperationId::OpenAttr,
            ResOp::OpenDowngrade(_) => OperationId::OpenDowngrade,
            ResOp::PutFh(_) => OperationId::PutFh,
            ResOp::PutPubFh(_) => OperationId::PutPubFh,
            ResOp::PutRootFh(_) => OperationId::PutRootFh,
            ResOp::Read(_) => OperationId::Read,
            ResOp::ReadDir(_) => OperationId::ReadDir,
            ResOp::ReadLink(_) => OperationId::ReadLink,
            ResOp::Remove(_) => OperationId::Remove,
            ResOp::Rename(_) => OperationId::Rename,
            ResOp::RestoreFh(_) => OperationId::RestoreFh,
            ResOp::SaveFh(_) => OperationId::SaveFh,
            ResOp::SecInfo(_) => OperationId::SecInfo,
            ResOp::SetAttr(_) => OperationId::SetAttr,
            ResOp::Verify(_) => OperationId::Verify,
            ResOp::Write(_) => OperationId::Write,
            ResOp::BackchannelCtl(_) => OperationId::BackchannelCtl,
            ResOp::BindConnToSession(_) => OperationId::BindConnToSession,
            ResOp::ExchangeId(_) => OperationId::ExchangeId,
            ResOp::CreateSession(_) => OperationId::CreateSession,
            ResOp::DestroySession(_) => OperationId::DestroySession,
            ResOp::FreeStateid(_) => OperationId::FreeStateid,
            ResOp::GetDirDelegation(_) => OperationId::GetDirDelegation,
            ResOp::GetDeviceInfo(_) => OperationId::GetDeviceInfo,
            ResOp::GetDeviceList(_) => OperationId::GetDeviceList,
            ResOp::LayoutCommit(_) => OperationId::LayoutCommit,
            ResOp::LayoutGet(_) => OperationId::LayoutGet,
            ResOp::LayoutReturn(_) => OperationId::LayoutReturn,
            ResOp::SecInfoNoName(_) => OperationId::SecInfoNoName,
            ResOp::Sequence(_) => OperationId::Sequence,
            ResOp::SetSsv(_) => OperationId::SetSsv,
            ResOp::TestStateId(_) => OperationId::TestStateId,
            ResOp::WantDelegation(_) => OperationId::WantDelegation,
            ResOp::DestroyClientId(_) => OperationId::DestroyClientId,
            ResOp::ReclaimComplete(_) => OperationId::ReclaimComplete,
        }
    }

    /// The error that this reply reports, if the operation failed.
    pub open spec fn failure(self) -> Option<ErrorView> {
        match self {
            ResOp::Access(res) => status_failure(res),
            ResOp::Close(res) => status_failure(res),
            ResOp::Commit(res) => status_failure(res),
            ResOp::Create(res) => status_failure(res),
            ResOp::DelegPurge(res) => status_failure(res),
            ResOp::DelegReturn(res) => status_failure(res),
            ResOp::GetAttr(res) => status_failure(res),
            ResOp::GetFh(res) => status_failure(res),
            ResOp::Link(res) => lock_status_failure(res),
            ResOp::Lock(res) => lock_status_failure(res),
            ResOp::LockT(res) => status_failure(res),
            ResOp::LockU(res) => status_failure(res),
            ResOp::LookUp(res) => status_failure(res),
            ResOp::LookUpP(res) => status_failure(res),
            ResOp::NVerify(res) => status_failure(res),
            ResOp::Open(res) => status_failure(res),
            ResOp::OpenAttr(res) => status_failure(res),
            ResOp::OpenDowngrade(res) => status_failure(res),
            ResOp::PutFh(res) => status_failure(res),
            ResOp::PutPubFh(res) => status_failure(res),
            ResOp::PutRootFh(res) => status_failure(res),
            ResOp::Read(res) => status_failure(res),
            ResOp::ReadDir(res) => status_failure(res),
            ResOp::ReadLink(res) => status_failure(res),
            ResOp::Remove(res) => status_failure(res),
            ResOp::Rename(res) => status_failure(res),
            ResOp::RestoreFh(res) => status_failure(res),
            ResOp::SaveFh(res) => status_failure(res),
            ResOp::SecInfo(res) => status_failure(res),
            ResOp::SetAttr(res) => status_failure(res.status),
            ResOp::Verify(res) => status_failure(res),
            ResOp::Write(res) => status_failure(res),
            ResOp::BackchannelCtl(res) => status_failure(res),
            ResOp::BindConnToSession(res) => status_failure(res),
            ResOp::ExchangeId(res) => status_failure(res),
            ResOp::CreateSession(res) => status_failure(res),
            ResOp::DestroySession(res) => status_failure(res),
            ResOp::FreeStateid(res) => status_failure(res),
            ResOp::GetDirDelegation(res) => status_failure(res),
            ResOp::GetDeviceInfo(res) => status_failure(res),
            ResOp::GetDeviceList(res) => status_failure(res),
            ResOp::LayoutCommit(res) => status_failure(res),
            ResOp::LayoutGet(res) => status_failure(res),
            ResOp::LayoutReturn(res) => status_failure(res),
            ResOp::SecInfoNoName(res) => status_failure(res),
            ResOp::Sequence(res) => status_failure(res),
            ResOp::SetSsv(res) => status_failure(res),
            ResOp::TestStateId(res) => status_failure(res),
            ResOp::WantDelegation(res) => status_failure(res),
            ResOp::DestroyClientId(res) => status_failure(res),
            ResOp::ReclaimComplete(res) => status_failure(res),
        }
    }
}

/// Compound request: operations that the server runs one after the other.
#[derive(Debug, PartialEq, Eq)]
pub struct CompoundArgs {
    pub tag: String,
    pub minor_version: u32,
    pub arg_array: Vec<ArgOp>,
}

/// Reply to a compound request.
#[derive(Debug, PartialEq, Eq)]
pub struct CompoundRes {
    pub status: StatusResult<()>,
    pub tag: String,
    pub res_array: Vec<ResOp>,
}

} // verus!
