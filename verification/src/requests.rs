//! The operations of the protocol, each as a request of its own.
use crate::compound::CompoundOp;
use crate::error::{Result, TempResult};
use crate::ops::{ArgOp, OperationId, ResOp};
use crate::protocol::{
    AccessArgs, CommitArgs, CreateArgs, CreateSessionArgs, CreateSessionRes, ExchangeIdArgs,
    ExchangeIdRes, GetAttrArgs, GetAttrRes, GetFhRes, LookUpArgs, OpenArgs, PutFhArgs, ReadArgs,
    ReadDirArgs, ReadDirRes, ReadRes, ReclaimCompleteArgs, RemoveArgs, RemoveRes, RenameArgs,
    SequenceArgs, SetAttrArgs, VerifyArgs, WriteArgs, WriteRes,
};
use vstd::prelude::*;
use vstd::std_specs::convert::FromSpecImpl;

verus! {

/// Asks for the handle of the current file.
#[derive(Debug, PartialEq, Eq, Clone, Copy)]
pub struct GetFh;

/// Goes to the parent of the current directory.
#[derive(Debug, PartialEq, Eq, Clone, Copy)]
pub struct LookUpP;

/// Makes the server's public file the current one.
#[derive(Debug, PartialEq, Eq, Clone, Copy)]
pub struct PutPubFh;

/// Makes the root of the server's name space the current file.
#[derive(Debug, PartialEq, Eq, Clone, Copy)]
pub struct PutRootFh;

/// Reads the current symbolic link.
#[derive(Debug, PartialEq, Eq, Clone, Copy)]
pub struct ReadLink;

/// Makes the saved file the current one.
#[derive(Debug, PartialEq, Eq, Clone, Copy)]
pub struct RestoreFh;

/// Saves the current file.
#[derive(Debug, PartialEq, Eq, Clone, Copy)]
pub struct SaveFh;

impl CompoundOp for AccessArgs {
    type Res = nfs4::AccessRes;

    open spec fn spec_operation() -> OperationId {
        OperationId::Access
    }

    open spec fn arg_op(self) -> ArgOp {
        ArgOp::Access(self)
    }

    open spec fn gives(reply: ResOp, res: Self::Res) -> bool {
        reply == ResOp::Access(Ok(res))
    }

    proof fn lemma_arg_op(self) {
    }

    fn operation() -> (id: OperationId) {
        OperationId::Access
    }

    fn into_arg_op(self) -> (op: ArgOp) {
        ArgOp::Access(self)
    }

    fn take_reply(reply: ResOp) -> (taken: std::result::Result<Result<Self::Res>, ResOp>) {
        match reply {
            ResOp::Access(res) => Ok(TempResult::from(res).0),
            other => Err(other),
        }
    }
}

impl CompoundOp for nfs4::CloseArgs {
    type Res = nfs4::CloseRes;

    open spec fn spec_operation() -> OperationId {
        OperationId::Close
    }

    open spec fn arg_op(self) -> ArgOp {
        ArgOp::Close(self)
    }

    open spec fn gives(reply: ResOp, res: Self::Res) -> bool {
        reply == ResOp::Close(Ok(res))
    }

    proof fn lemma_arg_op(self) {
    }

    fn operation() -> (id: OperationId) {
        OperationId::Close
    }

    fn into_arg_op(self) -> (op: ArgOp) {
        ArgOp::Close(self)
    }

    fn take_reply(reply: ResOp) -> (taken: std::result::Result<Result<Self::Res>, ResOp>) {
        match reply {
            ResOp::Close(res) => Ok(TempResult::from(res).0),
            other => Err(other),
        }
    }
}

impl CompoundOp for CommitArgs {
    type Res = nfs4::CommitRes;

    open spec fn spec_operation() -> OperationId {
        OperationId::Commit
    }

    open spec fn arg_op(self) -> ArgOp {
        ArgOp::Commit(self)
    }

    open spec fn gives(reply: ResOp, res: Self::Res) -> bool {
        reply == ResOp::Commit(Ok(res))
    }

    proof fn lemma_arg_op(self) {
    }

    fn operation() -> (id: OperationId) {
        OperationId::Commit
    }

    fn into_arg_op(self) -> (op: ArgOp) {
        ArgOp::Commit(self)
    }

    fn take_reply(reply: ResOp) -> (taken: std::result::Result<Result<Self::Res>, ResOp>) {
        match reply {
            ResOp::Commit(res) => Ok(TempResult::from(res).0),
            other => Err(other),
        }
    }
}

impl CompoundOp for CreateArgs {
    type Res = nfs4::CreateRes;

    open spec fn spec_operation() -> OperationId {
        OperationId::Create
    }

    open spec fn arg_op(self) -> ArgOp {
        ArgOp::Create(self)
    }

    open spec fn gives(reply: ResOp, res: Self::Res) -> bool {
        reply == ResOp::Create(Ok(res))
    }

    proof fn lemma_arg_op(self) {
    }

    fn operation() -> (id: OperationId) {
        OperationId::Create
    }

    fn into_arg_op(self) -> (op: ArgOp) {
        ArgOp::Create(self)
    }

    fn take_reply(reply: ResOp) -> (taken: std::result::Result<Result<Self::Res>, ResOp>) {
        match reply {
            ResOp::Create(res) => Ok(TempResult::from(res).0),
            other => Err(other),
        }
    }
}

impl CompoundOp for nfs4::DelegPurgeArgs {
    type Res = ();

    open spec fn spec_operation() -> OperationId {
        OperationId::DelegPurge
    }

    open spec fn arg_op(self) -> ArgOp {
        ArgOp::DelegPurge(self)
    }

    open spec fn gives(reply: ResOp, res: Self::Res) -> bool {
        reply == ResOp::DelegPurge(Ok(res))
    }

    proof fn lemma_arg_op(self) {
    }

    fn operation() -> (id: OperationId) {
        OperationId::DelegPurge
    }

    fn into_arg_op(self) -> (op: ArgOp) {
        ArgOp::DelegPurge(self)
    }

    fn take_reply(reply: ResOp) -> (taken: std::result::Result<Result<Self::Res>, ResOp>) {
        match reply {
            ResOp::DelegPurge(res) => Ok(TempResult::from(res).0),
            other => Err(other),
        }
    }
}

impl CompoundOp for nfs4::DelegReturnArgs {
    type Res = ();

    open spec fn spec_operation() -> OperationId {
        OperationId::DelegReturn
    }

    open spec fn arg_op(self) -> ArgOp {
        ArgOp::DelegReturn(self)
    }

    open spec fn gives(reply: ResOp, res: Self::Res) -> bool {
        reply == ResOp::DelegReturn(Ok(res))
    }

    proof fn lemma_arg_op(self) {
    }

    fn operation() -> (id: OperationId) {
        OperationId::DelegReturn
    }

    fn into_arg_op(self) -> (op: ArgOp) {
        ArgOp::DelegReturn(self)
    }

    fn take_reply(reply: ResOp) -> (taken: std::result::Result<Result<Self::Res>, ResOp>) {
        match reply {
            ResOp::DelegReturn(res) => Ok(TempResult::from(res).0),
            other => Err(other),
        }
    }
}

impl CompoundOp for GetAttrArgs {
    type Res = GetAttrRes;

    open spec fn spec_operation() -> OperationId {
        OperationId::GetAttr
    }

    open spec fn arg_op(self) -> ArgOp {
        ArgOp::GetAttr(self)
    }

    open spec fn gives(reply: ResOp, res: Self::Res) -> bool {
        reply == ResOp::GetAttr(Ok(res))
    }

    proof fn lemma_arg_op(self) {
    }

    fn operation() -> (id: OperationId) {
        OperationId::GetAttr
    }

    fn into_arg_op(self) -> (op: ArgOp) {
        ArgOp::GetAttr(self)
    }

    fn take_reply(reply: ResOp) -> (taken: std::result::Result<Result<Self::Res>, ResOp>) {
        match reply {
            ResOp::GetAttr(res) => Ok(TempResult::from(res).0),
            other => Err(other),
        }
    }
}

impl FromSpecImpl<GetFh> for ArgOp {
    open spec fn obeys_from_spec() -> bool {
        true
    }

    open spec fn from_spec(op: GetFh) -> Self {
        ArgOp::GetFh
    }
}

impl From<GetFh> for ArgOp {
    fn from(_op: GetFh) -> Self {
        ArgOp::GetFh
    }
}

impl CompoundOp for GetFh {
    type Res = GetFhRes;

    open spec fn spec_operation() -> OperationId {
        OperationId::GetFh
    }

    open spec fn arg_op(self) -> ArgOp {
        ArgOp::GetFh
    }

    open spec fn gives(reply: ResOp, res: Self::Res) -> bool {
        reply == ResOp::GetFh(Ok(res))
    }

    proof fn lemma_arg_op(self) {
    }

    fn operation() -> (id: OperationId) {
        OperationId::GetFh
    }

    fn into_arg_op(self) -> (op: ArgOp) {
        ArgOp::GetFh
    }

    fn take_reply(reply: ResOp) -> (taken: std::result::Result<Result<Self::Res>, ResOp>) {
        match reply {
            ResOp::GetFh(res) => Ok(TempResult::from(res).0),
            other => Err(other),
        }
    }
}

impl CompoundOp for nfs4::LinkArgs {
    type Res = nfs4::LinkRes;

    open spec fn spec_operation() -> OperationId {
        OperationId::Link
    }

    open spec fn arg_op(self) -> ArgOp {
        ArgOp::Link(self)
    }

    open spec fn gives(reply: ResOp, res: Self::Res) -> bool {
        reply == ResOp::Link(Ok(res))
    }

    proof fn lemma_arg_op(self) {
    }

    fn operation() -> (id: OperationId) {
        OperationId::Link
    }

    fn into_arg_op(self) -> (op: ArgOp) {
        ArgOp::Link(self)
    }

    fn take_reply(reply: ResOp) -> (taken: std::result::Result<Result<Self::Res>, ResOp>) {
        match reply {
            ResOp::Link(res) => Ok(TempResult::from(res).0),
            other => Err(other),
        }
    }
}

impl CompoundOp for nfs4::LockArgs {
    type Res = nfs4::LockRes;

    open spec fn spec_operation() -> OperationId {
        OperationId::Lock
    }

    open spec fn arg_op(self) -> ArgOp {
        ArgOp::Lock(self)
    }

    open spec fn gives(reply: ResOp, res: Self::Res) -> bool {
        reply == ResOp::Lock(Ok(res))
    }

    proof fn lemma_arg_op(self) {
    }

    fn operation() -> (id: OperationId) {
        OperationId::Lock
    }

    fn into_arg_op(self) -> (op: ArgOp) {
        ArgOp::Lock(self)
    }

    fn take_reply(reply: ResOp) -> (taken: std::result::Result<Result<Self::Res>, ResOp>) {
        match reply {
            ResOp::Lock(res) => Ok(TempResult::from(res).0),
            other => Err(other),
        }
    }
}

impl CompoundOp for nfs4::LockTArgs {
    type Res = ();

    open spec fn spec_operation() -> OperationId {
        OperationId::LockT
    }

    open spec fn arg_op(self) -> ArgOp {
        ArgOp::LockT(self)
    }

    open spec fn gives(reply: ResOp, res: Self::Res) -> bool {
        reply == ResOp::LockT(Ok(res))
    }

    proof fn lemma_arg_op(self) {
    }

    fn operation() -> (id: OperationId) {
        OperationId::LockT
    }

    fn into_arg_op(self) -> (op: ArgOp) {
        ArgOp::LockT(self)
    }

    fn take_reply(reply: ResOp) -> (taken: std::result::Result<Result<Self::Res>, ResOp>) {
        match reply {
            ResOp::LockT(res) => Ok(TempResult::from(res).0),
            other => Err(other),
        }
    }
}

impl CompoundOp for nfs4::LockUArgs {
    type Res = nfs4::LockURes;

    open spec fn spec_operation() -> OperationId {
        OperationId::LockU
    }

    open spec fn arg_op(self) -> ArgOp {
        ArgOp::LockU(self)
    }

    open spec fn gives(reply: ResOp, res: Self::Res) -> bool {
        reply == ResOp::LockU(Ok(res))
    }

    proof fn lemma_arg_op(self) {
    }

    fn operation() -> (id: OperationId) {
        OperationId::LockU
    }

    fn into_arg_op(self) -> (op: ArgOp) {
        ArgOp::LockU(self)
    }

    fn take_reply(reply: ResOp) -> (taken: std::result::Result<Result<Self::Res>, ResOp>) {
        match reply {
            ResOp::LockU(res) => Ok(TempResult::from(res).0),
            other => Err(other),
        }
    }
}

impl CompoundOp for LookUpArgs {
    type Res = ();

    open spec fn spec_operation() -> OperationId {
        OperationId::LookUp
    }

    open spec fn arg_op(self) -> ArgOp {
        ArgOp::LookUp(self)
    }

    open spec fn gives(reply: ResOp, res: Self::Res) -> bool {
        reply == ResOp::LookUp(Ok(res))
    }

    proof fn lemma_arg_op(self) {
    }

    fn operation() -> (id: OperationId) {
        OperationId::LookUp
    }

    fn into_arg_op(self) -> (op: ArgOp) {
        ArgOp::LookUp(self)
    }

    fn take_reply(reply: ResOp) -> (taken: std::result::Result<Result<Self::Res>, ResOp>) {
        match reply {
            ResOp::LookUp(res) => Ok(TempResult::from(res).0),
            other => Err(other),
        }
    }
}

impl FromSpecImpl<LookUpP> for ArgOp {
    open spec fn obeys_from_spec() -> bool {
        true
    }

    open spec fn from_spec(op: LookUpP) -> Self {
        ArgOp::LookUpP
    }
}

impl From<LookUpP> for ArgOp {
    fn from(_op: LookUpP) -> Self {
        ArgOp::LookUpP
    }
}

impl CompoundOp for LookUpP {
    type Res = ();

    open spec fn spec_operation() -> OperationId {
        OperationId::LookUpP
    }

    open spec fn arg_op(self) -> ArgOp {
        ArgOp::LookUpP
    }

    open spec fn gives(reply: ResOp, res: Self::Res) -> bool {
        reply == ResOp::LookUpP(Ok(res))
    }

    proof fn lemma_arg_op(self) {
    }

    fn operation() -> (id: OperationId) {
        OperationId::LookUpP
    }

    fn into_arg_op(self) -> (op: ArgOp) {
        ArgOp::LookUpP
    }

    fn take_reply(reply: ResOp) -> (taken: std::result::Result<Result<Self::Res>, ResOp>) {
        match reply {
            ResOp::LookUpP(res) => Ok(TempResult::from(res).0),
            other => Err(other),
        }
    }
}

impl CompoundOp for nfs4::NVerifyArgs {
    type Res = ();

    open spec fn spec_operation() -> OperationId {
        OperationId::NVerify
    }

    open spec fn arg_op(self) -> ArgOp {
        ArgOp::NVerify(self)
    }

    open spec fn gives(reply: ResOp, res: Self::Res) -> bool {
        reply == ResOp::NVerify(Ok(res))
    }

    proof fn lemma_arg_op(self) {
    }

    fn operation() -> (id: OperationId) {
        OperationId::NVerify
    }

    fn into_arg_op(self) -> (op: ArgOp) {
        ArgOp::NVerify(self)
    }

    fn take_reply(reply: ResOp) -> (taken: std::result::Result<Result<Self::Res>, ResOp>) {
        match reply {
            ResOp::NVerify(res) => Ok(TempResult::from(res).0),
            other => Err(other),
        }
    }
}

impl CompoundOp for OpenArgs {
    type Res = nfs4::OpenRes;

    open spec fn spec_operation() -> OperationId {
        OperationId::Open
    }

    open spec fn arg_op(self) -> ArgOp {
        ArgOp::Open(self)
    }

    open spec fn gives(reply: ResOp, res: Self::Res) -> bool {
        reply == ResOp::Open(Ok(res))
    }

    proof fn lemma_arg_op(self) {
    }

    fn operation() -> (id: OperationId) {
        OperationId::Open
    }

    fn into_arg_op(self) -> (op: ArgOp) {
        ArgOp::Open(self)
    }

    fn take_reply(reply: ResOp) -> (taken: std::result::Result<Result<Self::Res>, ResOp>) {
        match reply {
            ResOp::Open(res) => Ok(TempResult::from(res).0),
            other => Err(other),
        }
    }
}

impl CompoundOp for nfs4::OpenAttrArgs {
    type Res = ();

    open spec fn spec_operation() -> OperationId {
        OperationId::OpenAttr
    }

    open spec fn arg_op(self) -> ArgOp {
        ArgOp::OpenAttr(self)
    }

    open spec fn gives(reply: ResOp, res: Self::Res) -> bool {
        reply == ResOp::OpenAttr(Ok(res))
    }

    proof fn lemma_arg_op(self) {
    }

    fn operation() -> (id: OperationId) {
        OperationId::OpenAttr
    }

    fn into_arg_op(self) -> (op: ArgOp) {
        ArgOp::OpenAttr(self)
    }

    fn take_reply(reply: ResOp) -> (taken: std::result::Result<Result<Self::Res>, ResOp>) {
        match reply {
            ResOp::OpenAttr(res) => Ok(TempResult::from(res).0),
            other => Err(other),
        }
    }
}

impl CompoundOp for nfs4::OpenDowngradeArgs {
    type Res = nfs4::OpenDowngradeRes;

    open spec fn spec_operation() -> OperationId {
        OperationId::OpenDowngrade
    }

    open spec fn arg_op(self) -> ArgOp {
        ArgOp::OpenDowngrade(self)
    }

    open spec fn gives(reply: ResOp, res: Self::Res) -> bool {
        reply == ResOp::OpenDowngrade(Ok(res))
    }

    proof fn lemma_arg_op(self) {
    }

    fn operation() -> (id: OperationId) {
        OperationId::OpenDowngrade
    }

    fn into_arg_op(self) -> (op: ArgOp) {
        ArgOp::OpenDowngrade(self)
    }

    fn take_reply(reply: ResOp) -> (taken: std::result::Result<Result<Self::Res>, ResOp>) {
        match reply {
            ResOp::OpenDowngrade(res) => Ok(TempResult::from(res).0),
            other => Err(other),
        }
    }
}

impl CompoundOp for PutFhArgs {
    type Res = ();

    open spec fn spec_operation() -> OperationId {
        OperationId::PutFh
    }

    open spec fn arg_op(self) -> ArgOp {
        ArgOp::PutFh(self)
    }

    open spec fn gives(reply: ResOp, res: Self::Res) -> bool {
        reply == ResOp::PutFh(Ok(res))
    }

    proof fn lemma_arg_op(self) {
    }

    fn operation() -> (id: OperationId) {
        OperationId::PutFh
    }

    fn into_arg_op(self) -> (op: ArgOp) {
        ArgOp::PutFh(self)
    }

    fn take_reply(reply: ResOp) -> (taken: std::result::Result<Result<Self::Res>, ResOp>) {
        match reply {
            ResOp::PutFh(res) => Ok(TempResult::from(res).0),
            other => Err(other),
        }
    }
}

impl FromSpecImpl<PutPubFh> for ArgOp {
    open spec fn obeys_from_spec() -> bool {
        true
    }

    open spec fn from_spec(op: PutPubFh) -> Self {
        ArgOp::PutPubFh
    }
}

impl From<PutPubFh> for ArgOp {
    fn from(_op: PutPubFh) -> Self {
        ArgOp::PutPubFh
    }
}

impl CompoundOp for PutPubFh {
    type Res = ();

    open spec fn spec_operation() -> OperationId {
        OperationId::PutPubFh
    }

    open spec fn arg_op(self) -> ArgOp {
        ArgOp::PutPubFh
    }

    open spec fn gives(reply: ResOp, res: Self::Res) -> bool {
        reply == ResOp::PutPubFh(Ok(res))
    }

    proof fn lemma_arg_op(self) {
    }

    fn operation() -> (id: OperationId) {
        OperationId::PutPubFh
    }

    fn into_arg_op(self) -> (op: ArgOp) {
        ArgOp::PutPubFh
    }

    fn take_reply(reply: ResOp) -> (taken: std::result::Result<Result<Self::Res>, ResOp>) {
        match reply {
            ResOp::PutPubFh(res) => Ok(TempResult::from(res).0),
            other => Err(other),
        }
    }
}

impl FromSpecImpl<PutRootFh> for ArgOp {
    open spec fn obeys_from_spec() -> bool {
        true
    }

    open spec fn from_spec(op: PutRootFh) -> Self {
        ArgOp::PutRootFh
    }
}

impl From<PutRootFh> for ArgOp {
    fn from(_op: PutRootFh) -> Self {
        ArgOp::PutRootFh
    }
}

impl CompoundOp for PutRootFh {
    type Res = ();

    open spec fn spec_operation() -> OperationId {
        OperationId::PutRootFh
    }

    open spec fn arg_op(self) -> ArgOp {
        ArgOp::PutRootFh
    }

    open spec fn gives(reply: ResOp, res: Self::Res) -> bool {
        reply == ResOp::PutRootFh(Ok(res))
    }

    proof fn lemma_arg_op(self) {
    }

    fn operation() -> (id: OperationId) {
        OperationId::PutRootFh
    }

    fn into_arg_op(self) -> (op: ArgOp) {
        ArgOp::PutRootFh
    }

    fn take_reply(reply: ResOp) -> (taken: std::result::Result<Result<Self::Res>, ResOp>) {
        match reply {
            ResOp::PutRootFh(res) => Ok(TempResult::from(res).0),
            other => Err(other),
        }
    }
}

impl CompoundOp for ReadArgs {
    type Res = ReadRes;

    open spec fn spec_operation() -> OperationId {
        OperationId::Read
    }

    open spec fn arg_op(self) -> ArgOp {
        ArgOp::Read(self)
    }

    open spec fn gives(reply: ResOp, res: Self::Res) -> bool {
        reply == ResOp::Read(Ok(res))
    }

    proof fn lemma_arg_op(self) {
    }

    fn operation() -> (id: OperationId) {
        OperationId::Read
    }

    fn into_arg_op(self) -> (op: ArgOp) {
        ArgOp::Read(self)
    }

    fn take_reply(reply: ResOp) -> (taken: std::result::Result<Result<Self::Res>, ResOp>) {
        match reply {
            ResOp::Read(res) => Ok(TempResult::from(res).0),
            other => Err(other),
        }
    }
}

impl CompoundOp for ReadDirArgs {
    type Res = ReadDirRes;

    open spec fn spec_operation() -> OperationId {
        OperationId::ReadDir
    }

    open spec fn arg_op(self) -> ArgOp {
        ArgOp::ReadDir(self)
    }

    open spec fn gives(reply: ResOp, res: Self::Res) -> bool {
        reply == ResOp::ReadDir(Ok(res))
    }

    proof fn lemma_arg_op(self) {
    }

    fn operation() -> (id: OperationId) {
        OperationId::ReadDir
    }

    fn into_arg_op(self) -> (op: ArgOp) {
        ArgOp::ReadDir(self)
    }

    fn take_reply(reply: ResOp) -> (taken: std::result::Result<Result<Self::Res>, ResOp>) {
        match reply {
            ResOp::ReadDir(res) => Ok(TempResult::from(res).0),
            other => Err(other),
        }
    }
}

impl FromSpecImpl<ReadLink> for ArgOp {
    open spec fn obeys_from_spec() -> bool {
        true
    }

    open spec fn from_spec(op: ReadLink) -> Self {
        ArgOp::ReadLink
    }
}

impl From<ReadLink> for ArgOp {
    fn from(_op: ReadLink) -> Self {
        ArgOp::ReadLink
    }
}

impl CompoundOp for ReadLink {
    type Res = nfs4::ReadLinkRes;

    open spec fn spec_operation() -> OperationId {
        OperationId::ReadLink
    }

    open spec fn arg_op(self) -> ArgOp {
        ArgOp::ReadLink
    }

    open spec fn gives(reply: ResOp, res: Self::Res) -> bool {
        reply == ResOp::ReadLink(Ok(res))
    }

    proof fn lemma_arg_op(self) {
    }

    fn operation() -> (id: OperationId) {
        OperationId::ReadLink
    }

    fn into_arg_op(self) -> (op: ArgOp) {
        ArgOp::ReadLink
    }

    fn take_reply(reply: ResOp) -> (taken: std::result::Result<Result<Self::Res>, ResOp>) {
        match reply {
            ResOp::ReadLink(res) => Ok(TempResult::from(res).0),
            other => Err(other),
        }
    }
}

impl CompoundOp for RemoveArgs {
    type Res = RemoveRes;

    open spec fn spec_operation() -> OperationId {
        OperationId::Remove
    }

    open spec fn arg_op(self) -> ArgOp {
        ArgOp::Remove(self)
    }

    open spec fn gives(reply: ResOp, res: Self::Res) -> bool {
        reply == ResOp::Remove(Ok(res))
    }

    proof fn lemma_arg_op(self) {
    }

    fn operation() -> (id: OperationId) {
        OperationId::Remove
    }

    fn into_arg_op(self) -> (op: ArgOp) {
        ArgOp::Remove(self)
    }

    fn take_reply(reply: ResOp) -> (taken: std::result::Result<Result<Self::Res>, ResOp>) {
        match reply {
            ResOp::Remove(res) => Ok(TempResult::from(res).0),
            other => Err(other),
        }
    }
}

impl CompoundOp for RenameArgs {
    type Res = nfs4::RenameRes;

    open spec fn spec_operation() -> OperationId {
        OperationId::Rename
    }

    open spec fn arg_op(self) -> ArgOp {
        ArgOp::Rename(self)
    }

    open spec fn gives(reply: ResOp, res: Self::Res) -> bool {
        reply == ResOp::Rename(Ok(res))
    }

    proof fn lemma_arg_op(self) {
    }

    fn operation() -> (id: OperationId) {
        OperationId::Rename
    }

    fn into_arg_op(self) -> (op: ArgOp) {
        ArgOp::Rename(self)
    }

    fn take_reply(reply: ResOp) -> (taken: std::result::Result<Result<Self::Res>, ResOp>) {
        match reply {
            ResOp::Rename(res) => Ok(TempResult::from(res).0),
            other => Err(other),
        }
    }
}

impl FromSpecImpl<RestoreFh> for ArgOp {
    open spec fn obeys_from_spec() -> bool {
        true
    }

    open spec fn from_spec(op: RestoreFh) -> Self {
        ArgOp::RestoreFh
    }
}

impl From<RestoreFh> for ArgOp {
    fn from(_op: RestoreFh) -> Self {
        ArgOp::RestoreFh
    }
}

impl CompoundOp for RestoreFh {
    type Res = ();

    open spec fn spec_operation() -> OperationId {
        OperationId::RestoreFh
    }

    open spec fn arg_op(self) -> ArgOp {
        ArgOp::RestoreFh
    }

    open spec fn gives(reply: ResOp, res: Self::Res) -> bool {
        reply == ResOp::RestoreFh(Ok(res))
    }

    proof fn lemma_arg_op(self) {
    }

    fn operation() -> (id: OperationId) {
        OperationId::RestoreFh
    }

    fn into_arg_op(self) -> (op: ArgOp) {
        ArgOp::RestoreFh
    }

    fn take_reply(reply: ResOp) -> (taken: std::result::Result<Result<Self::Res>, ResOp>) {
        match reply {
            ResOp::RestoreFh(res) => Ok(TempResult::from(res).0),
            other => Err(other),
        }
    }
}

impl FromSpecImpl<SaveFh> for ArgOp {
    open spec fn obeys_from_spec() -> bool {
        true
    }

    open spec fn from_spec(op: SaveFh) -> Self {
        ArgOp::SaveFh
    }
}

impl From<SaveFh> for ArgOp {
    fn from(_op: SaveFh) -> Self {
        ArgOp::SaveFh
    }
}

impl CompoundOp for SaveFh {
    type Res = ();

    open spec fn spec_operation() -> OperationId {
        OperationId::SaveFh
    }

    open spec fn arg_op(self) -> ArgOp {
        ArgOp::SaveFh
    }

    open spec fn gives(reply: ResOp, res: Self::Res) -> bool {
        reply == ResOp::SaveFh(Ok(res))
    }

    proof fn lemma_arg_op(self) {
    }

    fn operation() -> (id: OperationId) {
        OperationId::SaveFh
    }

    fn into_arg_op(self) -> (op: ArgOp) {
        ArgOp::SaveFh
    }

    fn take_reply(reply: ResOp) -> (taken: std::result::Result<Result<Self::Res>, ResOp>) {
        match reply {
            ResOp::SaveFh(res) => Ok(TempResult::from(res).0),
            other => Err(other),
        }
    }
}

impl CompoundOp for nfs4::SecInfoArgs {
    type Res = nfs4::SecInfoRes;

    open spec fn spec_operation() -> OperationId {
        OperationId::SecInfo
    }

    open spec fn arg_op(self) -> ArgOp {
        ArgOp::SecInfo(self)
    }

    open spec fn gives(reply: ResOp, res: Self::Res) -> bool {
        reply == ResOp::SecInfo(Ok(res))
    }

    proof fn lemma_arg_op(self) {
    }

    fn operation() -> (id: OperationId) {
        OperationId::SecInfo
    }

    fn into_arg_op(self) -> (op: ArgOp) {
        ArgOp::SecInfo(self)
    }

    fn take_reply(reply: ResOp) -> (taken: std::result::Result<Result<Self::Res>, ResOp>) {
        match reply {
            ResOp::SecInfo(res) => Ok(TempResult::from(res).0),
            other => Err(other),
        }
    }
}

impl CompoundOp for SetAttrArgs {
    type Res = nfs4::SetAttrRes;

    open spec fn spec_operation() -> OperationId {
        OperationId::SetAttr
    }

    open spec fn arg_op(self) -> ArgOp {
        ArgOp::SetAttr(self)
    }

    open spec fn gives(reply: ResOp, res: Self::Res) -> bool {
        reply matches ResOp::SetAttr(outcome) && outcome.status is Ok && outcome.res == res
    }

    proof fn lemma_arg_op(self) {
    }

    fn operation() -> (id: OperationId) {
        OperationId::SetAttr
    }

    fn into_arg_op(self) -> (op: ArgOp) {
        ArgOp::SetAttr(self)
    }

    fn take_reply(reply: ResOp) -> (taken: std::result::Result<Result<Self::Res>, ResOp>) {
        match reply {
            ResOp::SetAttr(res) => Ok(TempResult::from(res).0),
            other => Err(other),
        }
    }
}

impl CompoundOp for VerifyArgs {
    type Res = ();

    open spec fn spec_operation() -> OperationId {
        OperationId::Verify
    }

    open spec fn arg_op(self) -> ArgOp {
        ArgOp::Verify(self)
    }

    open spec fn gives(reply: ResOp, res: Self::Res) -> bool {
        reply == ResOp::Verify(Ok(res))
    }

    proof fn lemma_arg_op(self) {
    }

    fn operation() -> (id: OperationId) {
        OperationId::Verify
    }

    fn into_arg_op(self) -> (op: ArgOp) {
        ArgOp::Verify(self)
    }

    fn take_reply(reply: ResOp) -> (taken: std::result::Result<Result<Self::Res>, ResOp>) {
        match reply {
            ResOp::Verify(res) => Ok(TempResult::from(res).0),
            other => Err(other),
        }
    }
}

impl CompoundOp for WriteArgs {
    type Res = WriteRes;

    open spec fn spec_operation() -> OperationId {
        OperationId::Write
    }

    open spec fn arg_op(self) -> ArgOp {
        ArgOp::Write(self)
    }

    open spec fn gives(reply: ResOp, res: Self::Res) -> bool {
        reply == ResOp::Write(Ok(res))
    }

    proof fn lemma_arg_op(self) {
    }

    fn operation() -> (id: OperationId) {
        OperationId::Write
    }

    fn into_arg_op(self) -> (op: ArgOp) {
        ArgOp::Write(self)
    }

    fn take_reply(reply: ResOp) -> (taken: std::result::Result<Result<Self::Res>, ResOp>) {
        match reply {
            ResOp::Write(res) => Ok(TempResult::from(res).0),
            other => Err(other),
        }
    }
}

impl CompoundOp for nfs4::BackchannelCtlArgs {
    type Res = ();

    open spec fn spec_operation() -> OperationId {
        OperationId::BackchannelCtl
    }

    open spec fn arg_op(self) -> ArgOp {
        ArgOp::BackchannelCtl(self)
    }

    open spec fn gives(reply: ResOp, res: Self::Res) -> bool {
        reply == ResOp::BackchannelCtl(Ok(res))
    }

    proof fn lemma_arg_op(self) {
    }

    fn operation() -> (id: OperationId) {
        OperationId::BackchannelCtl
    }

    fn into_arg_op(self) -> (op: ArgOp) {
        ArgOp::BackchannelCtl(self)
    }

    fn take_reply(reply: ResOp) -> (taken: std::result::Result<Result<Self::Res>, ResOp>) {
        match reply {
            ResOp::BackchannelCtl(res) => Ok(TempResult::from(res).0),
            other => Err(other),
        }
    }
}

impl CompoundOp for nfs4::BindConnToSessionArgs {
    type Res = nfs4::BindConnToSessionRes;

    open spec fn spec_operation() -> OperationId {
        OperationId::BindConnToSession
    }

    open spec fn arg_op(self) -> ArgOp {
        ArgOp::BindConnToSession(self)
    }

    open spec fn gives(reply: ResOp, res: Self::Res) -> bool {
        reply == ResOp::BindConnToSession(Ok(res))
    }

    proof fn lemma_arg_op(self) {
    }

    fn operation() -> (id: OperationId) {
        OperationId::BindConnToSession
    }

    fn into_arg_op(self) -> (op: ArgOp) {
        ArgOp::BindConnToSession(self)
    }

    fn take_reply(reply: ResOp) -> (taken: std::result::Result<Result<Self::Res>, ResOp>) {
        match reply {
            ResOp::BindConnToSession(res) => Ok(TempResult::from(res).0),
            other => Err(other),
        }
    }
}

impl CompoundOp for ExchangeIdArgs {
    type Res = ExchangeIdRes;

    open spec fn spec_operation() -> OperationId {
        OperationId::ExchangeId
    }

    open spec fn arg_op(self) -> ArgOp {
        ArgOp::ExchangeId(self)
    }

    open spec fn gives(reply: ResOp, res: Self::Res) -> bool {
        reply == ResOp::ExchangeId(Ok(res))
    }

    proof fn lemma_arg_op(self) {
    }

    fn operation() -> (id: OperationId) {
        OperationId::ExchangeId
    }

    fn into_arg_op(self) -> (op: ArgOp) {
        ArgOp::ExchangeId(self)
    }

    fn take_reply(reply: ResOp) -> (taken: std::result::Result<Result<Self::Res>, ResOp>) {
        match reply {
            ResOp::ExchangeId(res) => Ok(TempResult::from(res).0),
            other => Err(other),
        }
    }
}

impl CompoundOp for CreateSessionArgs {
    type Res = CreateSessionRes;

    open spec fn spec_operation() -> OperationId {
        OperationId::CreateSession
    }

    open spec fn arg_op(self) -> ArgOp {
        ArgOp::CreateSession(self)
    }

    open spec fn gives(reply: ResOp, res: Self::Res) -> bool {
        reply == ResOp::CreateSession(Ok(res))
    }

    proof fn lemma_arg_op(self) {
    }

    fn operation() -> (id: OperationId) {
        OperationId::CreateSession
    }

    fn into_arg_op(self) -> (op: ArgOp) {
        ArgOp::CreateSession(self)
    }

    fn take_reply(reply: ResOp) -> (taken: std::result::Result<Result<Self::Res>, ResOp>) {
        match reply {
            ResOp::CreateSession(res) => Ok(TempResult::from(res).0),
            other => Err(other),
        }
    }
}

impl CompoundOp for nfs4::DestroySessionArgs {
    type Res = ();

    open spec fn spec_operation() -> OperationId {
        OperationId::DestroySession
    }

    open spec fn arg_op(self) -> ArgOp {
        ArgOp::DestroySession(self)
    }

    open spec fn gives(reply: ResOp, res: Self::Res) -> bool {
        reply == ResOp::DestroySession(Ok(res))
    }

    proof fn lemma_arg_op(self) {
    }

    fn operation() -> (id: OperationId) {
        OperationId::DestroySession
    }

    fn into_arg_op(self) -> (op: ArgOp) {
        ArgOp::DestroySession(self)
    }

    fn take_reply(reply: ResOp) -> (taken: std::result::Result<Result<Self::Res>, ResOp>) {
        match reply {
            ResOp::DestroySession(res) => Ok(TempResult::from(res).0),
            other => Err(other),
        }
    }
}

impl CompoundOp for nfs4::FreeStateidArgs {
    type Res = ();

    open spec fn spec_operation() -> OperationId {
        OperationId::FreeStateid
    }

    open spec fn arg_op(self) -> ArgOp {
        ArgOp::FreeStateid(self)
    }

    open spec fn gives(reply: ResOp, res: Self::Res) -> bool {
        reply == ResOp::FreeStateid(Ok(res))
    }

    proof fn lemma_arg_op(self) {
    }

    fn operation() -> (id: OperationId) {
        OperationId::FreeStateid
    }

    fn into_arg_op(self) -> (op: ArgOp) {
        ArgOp::FreeStateid(self)
    }

    fn take_reply(reply: ResOp) -> (taken: std::result::Result<Result<Self::Res>, ResOp>) {
        match reply {
            ResOp::FreeStateid(res) => Ok(TempResult::from(res).0),
            other => Err(other),
        }
    }
}

impl CompoundOp for nfs4::GetDirDelegationArgs {
    type Res = nfs4::GetDirDelegationRes;

    open spec fn spec_operation() -> OperationId {
        OperationId::GetDirDelegation
    }

    open spec fn arg_op(self) -> ArgOp {
        ArgOp::GetDirDelegation(self)
    }

    open spec fn gives(reply: ResOp, res: Self::Res) -> bool {
        reply == ResOp::GetDirDelegation(Ok(res))
    }

    proof fn lemma_arg_op(self) {
    }

    fn operation() -> (id: OperationId) {
        OperationId::GetDirDelegation
    }

    fn into_arg_op(self) -> (op: ArgOp) {
        ArgOp::GetDirDelegation(self)
    }

    fn take_reply(reply: ResOp) -> (taken: std::result::Result<Result<Self::Res>, ResOp>) {
        match reply {
            ResOp::GetDirDelegation(res) => Ok(TempResult::from(res).0),
            other => Err(other),
        }
    }
}

impl CompoundOp for nfs4::GetDeviceInfoArgs {
    type Res = nfs4::GetDeviceInfoRes;

    open spec fn spec_operation() -> OperationId {
        OperationId::GetDeviceInfo
    }

    open spec fn arg_op(self) -> ArgOp {
        ArgOp::GetDeviceInfo(self)
    }

    open spec fn gives(reply: ResOp, res: Self::Res) -> bool {
        reply == ResOp::GetDeviceInfo(Ok(res))
    }

    proof fn lemma_arg_op(self) {
    }

    fn operation() -> (id: OperationId) {
        OperationId::GetDeviceInfo
    }

    fn into_arg_op(self) -> (op: ArgOp) {
        ArgOp::GetDeviceInfo(self)
    }

    fn take_reply(reply: ResOp) -> (taken: std::result::Result<Result<Self::Res>, ResOp>) {
        match reply {
            ResOp::GetDeviceInfo(res) => Ok(TempResult::from(res).0),
            other => Err(other),
        }
    }
}

impl CompoundOp for nfs4::GetDeviceListArgs {
    type Res = nfs4::GetDeviceListRes;

    open spec fn spec_operation() -> OperationId {
        OperationId::GetDeviceList
    }

    open spec fn arg_op(self) -> ArgOp {
        ArgOp::GetDeviceList(self)
    }

    open spec fn gives(reply: ResOp, res: Self::Res) -> bool {
        reply == ResOp::GetDeviceList(Ok(res))
    }

    proof fn lemma_arg_op(self) {
    }

    fn operation() -> (id: OperationId) {
        OperationId::GetDeviceList
    }

    fn into_arg_op(self) -> (op: ArgOp) {
        ArgOp::GetDeviceList(self)
    }

    fn take_reply(reply: ResOp) -> (taken: std::result::Result<Result<Self::Res>, ResOp>) {
        match reply {
            ResOp::GetDeviceList(res) => Ok(TempResult::from(res).0),
            other => Err(other),
        }
    }
}

impl CompoundOp for nfs4::LayoutCommitArgs {
    type Res = nfs4::LayoutCommitRes;

    open spec fn spec_operation() -> OperationId {
        OperationId::LayoutCommit
    }

    open spec fn arg_op(self) -> ArgOp {
        ArgOp::LayoutCommit(self)
    }

    open spec fn gives(reply: ResOp, res: Self::Res) -> bool {
        reply == ResOp::LayoutCommit(Ok(res))
    }

    proof fn lemma_arg_op(self) {
    }

    fn operation() -> (id: OperationId) {
        OperationId::LayoutCommit
    }

    fn into_arg_op(self) -> (op: ArgOp) {
        ArgOp::LayoutCommit(self)
    }

    fn take_reply(reply: ResOp) -> (taken: std::result::Result<Result<Self::Res>, ResOp>) {
        match reply {
            ResOp::LayoutCommit(res) => Ok(TempResult::from(res).0),
            other => Err(other),
        }
    }
}

impl CompoundOp for nfs4::LayoutGetArgs {
    type Res = nfs4::LayoutGetRes;

    open spec fn spec_operation() -> OperationId {
        OperationId::LayoutGet
    }

    open spec fn arg_op(self) -> ArgOp {
        ArgOp::LayoutGet(self)
    }

    open spec fn gives(reply: ResOp, res: Self::Res) -> bool {
        reply == ResOp::LayoutGet(Ok(res))
    }

    proof fn lemma_arg_op(self) {
    }

    fn operation() -> (id: OperationId) {
        OperationId::LayoutGet
    }

    fn into_arg_op(self) -> (op: ArgOp) {
        ArgOp::LayoutGet(self)
    }

    fn take_reply(reply: ResOp) -> (taken: std::result::Result<Result<Self::Res>, ResOp>) {
        match reply {
            ResOp::LayoutGet(res) => Ok(TempResult::from(res).0),
            other => Err(other),
        }
    }
}

impl CompoundOp for nfs4::LayoutReturnArgs {
    type Res = nfs4::LayoutReturnRes;

    open spec fn spec_operation() -> OperationId {
        OperationId::LayoutReturn
    }

    open spec fn arg_op(self) -> ArgOp {
        ArgOp::LayoutReturn(self)
    }

    open spec fn gives(reply: ResOp, res: Self::Res) -> bool {
        reply == ResOp::LayoutReturn(Ok(res))
    }

    proof fn lemma_arg_op(self) {
    }

    fn operation() -> (id: OperationId) {
        OperationId::LayoutReturn
    }

    fn into_arg_op(self) -> (op: ArgOp) {
        ArgOp::LayoutReturn(self)
    }

    fn take_reply(reply: ResOp) -> (taken: std::result::Result<Result<Self::Res>, ResOp>) {
        match reply {
            ResOp::LayoutReturn(res) => Ok(TempResult::from(res).0),
            other => Err(other),
        }
    }
}

impl CompoundOp for nfs4::SecInfoNoNameArgs {
    type Res = nfs4::SecInfoRes;

    open spec fn spec_operation() -> OperationId {
        OperationId::SecInfoNoName
    }

    open spec fn arg_op(self) -> ArgOp {
        ArgOp::SecInfoNoName(self)
    }

    open spec fn gives(reply: ResOp, res: Self::Res) -> bool {
        reply == ResOp::SecInfoNoName(Ok(res))
    }

    proof fn lemma_arg_op(self) {
    }

    fn operation() -> (id: OperationId) {
        OperationId::SecInfoNoName
    }

    fn into_arg_op(self) -> (op: ArgOp) {
        ArgOp::SecInfoNoName(self)
    }

    fn take_reply(reply: ResOp) -> (taken: std::result::Result<Result<Self::Res>, ResOp>) {
        match reply {
            ResOp::SecInfoNoName(res) => Ok(TempResult::from(res).0),
            other => Err(other),
        }
    }
}

impl CompoundOp for SequenceArgs {
    type Res = nfs4::SequenceRes;

    open spec fn spec_operation() -> OperationId {
        OperationId::Sequence
    }

    open spec fn arg_op(self) -> ArgOp {
        ArgOp::Sequence(self)
    }

    open spec fn gives(reply: ResOp, res: Self::Res) -> bool {
        reply == ResOp::Sequence(Ok(res))
    }

    proof fn lemma_arg_op(self) {
    }

    fn operation() -> (id: OperationId) {
        OperationId::Sequence
    }

    fn into_arg_op(self) -> (op: ArgOp) {
        ArgOp::Sequence(self)
    }

    fn take_reply(reply: ResOp) -> (taken: std::result::Result<Result<Self::Res>, ResOp>) {
        match reply {
            ResOp::Sequence(res) => Ok(TempResult::from(res).0),
            other => Err(other),
        }
    }
}

impl CompoundOp for nfs4::SetSsvArgs {
    type Res = nfs4::SetSsvRes;

    open spec fn spec_operation() -> OperationId {
        OperationId::SetSsv
    }

    open spec fn arg_op(self) -> ArgOp {
        ArgOp::SetSsv(self)
    }

    open spec fn gives(reply: ResOp, res: Self::Res) -> bool {
        reply == ResOp::SetSsv(Ok(res))
    }

    proof fn lemma_arg_op(self) {
    }

    fn operation() -> (id: OperationId) {
        OperationId::SetSsv
    }

    fn into_arg_op(self) -> (op: ArgOp) {
        ArgOp::SetSsv(self)
    }

    fn take_reply(reply: ResOp) -> (taken: std::result::Result<Result<Self::Res>, ResOp>) {
        match reply {
            ResOp::SetSsv(res) => Ok(TempResult::from(res).0),
            other => Err(other),
        }
    }
}

impl CompoundOp for nfs4::TestStateIdArgs {
    type Res = nfs4::TestStateIdRes;

    open spec fn spec_operation() -> OperationId {
        OperationId::TestStateId
    }

    open spec fn arg_op(self) -> ArgOp {
        ArgOp::TestStateId(self)
    }

    open spec fn gives(reply: ResOp, res: Self::Res) -> bool {
        reply == ResOp::TestStateId(Ok(res))
    }

    proof fn lemma_arg_op(self) {
    }

    fn operation() -> (id: OperationId) {
        OperationId::TestStateId
    }

    fn into_arg_op(self) -> (op: ArgOp) {
        ArgOp::TestStateId(self)
    }

    fn take_reply(reply: ResOp) -> (taken: std::result::Result<Result<Self::Res>, ResOp>) {
        match reply {
            ResOp::TestStateId(res) => Ok(TempResult::from(res).0),
            other => Err(other),
        }
    }
}

impl CompoundOp for nfs4::WantDelegationArgs {
    type Res = nfs4::WantDelegationRes;

    open spec fn spec_operation() -> OperationId {
        OperationId::WantDelegation
    }

    open spec fn arg_op(self) -> ArgOp {
        ArgOp::WantDelegation(self)
    }

    open spec fn gives(reply: ResOp, res: Self::Res) -> bool {
        reply == ResOp::WantDelegation(Ok(res))
    }

    proof fn lemma_arg_op(self) {
    }

    fn operation() -> (id: OperationId) {
        OperationId::WantDelegation
    }

    fn into_arg_op(self) -> (op: ArgOp) {
        ArgOp::WantDelegation(self)
    }

    fn take_reply(reply: ResOp) -> (taken: std::result::Result<Result<Self::Res>, ResOp>) {
        match reply {
            ResOp::WantDelegation(res) => Ok(TempResult::from(res).0),
            other => Err(other),
        }
    }
}

impl CompoundOp for nfs4::DestroyClientIdArgs {
    type Res = ();

    open spec fn spec_operation() -> OperationId {
        OperationId::DestroyClientId
    }

    open spec fn arg_op(self) -> ArgOp {
        ArgOp::DestroyClientId(self)
    }

    open spec fn gives(reply: ResOp, res: Self::Res) -> bool {
        reply == ResOp::DestroyClientId(Ok(res))
    }

    proof fn lemma_arg_op(self) {
    }

    fn operation() -> (id: OperationId) {
        OperationId::DestroyClientId
    }

    fn into_arg_op(self) -> (op: ArgOp) {
        ArgOp::DestroyClientId(self)
    }

    fn take_reply(reply: ResOp) -> (taken: std::result::Result<Result<Self::Res>, ResOp>) {
        match reply {
            ResOp::DestroyClientId(res) => Ok(TempResult::from(res).0),
            other => Err(other),
        }
    }
}

impl CompoundOp for ReclaimCompleteArgs {
    type Res = ();

    open spec fn spec_operation() -> OperationId {
        OperationId::ReclaimComplete
    }

    open spec fn arg_op(self) -> ArgOp {
        ArgOp::ReclaimComplete(self)
    }

    open spec fn gives(reply: ResOp, res: Self::Res) -> bool {
        reply == ResOp::ReclaimComplete(Ok(res))
    }

    proof fn lemma_arg_op(self) {
    }

    fn operation() -> (id: OperationId) {
        OperationId::ReclaimComplete
    }

    fn into_arg_op(self) -> (op: ArgOp) {
        ArgOp::ReclaimComplete(self)
    }

    fn take_reply(reply: ResOp) -> (taken: std::result::Result<Result<Self::Res>, ResOp>) {
        match reply {
            ResOp::ReclaimComplete(res) => Ok(TempResult::from(res).0),
            other => Err(other),
        }
    }
}

} // verus!
