//! What each operation sends and what each reply gives, operation by operation.
use crate::call::{compound_failure, CompoundReply, Pending};
use crate::client::{lemma_last_reply, OnFile, Sequenced};
use crate::compound::{CompoundOp, CompoundRequest, ReturnSecond};
use crate::error::{Error, ErrorView, TempResult};
use crate::ops::{ArgOp, OperationId, ResOp};
use crate::protocol::{
    AccessArgs, CommitArgs, CreateArgs, CreateSessionArgs, CreateSessionRes, ExchangeIdArgs,
    ExchangeIdRes, GetAttrArgs, GetAttrRes, GetFhRes, LockStatusResult, LookUpArgs, OpenArgs,
    PutFhArgs, ReadArgs, ReadDirArgs, ReadDirRes, ReadRes, ReclaimCompleteArgs, RemoveArgs,
    RemoveRes, RenameArgs, SequenceArgs, SetAttrArgs, SetAttrStatusResult, StatusResult, VerifyArgs,
    WriteArgs, WriteRes,
};
use crate::requests::{
    GetFh, LookUpP, PutPubFh, PutRootFh, ReadLink, RestoreFh, SaveFh,
};
use std::io::Error as IoError;
use sun_rpc_client::Error as RpcError;
use vstd::prelude::*;
use vstd::std_specs::convert::FromSpec;

verus! {

/// The kind of an operation that is sent is the one that it is.
pub proof fn lemma_kind_of_sent_operation(op: ArgOp)
    ensures
        op.operation() == OperationId::Access <==> op is Access,
        op.operation() == OperationId::Close <==> op is Close,
        op.operation() == OperationId::Commit <==> op is Commit,
        op.operation() == OperationId::Create <==> op is Create,
        op.operation() == OperationId::DelegPurge <==> op is DelegPurge,
        op.operation() == OperationId::DelegReturn <==> op is DelegReturn,
        op.operation() == OperationId::GetAttr <==> op is GetAttr,
        op.operation() == OperationId::GetFh <==> op is GetFh,
        op.operation() == OperationId::Link <==> op is Link,
        op.operation() == OperationId::Lock <==> op is Lock,
        op.operation() == OperationId::LockT <==> op is LockT,
        op.operation() == OperationId::LockU <==> op is LockU,
        op.operation() == OperationId::LookUp <==> op is LookUp,
        op.operation() == OperationId::LookUpP <==> op is LookUpP,
        op.operation() == OperationId::NVerify <==> op is NVerify,
        op.operation() == OperationId::Open <==> op is Open,
        op.operation() == OperationId::OpenAttr <==> op is OpenAttr,
        op.operation() == OperationId::OpenDowngrade <==> op is OpenDowngrade,
        op.operation() == OperationId::PutFh <==> op is PutFh,
        op.operation() == OperationId::PutPubFh <==> op is PutPubFh,
        op.operation() == OperationId::PutRootFh <==> op is PutRootFh,
        op.operation() == OperationId::Read <==> op is Read,
        op.operation() == OperationId::ReadDir <==> op is ReadDir,
        op.operation() == OperationId::ReadLink <==> op is ReadLink,
        op.operation() == OperationId::Remove <==> op is Remove,
        op.operation() == OperationId::Rename <==> op is Rename,
        op.operation() == OperationId::RestoreFh <==> op is RestoreFh,
        op.operation() == OperationId::SaveFh <==> op is SaveFh,
        op.operation() == OperationId::SecInfo <==> op is SecInfo,
        op.operation() == OperationId::SetAttr <==> op is SetAttr,
        op.operation() == OperationId::Verify <==> op is Verify,
        op.operation() == OperationId::Write <==> op is Write,
        op.operation() == OperationId::BackchannelCtl <==> op is BackchannelCtl,
        op.operation() == OperationId::BindConnToSession <==> op is BindConnToSession,
        op.operation() == OperationId::ExchangeId <==> op is ExchangeId,
        op.operation() == OperationId::CreateSession <==> op is CreateSession,
        op.operation() == OperationId::DestroySession <==> op is DestroySession,
        op.operation() == OperationId::FreeStateid <==> op is FreeStateid,
        op.operation() == OperationId::GetDirDelegation <==> op is GetDirDelegation,
        op.operation() == OperationId::GetDeviceInfo <==> op is GetDeviceInfo,
        op.operation() == OperationId::GetDeviceList <==> op is GetDeviceList,
        op.operation() == OperationId::LayoutCommit <==> op is LayoutCommit,
        op.operation() == OperationId::LayoutGet <==> op is LayoutGet,
        op.operation() == OperationId::LayoutReturn <==> op is LayoutReturn,
        op.operation() == OperationId::SecInfoNoName <==> op is SecInfoNoName,
        op.operation() == OperationId::Sequence <==> op is Sequence,
        op.operation() == OperationId::SetSsv <==> op is SetSsv,
        op.operation() == OperationId::TestStateId <==> op is TestStateId,
        op.operation() == OperationId::WantDelegation <==> op is WantDelegation,
        op.operation() == OperationId::DestroyClientId <==> op is DestroyClientId,
        op.operation() == OperationId::ReclaimComplete <==> op is ReclaimComplete,
{
}

/// The kind of operation that a reply answers is the one that it is a reply to.
pub proof fn lemma_kind_of_reply(reply: ResOp)
    ensures
        reply.operation() == OperationId::Access <==> reply is Access,
        reply.operation() == OperationId::Close <==> reply is Close,
        reply.operation() == OperationId::Commit <==> reply is Commit,
        reply.operation() == OperationId::Create <==> reply is Create,
        reply.operation() == OperationId::DelegPurge <==> reply is DelegPurge,
        reply.operation() == OperationId::DelegReturn <==> reply is DelegReturn,
        reply.operation() == OperationId::GetAttr <==> reply is GetAttr,
        reply.operation() == OperationId::GetFh <==> reply is GetFh,
        reply.operation() == OperationId::Link <==> reply is Link,
        reply.operation() == OperationId::Lock <==> reply is Lock,
        reply.operation() == OperationId::LockT <==> reply is LockT,
        reply.operation() == OperationId::LockU <==> reply is LockU,
        reply.operation() == OperationId::LookUp <==> reply is LookUp,
        reply.operation() == OperationId::LookUpP <==> reply is LookUpP,
        reply.operation() == OperationId::NVerify <==> reply is NVerify,
        reply.operation() == OperationId::Open <==> reply is Open,
        reply.operation() == OperationId::OpenAttr <==> reply is OpenAttr,
        reply.operation() == OperationId::OpenDowngrade <==> reply is OpenDowngrade,
        reply.operation() == OperationId::PutFh <==> reply is PutFh,
        reply.operation() == OperationId::PutPubFh <==> reply is PutPubFh,
        reply.operation() == OperationId::PutRootFh <==> reply is PutRootFh,
        reply.operation() == OperationId::Read <==> reply is Read,
        reply.operation() == OperationId::ReadDir <==> reply is ReadDir,
        reply.operation() == OperationId::ReadLink <==> reply is ReadLink,
        reply.operation() == OperationId::Remove <==> reply is Remove,
        reply.operation() == OperationId::Rename <==> reply is Rename,
        reply.operation() == OperationId::RestoreFh <==> reply is RestoreFh,
        reply.operation() == OperationId::SaveFh <==> reply is SaveFh,
        reply.operation() == OperationId::SecInfo <==> reply is SecInfo,
        reply.operation() == OperationId::SetAttr <==> reply is SetAttr,
        reply.operation() == OperationId::Verify <==> reply is Verify,
        reply.operation() == OperationId::Write <==> reply is Write,
        reply.operation() == OperationId::BackchannelCtl <==> reply is BackchannelCtl,
        reply.operation() == OperationId::BindConnToSession <==> reply is BindConnToSession,
        reply.operation() == OperationId::ExchangeId <==> reply is ExchangeId,
        reply.operation() == OperationId::CreateSession <==> reply is CreateSession,
        reply.operation() == OperationId::DestroySession <==> reply is DestroySession,
        reply.operation() == OperationId::FreeStateid <==> reply is FreeStateid,
        reply.operation() == OperationId::GetDirDelegation <==> reply is GetDirDelegation,
        reply.operation() == OperationId::GetDeviceInfo <==> reply is GetDeviceInfo,
        reply.operation() == OperationId::GetDeviceList <==> reply is GetDeviceList,
        reply.operation() == OperationId::LayoutCommit <==> reply is LayoutCommit,
        reply.operation() == OperationId::LayoutGet <==> reply is LayoutGet,
        reply.operation() == OperationId::LayoutReturn <==> reply is LayoutReturn,
        reply.operation() == OperationId::SecInfoNoName <==> reply is SecInfoNoName,
        reply.operation() == OperationId::Sequence <==> reply is Sequence,
        reply.operation() == OperationId::SetSsv <==> reply is SetSsv,
        reply.operation() == OperationId::TestStateId <==> reply is TestStateId,
        reply.operation() == OperationId::WantDelegation <==> reply is WantDelegation,
        reply.operation() == OperationId::DestroyClientId <==> reply is DestroyClientId,
        reply.operation() == OperationId::ReclaimComplete <==> reply is ReclaimComplete,
{
}

/// A reply that reports success has no failure, and one that reports an error has that error.
pub proof fn lemma_status_of_reply_decides(reply: ResOp)
    ensures
        reply matches ResOp::Access(res) ==> match res {
            Ok(_) => reply.failure() is None,
            Err(e) => reply.failure() == Some(ErrorView::Protocol(e)),
        },
        reply matches ResOp::Close(res) ==> match res {
            Ok(_) => reply.failure() is None,
            Err(e) => reply.failure() == Some(ErrorView::Protocol(e)),
        },
        reply matches ResOp::Commit(res) ==> match res {
            Ok(_) => reply.failure() is None,
            Err(e) => reply.failure() == Some(ErrorView::Protocol(e)),
        },
        reply matches ResOp::Create(res) ==> match res {
            Ok(_) => reply.failure() is None,
            Err(e) => reply.failure() == Some(ErrorView::Protocol(e)),
        },
        reply matches ResOp::DelegPurge(res) ==> match res {
            Ok(_) => reply.failure() is None,
            Err(e) => reply.failure() == Some(ErrorView::Protocol(e)),
        },
        reply matches ResOp::DelegReturn(res) ==> match res {
            Ok(_) => reply.failure() is None,
            Err(e) => reply.failure() == Some(ErrorView::Protocol(e)),
        },
        reply matches ResOp::GetAttr(res) ==> match res {
            Ok(_) => reply.failure() is None,
            Err(e) => reply.failure() == Some(ErrorView::Protocol(e)),
        },
        reply matches ResOp::GetFh(res) ==> match res {
            Ok(_) => reply.failure() is None,
            Err(e) => reply.failure() == Some(ErrorView::Protocol(e)),
        },
        reply matches ResOp::Link(res) ==> match res {
            Ok(_) => reply.failure() is None,
            Err(e) => reply.failure() == Some(ErrorView::Lock(e)),
        },
        reply matches ResOp::Lock(res) ==> match res {
            Ok(_) => reply.failure() is None,
            Err(e) => reply.failure() == Some(ErrorView::Lock(e)),
        },
        reply matches ResOp::LockT(res) ==> match res {
            Ok(_) => reply.failure() is None,
            Err(e) => reply.failure() == Some(ErrorView::Protocol(e)),
        },
        reply matches ResOp::LockU(res) ==> match res {
            Ok(_) => reply.failure() is None,
            Err(e) => reply.failure() == Some(ErrorView::Protocol(e)),
        },
        reply matches ResOp::LookUp(res) ==> match res {
            Ok(_) => reply.failure() is None,
            Err(e) => reply.failure() == Some(ErrorView::Protocol(e)),
        },
        reply matches ResOp::LookUpP(res) ==> match res {
            Ok(_) => reply.failure() is None,
            Err(e) => reply.failure() == Some(ErrorView::Protocol(e)),
        },
        reply matches ResOp::NVerify(res) ==> match res {
            Ok(_) => reply.failure() is None,
            Err(e) => reply.failure() == Some(ErrorView::Protocol(e)),
        },
        reply matches ResOp::Open(res) ==> match res {
            Ok(_) => reply.failure() is None,
            Err(e) => reply.failure() == Some(ErrorView::Protocol(e)),
        },
        reply matches ResOp::OpenAttr(res) ==> match res {
            Ok(_) => reply.failure() is None,
            Err(e) => reply.failure() == Some(ErrorView::Protocol(e)),
        },
        reply matches ResOp::OpenDowngrade(res) ==> match res {
            Ok(_) => reply.failure() is None,
            Err(e) => reply.failure() == Some(ErrorView::Protocol(e)),
        },
        reply matches ResOp::PutFh(res) ==> match res {
            Ok(_) => reply.failure() is None,
            Err(e) => reply.failure() == Some(ErrorView::Protocol(e)),
        },
        reply matches ResOp::PutPubFh(res) ==> match res {
            Ok(_) => reply.failure() is None,
            Err(e) => reply.failure() == Some(ErrorView::Protocol(e)),
        },
        reply matches ResOp::PutRootFh(res) ==> match res {
            Ok(_) => reply.failure() is None,
            Err(e) => reply.failure() == Some(ErrorView::Protocol(e)),
        },
        reply matches ResOp::Read(res) ==> match res {
            Ok(_) => reply.failure() is None,
            Err(e) => reply.failure() == Some(ErrorView::Protocol(e)),
        },
        reply matches ResOp::ReadDir(res) ==> match res {
            Ok(_) => reply.failure() is None,
            Err(e) => reply.failure() == Some(ErrorView::Protocol(e)),
        },
        reply matches ResOp::ReadLink(res) ==> match res {
            Ok(_) => reply.failure() is None,
            Err(e) => reply.failure() == Some(ErrorView::Protocol(e)),
        },
        reply matches ResOp::Remove(res) ==> match res {
            Ok(_) => reply.failure() is None,
            Err(e) => reply.failure() == Some(ErrorView::Protocol(e)),
        },
        reply matches ResOp::Rename(res) ==> match res {
            Ok(_) => reply.failure() is None,
            Err(e) => reply.failure() == Some(ErrorView::Protocol(e)),
        },
        reply matches ResOp::RestoreFh(res) ==> match res {
            Ok(_) => reply.failure() is None,
            Err(e) => reply.failure() == Some(ErrorView::Protocol(e)),
        },
        reply matches ResOp::SaveFh(res) ==> match res {
            Ok(_) => reply.failure() is None,
            Err(e) => reply.failure() == Some(ErrorView::Protocol(e)),
        },
        reply matches ResOp::SecInfo(res) ==> match res {
            Ok(_) => reply.failure() is None,
            Err(e) => reply.failure() == Some(ErrorView::Protocol(e)),
        },
        reply matches ResOp::SetAttr(res) ==> match res.status {
            Ok(_) => reply.failure() is None,
            Err(e) => reply.failure() == Some(ErrorView::Protocol(e)),
        },
        reply matches ResOp::Verify(res) ==> match res {
            Ok(_) => reply.failure() is None,
            Err(e) => reply.failure() == Some(ErrorView::Protocol(e)),
        },
        reply matches ResOp::Write(res) ==> match res {
            Ok(_) => reply.failure() is None,
            Err(e) => reply.failure() == Some(ErrorView::Protocol(e)),
        },
        reply matches ResOp::BackchannelCtl(res) ==> match res {
            Ok(_) => reply.failure() is None,
            Err(e) => reply.failure() == Some(ErrorView::Protocol(e)),
        },
        reply matches ResOp::BindConnToSession(res) ==> match res {
            Ok(_) => reply.failure() is None,
            Err(e) => reply.failure() == Some(ErrorView::Protocol(e)),
        },
        reply matches ResOp::ExchangeId(res) ==> match res {
            Ok(_) => reply.failure() is None,
            Err(e) => reply.failure() == Some(ErrorView::Protocol(e)),
        },
        reply matches ResOp::CreateSession(res) ==> match res {
            Ok(_) => reply.failure() is None,
            Err(e) => reply.failure() == Some(ErrorView::Protocol(e)),
        },
        reply matches ResOp::DestroySession(res) ==> match res {
            Ok(_) => reply.failure() is None,
            Err(e) => reply.failure() == Some(ErrorView::Protocol(e)),
        },
        reply matches ResOp::FreeStateid(res) ==> match res {
            Ok(_) => reply.failure() is None,
            Err(e) => reply.failure() == Some(ErrorView::Protocol(e)),
        },
        reply matches ResOp::GetDirDelegation(res) ==> match res {
            Ok(_) => reply.failure() is None,
            Err(e) => reply.failure() == Some(ErrorView::Protocol(e)),
        },
        reply matches ResOp::GetDeviceInfo(res) ==> match res {
            Ok(_) => reply.failure() is None,
            Err(e) => reply.failure() == Some(ErrorView::Protocol(e)),
        },
        reply matches ResOp::GetDeviceList(res) ==> match res {
            Ok(_) => reply.failure() is None,
            Err(e) => reply.failure() == Some(ErrorView::Protocol(e)),
        },
        reply matches ResOp::LayoutCommit(res) ==> match res {
            Ok(_) => reply.failure() is None,
            Err(e) => reply.failure() == Some(ErrorView::Protocol(e)),
        },
        reply matches ResOp::LayoutGet(res) ==> match res {
            Ok(_) => reply.failure() is None,
            Err(e) => reply.failure() == Some(ErrorView::Protocol(e)),
        },
        reply matches ResOp::LayoutReturn(res) ==> match res {
            Ok(_) => reply.failure() is None,
            Err(e) => reply.failure() == Some(ErrorView::Protocol(e)),
        },
        reply matches ResOp::SecInfoNoName(res) ==> match res {
            Ok(_) => reply.failure() is None,
            Err(e) => reply.failure() == Some(ErrorView::Protocol(e)),
        },
        reply matches ResOp::Sequence(res) ==> match res {
            Ok(_) => reply.failure() is None,
            Err(e) => reply.failure() == Some(ErrorView::Protocol(e)),
        },
        reply matches ResOp::SetSsv(res) ==> match res {
            Ok(_) => reply.failure() is None,
            Err(e) => reply.failure() == Some(ErrorView::Protocol(e)),
        },
        reply matches ResOp::TestStateId(res) ==> match res {
            Ok(_) => reply.failure() is None,
            Err(e) => reply.failure() == Some(ErrorView::Protocol(e)),
        },
        reply matches ResOp::WantDelegation(res) ==> match res {
            Ok(_) => reply.failure() is None,
            Err(e) => reply.failure() == Some(ErrorView::Protocol(e)),
        },
        reply matches ResOp::DestroyClientId(res) ==> match res {
            Ok(_) => reply.failure() is None,
            Err(e) => reply.failure() == Some(ErrorView::Protocol(e)),
        },
        reply matches ResOp::ReclaimComplete(res) ==> match res {
            Ok(_) => reply.failure() is None,
            Err(e) => reply.failure() == Some(ErrorView::Protocol(e)),
        },
{
}

/// Operations are named as the protocol names them.
pub proof fn lemma_names_of_operations()
    ensures
        OperationId::Access.spec_name() == "Access"@,
        OperationId::Close.spec_name() == "Close"@,
        OperationId::Commit.spec_name() == "Commit"@,
        OperationId::Create.spec_name() == "Create"@,
        OperationId::DelegPurge.spec_name() == "DelegPurge"@,
        OperationId::DelegReturn.spec_name() == "DelegReturn"@,
        OperationId::GetAttr.spec_name() == "GetAttr"@,
        OperationId::GetFh.spec_name() == "GetFh"@,
        OperationId::Link.spec_name() == "Link"@,
        OperationId::Lock.spec_name() == "Lock"@,
        OperationId::LockT.spec_name() == "LockT"@,
        OperationId::LockU.spec_name() == "LockU"@,
        OperationId::LookUp.spec_name() == "LookUp"@,
        OperationId::LookUpP.spec_name() == "LookUpP"@,
        OperationId::NVerify.spec_name() == "NVerify"@,
        OperationId::Open.spec_name() == "Open"@,
        OperationId::OpenAttr.spec_name() == "OpenAttr"@,
        OperationId::OpenDowngrade.spec_name() == "OpenDowngrade"@,
        OperationId::PutFh.spec_name() == "PutFh"@,
        OperationId::PutPubFh.spec_name() == "PutPubFh"@,
        OperationId::PutRootFh.spec_name() == "PutRootFh"@,
        OperationId::Read.spec_name() == "Read"@,
        OperationId::ReadDir.spec_name() == "ReadDir"@,
        OperationId::ReadLink.spec_name() == "ReadLink"@,
        OperationId::Remove.spec_name() == "Remove"@,
        OperationId::Rename.spec_name() == "Rename"@,
        OperationId::RestoreFh.spec_name() == "RestoreFh"@,
        OperationId::SaveFh.spec_name() == "SaveFh"@,
        OperationId::SecInfo.spec_name() == "SecInfo"@,
        OperationId::SetAttr.spec_name() == "SetAttr"@,
        OperationId::Verify.spec_name() == "Verify"@,
        OperationId::Write.spec_name() == "Write"@,
        OperationId::BackchannelCtl.spec_name() == "BackchannelCtl"@,
        OperationId::BindConnToSession.spec_name() == "BindConnToSession"@,
        OperationId::ExchangeId.spec_name() == "ExchangeId"@,
        OperationId::CreateSession.spec_name() == "CreateSession"@,
        OperationId::DestroySession.spec_name() == "DestroySession"@,
        OperationId::FreeStateid.spec_name() == "FreeStateid"@,
        OperationId::GetDirDelegation.spec_name() == "GetDirDelegation"@,
        OperationId::GetDeviceInfo.spec_name() == "GetDeviceInfo"@,
        OperationId::GetDeviceList.spec_name() == "GetDeviceList"@,
        OperationId::LayoutCommit.spec_name() == "LayoutCommit"@,
        OperationId::LayoutGet.spec_name() == "LayoutGet"@,
        OperationId::LayoutReturn.spec_name() == "LayoutReturn"@,
        OperationId::SecInfoNoName.spec_name() == "SecInfoNoName"@,
        OperationId::Sequence.spec_name() == "Sequence"@,
        OperationId::SetSsv.spec_name() == "SetSsv"@,
        OperationId::TestStateId.spec_name() == "TestStateId"@,
        OperationId::WantDelegation.spec_name() == "WantDelegation"@,
        OperationId::DestroyClientId.spec_name() == "DestroyClientId"@,
        OperationId::ReclaimComplete.spec_name() == "ReclaimComplete"@,
{
}

/// `Access` is sent as it is, and gives what a successful reply to it holds.
pub proof fn lemma_access(request: AccessArgs, reply: ResOp, res: nfs4::AccessRes)
    ensures
        request.arg_op() == ArgOp::Access(request),
        <AccessArgs as CompoundOp>::spec_operation() == OperationId::Access,
        <AccessArgs as CompoundOp>::gives(reply, res) <==> (
            reply matches ResOp::Access(Ok(got)) && got == res
        ),
{
}

/// `Close` is sent as it is, and gives what a successful reply to it holds.
pub proof fn lemma_close(request: nfs4::CloseArgs, reply: ResOp, res: nfs4::CloseRes)
    ensures
        request.arg_op() == ArgOp::Close(request),
        <nfs4::CloseArgs as CompoundOp>::spec_operation() == OperationId::Close,
        <nfs4::CloseArgs as CompoundOp>::gives(reply, res) <==> (
            reply matches ResOp::Close(Ok(got)) && got == res
        ),
{
}

/// `Commit` is sent as it is, and gives what a successful reply to it holds.
pub proof fn lemma_commit(request: CommitArgs, reply: ResOp, res: nfs4::CommitRes)
    ensures
        request.arg_op() == ArgOp::Commit(request),
        <CommitArgs as CompoundOp>::spec_operation() == OperationId::Commit,
        <CommitArgs as CompoundOp>::gives(reply, res) <==> (
            reply matches ResOp::Commit(Ok(got)) && got == res
        ),
{
}

/// `Create` is sent as it is, and gives what a successful reply to it holds.
pub proof fn lemma_create(request: CreateArgs, reply: ResOp, res: nfs4::CreateRes)
    ensures
        request.arg_op() == ArgOp::Create(request),
        <CreateArgs as CompoundOp>::spec_operation() == OperationId::Create,
        <CreateArgs as CompoundOp>::gives(reply, res) <==> (
            reply matches ResOp::Create(Ok(got)) && got == res
        ),
{
}

/// `DelegPurge` is sent as it is, and gives what a successful reply to it holds.
pub proof fn lemma_deleg_purge(request: nfs4::DelegPurgeArgs, reply: ResOp, res: ())
    ensures
        request.arg_op() == ArgOp::DelegPurge(request),
        <nfs4::DelegPurgeArgs as CompoundOp>::spec_operation() == OperationId::DelegPurge,
        <nfs4::DelegPurgeArgs as CompoundOp>::gives(reply, res) <==> (
            reply matches ResOp::DelegPurge(Ok(got)) && got == res
        ),
{
}

/// `DelegReturn` is sent as it is, and gives what a successful reply to it holds.
pub proof fn lemma_deleg_return(request: nfs4::DelegReturnArgs, reply: ResOp, res: ())
    ensures
        request.arg_op() == ArgOp::DelegReturn(request),
        <nfs4::DelegReturnArgs as CompoundOp>::spec_operation() == OperationId::DelegReturn,
        <nfs4::DelegReturnArgs as CompoundOp>::gives(reply, res) <==> (
            reply matches ResOp::DelegReturn(Ok(got)) && got == res
        ),
{
}

/// `GetAttr` is sent as it is, and gives what a successful reply to it holds.
pub proof fn lemma_get_attr(request: GetAttrArgs, reply: ResOp, res: GetAttrRes)
    ensures
        request.arg_op() == ArgOp::GetAttr(request),
        <GetAttrArgs as CompoundOp>::spec_operation() == OperationId::GetAttr,
        <GetAttrArgs as CompoundOp>::gives(reply, res) <==> (
            reply matches ResOp::GetAttr(Ok(got)) && got == res
        ),
{
}

/// `GetFh` is sent as it is, and gives what a successful reply to it holds.
pub proof fn lemma_get_fh(request: GetFh, reply: ResOp, res: GetFhRes)
    ensures
        request.arg_op() == ArgOp::GetFh,
        <GetFh as CompoundOp>::spec_operation() == OperationId::GetFh,
        <GetFh as CompoundOp>::gives(reply, res) <==> (
            reply matches ResOp::GetFh(Ok(got)) && got == res
        ),
{
}

/// `Link` is sent as it is, and gives what a successful reply to it holds.
pub proof fn lemma_link(request: nfs4::LinkArgs, reply: ResOp, res: nfs4::LinkRes)
    ensures
        request.arg_op() == ArgOp::Link(request),
        <nfs4::LinkArgs as CompoundOp>::spec_operation() == OperationId::Link,
        <nfs4::LinkArgs as CompoundOp>::gives(reply, res) <==> (
            reply matches ResOp::Link(Ok(got)) && got == res
        ),
{
}

/// `Lock` is sent as it is, and gives what a successful reply to it holds.
pub proof fn lemma_lock(request: nfs4::LockArgs, reply: ResOp, res: nfs4::LockRes)
    ensures
        request.arg_op() == ArgOp::Lock(request),
        <nfs4::LockArgs as CompoundOp>::spec_operation() == OperationId::Lock,
        <nfs4::LockArgs as CompoundOp>::gives(reply, res) <==> (
            reply matches ResOp::Lock(Ok(got)) && got == res
        ),
{
}

/// `LockT` is sent as it is, and gives what a successful reply to it holds.
pub proof fn lemma_lock_t(request: nfs4::LockTArgs, reply: ResOp, res: ())
    ensures
        request.arg_op() == ArgOp::LockT(request),
        <nfs4::LockTArgs as CompoundOp>::spec_operation() == OperationId::LockT,
        <nfs4::LockTArgs as CompoundOp>::gives(reply, res) <==> (
            reply matches ResOp::LockT(Ok(got)) && got == res
        ),
{
}

/// `LockU` is sent as it is, and gives what a successful reply to it holds.
pub proof fn lemma_lock_u(request: nfs4::LockUArgs, reply: ResOp, res: nfs4::LockURes)
    ensures
        request.arg_op() == ArgOp::LockU(request),
        <nfs4::LockUArgs as CompoundOp>::spec_operation() == OperationId::LockU,
        <nfs4::LockUArgs as CompoundOp>::gives(reply, res) <==> (
            reply matches ResOp::LockU(Ok(got)) && got == res
        ),
{
}

/// `LookUp` is sent as it is, and gives what a successful reply to it holds.
pub proof fn lemma_look_up(request: LookUpArgs, reply: ResOp, res: ())
    ensures
        request.arg_op() == ArgOp::LookUp(request),
        <LookUpArgs as CompoundOp>::spec_operation() == OperationId::LookUp,
        <LookUpArgs as CompoundOp>::gives(reply, res) <==> (
            reply matches ResOp::LookUp(Ok(got)) && got == res
        ),
{
}

/// `LookUpP` is sent as it is, and gives what a successful reply to it holds.
pub proof fn lemma_look_up_p(request: LookUpP, reply: ResOp, res: ())
    ensures
        request.arg_op() == ArgOp::LookUpP,
        <LookUpP as CompoundOp>::spec_operation() == OperationId::LookUpP,
        <LookUpP as CompoundOp>::gives(reply, res) <==> (
            reply matches ResOp::LookUpP(Ok(got)) && got == res
        ),
{
}

/// `NVerify` is sent as it is, and gives what a successful reply to it holds.
pub proof fn lemma_nverify(request: nfs4::NVerifyArgs, reply: ResOp, res: ())
    ensures
        request.arg_op() == ArgOp::NVerify(request),
        <nfs4::NVerifyArgs as CompoundOp>::spec_operation() == OperationId::NVerify,
        <nfs4::NVerifyArgs as CompoundOp>::gives(reply, res) <==> (
            reply matches ResOp::NVerify(Ok(got)) && got == res
        ),
{
}

/// `Open` is sent as it is, and gives what a successful reply to it holds.
pub proof fn lemma_open(request: OpenArgs, reply: ResOp, res: nfs4::OpenRes)
    ensures
        request.arg_op() == ArgOp::Open(request),
        <OpenArgs as CompoundOp>::spec_operation() == OperationId::Open,
        <OpenArgs as CompoundOp>::gives(reply, res) <==> (
            reply matches ResOp::Open(Ok(got)) && got == res
        ),
{
}

/// `OpenAttr` is sent as it is, and gives what a successful reply to it holds.
pub proof fn lemma_open_attr(request: nfs4::OpenAttrArgs, reply: ResOp, res: ())
    ensures
        request.arg_op() == ArgOp::OpenAttr(request),
        <nfs4::OpenAttrArgs as CompoundOp>::spec_operation() == OperationId::OpenAttr,
        <nfs4::OpenAttrArgs as CompoundOp>::gives(reply, res) <==> (
            reply matches ResOp::OpenAttr(Ok(got)) && got == res
        ),
{
}

/// `OpenDowngrade` is sent as it is, and gives what a successful reply to it holds.
pub proof fn lemma_open_downgrade(
    request: nfs4::OpenDowngradeArgs,
    reply: ResOp,
    res: nfs4::OpenDowngradeRes,
)
    ensures
        request.arg_op() == ArgOp::OpenDowngrade(request),
        <nfs4::OpenDowngradeArgs as CompoundOp>::spec_operation() == OperationId::OpenDowngrade,
        <nfs4::OpenDowngradeArgs as CompoundOp>::gives(reply, res) <==> (
            reply matches ResOp::OpenDowngrade(Ok(got)) && got == res
        ),
{
}

/// `PutFh` is sent as it is, and gives what a successful reply to it holds.
pub proof fn lemma_put_fh(request: PutFhArgs, reply: ResOp, res: ())
    ensures
        request.arg_op() == ArgOp::PutFh(request),
        <PutFhArgs as CompoundOp>::spec_operation() == OperationId::PutFh,
        <PutFhArgs as CompoundOp>::gives(reply, res) <==> (
            reply matches ResOp::PutFh(Ok(got)) && got == res
        ),
{
}

/// `PutPubFh` is sent as it is, and gives what a successful reply to it holds.
pub proof fn lemma_put_pub_fh(request: PutPubFh, reply: ResOp, res: ())
    ensures
        request.arg_op() == ArgOp::PutPubFh,
        <PutPubFh as CompoundOp>::spec_operation() == OperationId::PutPubFh,
        <PutPubFh as CompoundOp>::gives(reply, res) <==> (
            reply matches ResOp::PutPubFh(Ok(got)) && got == res
        ),
{
}

/// `PutRootFh` is sent as it is, and gives what a successful reply to it holds.
pub proof fn lemma_put_root_fh(request: PutRootFh, reply: ResOp, res: ())
    ensures
        request.arg_op() == ArgOp::PutRootFh,
        <PutRootFh as CompoundOp>::spec_operation() == OperationId::PutRootFh,
        <PutRootFh as CompoundOp>::gives(reply, res) <==> (
            reply matches ResOp::PutRootFh(Ok(got)) && got == res
        ),
{
}

/// `Read` is sent as it is, and gives what a successful reply to it holds.
pub proof fn lemma_read(request: ReadArgs, reply: ResOp, res: ReadRes)
    ensures
        request.arg_op() == ArgOp::Read(request),
        <ReadArgs as CompoundOp>::spec_operation() == OperationId::Read,
        <ReadArgs as CompoundOp>::gives(reply, res) <==> (
            reply matches ResOp::Read(Ok(got)) && got == res
        ),
{
}

/// `ReadDir` is sent as it is, and gives what a successful reply to it holds.
pub proof fn lemma_read_dir(request: ReadDirArgs, reply: ResOp, res: ReadDirRes)
    ensures
        request.arg_op() == ArgOp::ReadDir(request),
        <ReadDirArgs as CompoundOp>::spec_operation() == OperationId::ReadDir,
        <ReadDirArgs as CompoundOp>::gives(reply, res) <==> (
            reply matches ResOp::ReadDir(Ok(got)) && got == res
        ),
{
}

/// `ReadLink` is sent as it is, and gives what a successful reply to it holds.
pub proof fn lemma_read_link(request: ReadLink, reply: ResOp, res: nfs4::ReadLinkRes)
    ensures
        request.arg_op() == ArgOp::ReadLink,
        <ReadLink as CompoundOp>::spec_operation() == OperationId::ReadLink,
        <ReadLink as CompoundOp>::gives(reply, res) <==> (
            reply matches ResOp::ReadLink(Ok(got)) && got == res
        ),
{
}

/// `Remove` is sent as it is, and gives what a successful reply to it holds.
pub proof fn lemma_remove(request: RemoveArgs, reply: ResOp, res: RemoveRes)
    ensures
        request.arg_op() == ArgOp::Remove(request),
        <RemoveArgs as CompoundOp>::spec_operation() == OperationId::Remove,
        <RemoveArgs as CompoundOp>::gives(reply, res) <==> (
            reply matches ResOp::Remove(Ok(got)) && got == res
        ),
{
}

/// `Rename` is sent as it is, and gives what a successful reply to it holds.
pub proof fn lemma_rename(request: RenameArgs, reply: ResOp, res: nfs4::RenameRes)
    ensures
        request.arg_op() == ArgOp::Rename(request),
        <RenameArgs as CompoundOp>::spec_operation() == OperationId::Rename,
        <RenameArgs as CompoundOp>::gives(reply, res) <==> (
            reply matches ResOp::Rename(Ok(got)) && got == res
        ),
{
}

/// `RestoreFh` is sent as it is, and gives what a successful reply to it holds.
pub proof fn lemma_restore_fh(request: RestoreFh, reply: ResOp, res: ())
    ensures
        request.arg_op() == ArgOp::RestoreFh,
        <RestoreFh as CompoundOp>::spec_operation() == OperationId::RestoreFh,
        <RestoreFh as CompoundOp>::gives(reply, res) <==> (
            reply matches ResOp::RestoreFh(Ok(got)) && got == res
        ),
{
}

/// `SaveFh` is sent as it is, and gives what a successful reply to it holds.
pub proof fn lemma_save_fh(request: SaveFh, reply: ResOp, res: ())
    ensures
        request.arg_op() == ArgOp::SaveFh,
        <SaveFh as CompoundOp>::spec_operation() == OperationId::SaveFh,
        <SaveFh as CompoundOp>::gives(reply, res) <==> (
            reply matches ResOp::SaveFh(Ok(got)) && got == res
        ),
{
}

/// `SecInfo` is sent as it is, and gives what a successful reply to it holds.
pub proof fn lemma_sec_info(request: nfs4::SecInfoArgs, reply: ResOp, res: nfs4::SecInfoRes)
    ensures
        request.arg_op() == ArgOp::SecInfo(request),
        <nfs4::SecInfoArgs as CompoundOp>::spec_operation() == OperationId::SecInfo,
        <nfs4::SecInfoArgs as CompoundOp>::gives(reply, res) <==> (
            reply matches ResOp::SecInfo(Ok(got)) && got == res
        ),
{
}

/// `SetAttr` is sent as it is, and gives what a successful reply to it holds.
pub proof fn lemma_set_attr(request: SetAttrArgs, reply: ResOp, res: nfs4::SetAttrRes)
    ensures
        request.arg_op() == ArgOp::SetAttr(request),
        <SetAttrArgs as CompoundOp>::spec_operation() == OperationId::SetAttr,
        <SetAttrArgs as CompoundOp>::gives(reply, res) <==> (
            reply matches ResOp::SetAttr(got) && got.status is Ok && got.res == res
        ),
{
}

/// `Verify` is sent as it is, and gives what a successful reply to it holds.
pub proof fn lemma_verify(request: VerifyArgs, reply: ResOp, res: ())
    ensures
        request.arg_op() == ArgOp::Verify(request),
        <VerifyArgs as CompoundOp>::spec_operation() == OperationId::Verify,
        <VerifyArgs as CompoundOp>::gives(reply, res) <==> (
            reply matches ResOp::Verify(Ok(got)) && got == res
        ),
{
}

/// `Write` is sent as it is, and gives what a successful reply to it holds.
pub proof fn lemma_write(request: WriteArgs, reply: ResOp, res: WriteRes)
    ensures
        request.arg_op() == ArgOp::Write(request),
        <WriteArgs as CompoundOp>::spec_operation() == OperationId::Write,
        <WriteArgs as CompoundOp>::gives(reply, res) <==> (
            reply matches ResOp::Write(Ok(got)) && got == res
        ),
{
}

/// `BackchannelCtl` is sent as it is, and gives what a successful reply to it holds.
pub proof fn lemma_backchannel_ctl(request: nfs4::BackchannelCtlArgs, reply: ResOp, res: ())
    ensures
        request.arg_op() == ArgOp::BackchannelCtl(request),
        <nfs4::BackchannelCtlArgs as CompoundOp>::spec_operation() == OperationId::BackchannelCtl,
        <nfs4::BackchannelCtlArgs as CompoundOp>::gives(reply, res) <==> (
            reply matches ResOp::BackchannelCtl(Ok(got)) && got == res
        ),
{
}

/// `BindConnToSession` is sent as it is, and gives what a successful reply to it holds.
pub proof fn lemma_bind_conn_to_session(
    request: nfs4::BindConnToSessionArgs,
    reply: ResOp,
    res: nfs4::BindConnToSessionRes,
)
    ensures
        request.arg_op() == ArgOp::BindConnToSession(request),
        <nfs4::BindConnToSessionArgs as CompoundOp>::spec_operation()
            == OperationId::BindConnToSession,
        <nfs4::BindConnToSessionArgs as CompoundOp>::gives(reply, res) <==> (
            reply matches ResOp::BindConnToSession(Ok(got)) && got == res
        ),
{
}

/// `ExchangeId` is sent as it is, and gives what a successful reply to it holds.
pub proof fn lemma_exchange_id(request: ExchangeIdArgs, reply: ResOp, res: ExchangeIdRes)
    ensures
        request.arg_op() == ArgOp::ExchangeId(request),
        <ExchangeIdArgs as CompoundOp>::spec_operation() == OperationId::ExchangeId,
        <ExchangeIdArgs as CompoundOp>::gives(reply, res) <==> (
            reply matches ResOp::ExchangeId(Ok(got)) && got == res
        ),
{
}

/// `CreateSession` is sent as it is, and gives what a successful reply to it holds.
pub proof fn lemma_create_session(request: CreateSessionArgs, reply: ResOp, res: CreateSessionRes)
    ensures
        request.arg_op() == ArgOp::CreateSession(request),
        <CreateSessionArgs as CompoundOp>::spec_operation() == OperationId::CreateSession,
        <CreateSessionArgs as CompoundOp>::gives(reply, res) <==> (
            reply matches ResOp::CreateSession(Ok(got)) && got == res
        ),
{
}

/// `DestroySession` is sent as it is, and gives what a successful reply to it holds.
pub proof fn lemma_destroy_session(request: nfs4::DestroySessionArgs, reply: ResOp, res: ())
    ensures
        request.arg_op() == ArgOp::DestroySession(request),
        <nfs4::DestroySessionArgs as CompoundOp>::spec_operation() == OperationId::DestroySession,
        <nfs4::DestroySessionArgs as CompoundOp>::gives(reply, res) <==> (
            reply matches ResOp::DestroySession(Ok(got)) && got == res
        ),
{
}

/// `FreeStateid` is sent as it is, and gives what a successful reply to it holds.
pub proof fn lemma_free_stateid(request: nfs4::FreeStateidArgs, reply: ResOp, res: ())
    ensures
        request.arg_op() == ArgOp::FreeStateid(request),
        <nfs4::FreeStateidArgs as CompoundOp>::spec_operation() == OperationId::FreeStateid,
        <nfs4::FreeStateidArgs as CompoundOp>::gives(reply, res) <==> (
            reply matches ResOp::FreeStateid(Ok(got)) && got == res
        ),
{
}

/// `GetDirDelegation` is sent as it is, and gives what a successful reply to it holds.
pub proof fn lemma_get_dir_delegation(
    request: nfs4::GetDirDelegationArgs,
    reply: ResOp,
    res: nfs4::GetDirDelegationRes,
)
    ensures
        request.arg_op() == ArgOp::GetDirDelegation(request),
        <nfs4::GetDirDelegationArgs as CompoundOp>::spec_operation()
            == OperationId::GetDirDelegation,
        <nfs4::GetDirDelegationArgs as CompoundOp>::gives(reply, res) <==> (
            reply matches ResOp::GetDirDelegation(Ok(got)) && got == res
        ),
{
}

/// `GetDeviceInfo` is sent as it is, and gives what a successful reply to it holds.
pub proof fn lemma_get_device_info(
    request: nfs4::GetDeviceInfoArgs,
    reply: ResOp,
    res: nfs4::GetDeviceInfoRes,
)
    ensures
        request.arg_op() == ArgOp::GetDeviceInfo(request),
        <nfs4::GetDeviceInfoArgs as CompoundOp>::spec_operation() == OperationId::GetDeviceInfo,
        <nfs4::GetDeviceInfoArgs as CompoundOp>::gives(reply, res) <==> (
            reply matches ResOp::GetDeviceInfo(Ok(got)) && got == res
        ),
{
}

/// `GetDeviceList` is sent as it is, and gives what a successful reply to it holds.
pub proof fn lemma_get_device_list(
    request: nfs4::GetDeviceListArgs,
    reply: ResOp,
    res: nfs4::GetDeviceListRes,
)
    ensures
        request.arg_op() == ArgOp::GetDeviceList(request),
        <nfs4::GetDeviceListArgs as CompoundOp>::spec_operation() == OperationId::GetDeviceList,
        <nfs4::GetDeviceListArgs as CompoundOp>::gives(reply, res) <==> (
            reply matches ResOp::GetDeviceList(Ok(got)) && got == res
        ),
{
}

/// `LayoutCommit` is sent as it is, and gives what a successful reply to it holds.
pub proof fn lemma_layout_commit(
    request: nfs4::LayoutCommitArgs,
    reply: ResOp,
    res: nfs4::LayoutCommitRes,
)
    ensures
        request.arg_op() == ArgOp::LayoutCommit(request),
        <nfs4::LayoutCommitArgs as CompoundOp>::spec_operation() == OperationId::LayoutCommit,
        <nfs4::LayoutCommitArgs as CompoundOp>::gives(reply, res) <==> (
            reply matches ResOp::LayoutCommit(Ok(got)) && got == res
        ),
{
}

/// `LayoutGet` is sent as it is, and gives what a successful reply to it holds.
pub proof fn lemma_layout_get(request: nfs4::LayoutGetArgs, reply: ResOp, res: nfs4::LayoutGetRes)
    ensures
        request.arg_op() == ArgOp::LayoutGet(request),
        <nfs4::LayoutGetArgs as CompoundOp>::spec_operation() == OperationId::LayoutGet,
        <nfs4::LayoutGetArgs as CompoundOp>::gives(reply, res) <==> (
            reply matches ResOp::LayoutGet(Ok(got)) && got == res
        ),
{
}

/// `LayoutReturn` is sent as it is, and gives what a successful reply to it holds.
pub proof fn lemma_layout_return(
    request: nfs4::LayoutReturnArgs,
    reply: ResOp,
    res: nfs4::LayoutReturnRes,
)
    ensures
        request.arg_op() == ArgOp::LayoutReturn(request),
        <nfs4::LayoutReturnArgs as CompoundOp>::spec_operation() == OperationId::LayoutReturn,
        <nfs4::LayoutReturnArgs as CompoundOp>::gives(reply, res) <==> (
            reply matches ResOp::LayoutReturn(Ok(got)) && got == res
        ),
{
}

/// `SecInfoNoName` is sent as it is, and gives what a successful reply to it holds.
pub proof fn lemma_sec_info_no_name(
    request: nfs4::SecInfoNoNameArgs,
    reply: ResOp,
    res: nfs4::SecInfoRes,
)
    ensures
        request.arg_op() == ArgOp::SecInfoNoName(request),
        <nfs4::SecInfoNoNameArgs as CompoundOp>::spec_operation() == OperationId::SecInfoNoName,
        <nfs4::SecInfoNoNameArgs as CompoundOp>::gives(reply, res) <==> (
            reply matches ResOp::SecInfoNoName(Ok(got)) && got == res
        ),
{
}

/// `Sequence` is sent as it is, and gives what a successful reply to it holds.
pub proof fn lemma_sequence(request: SequenceArgs, reply: ResOp, res: nfs4::SequenceRes)
    ensures
        request.arg_op() == ArgOp::Sequence(request),
        <SequenceArgs as CompoundOp>::spec_operation() == OperationId::Sequence,
        <SequenceArgs as CompoundOp>::gives(reply, res) <==> (
            reply matches ResOp::Sequence(Ok(got)) && got == res
        ),
{
}

/// `SetSsv` is sent as it is, and gives what a successful reply to it holds.
pub proof fn lemma_set_ssv(request: nfs4::SetSsvArgs, reply: ResOp, res: nfs4::SetSsvRes)
    ensures
        request.arg_op() == ArgOp::SetSsv(request),
        <nfs4::SetSsvArgs as CompoundOp>::spec_operation() == OperationId::SetSsv,
        <nfs4::SetSsvArgs as CompoundOp>::gives(reply, res) <==> (
            reply matches ResOp::SetSsv(Ok(got)) && got == res
        ),
{
}

/// `TestStateId` is sent as it is, and gives what a successful reply to it holds.
pub proof fn lemma_test_state_id(
    request: nfs4::TestStateIdArgs,
    reply: ResOp,
    res: nfs4::TestStateIdRes,
)
    ensures
        request.arg_op() == ArgOp::TestStateId(request),
        <nfs4::TestStateIdArgs as CompoundOp>::spec_operation() == OperationId::TestStateId,
        <nfs4::TestStateIdArgs as CompoundOp>::gives(reply, res) <==> (
            reply matches ResOp::TestStateId(Ok(got)) && got == res
        ),
{
}

/// `WantDelegation` is sent as it is, and gives what a successful reply to it holds.
pub proof fn lemma_want_delegation(
    request: nfs4::WantDelegationArgs,
    reply: ResOp,
    res: nfs4::WantDelegationRes,
)
    ensures
        request.arg_op() == ArgOp::WantDelegation(request),
        <nfs4::WantDelegationArgs as CompoundOp>::spec_operation() == OperationId::WantDelegation,
        <nfs4::WantDelegationArgs as CompoundOp>::gives(reply, res) <==> (
            reply matches ResOp::WantDelegation(Ok(got)) && got == res
        ),
{
}

/// `DestroyClientId` is sent as it is, and gives what a successful reply to it holds.
pub proof fn lemma_destroy_client_id(request: nfs4::DestroyClientIdArgs, reply: ResOp, res: ())
    ensures
        request.arg_op() == ArgOp::DestroyClientId(request),
        <nfs4::DestroyClientIdArgs as CompoundOp>::spec_operation() == OperationId::DestroyClientId,
        <nfs4::DestroyClientIdArgs as CompoundOp>::gives(reply, res) <==> (
            reply matches ResOp::DestroyClientId(Ok(got)) && got == res
        ),
{
}

/// `ReclaimComplete` is sent as it is, and gives what a successful reply to it holds.
pub proof fn lemma_reclaim_complete(request: ReclaimCompleteArgs, reply: ResOp, res: ())
    ensures
        request.arg_op() == ArgOp::ReclaimComplete(request),
        <ReclaimCompleteArgs as CompoundOp>::spec_operation() == OperationId::ReclaimComplete,
        <ReclaimCompleteArgs as CompoundOp>::gives(reply, res) <==> (
            reply matches ResOp::ReclaimComplete(Ok(got)) && got == res
        ),
{
}

/// When a request of a session that ends by asking for a handle succeeds, the handle that it
/// gives is the one in the last reply, byte for byte.
pub proof fn lemma_handle_is_from_last_reply<A: CompoundRequest>(
    pending: Pending<Sequenced<ReturnSecond<A, GetFh>>>,
    reply: CompoundReply,
    response: GetFhRes,
)
    requires
        compound_failure(pending.expected(), reply) is None,
        pending.answered(reply, response),
    ensures
        reply matches Ok(res) && res.res_array@.last() matches ResOp::GetFh(Ok(got)) && {
            &&& got.object == response.object
            &&& got.object@ == response.object@
            &&& got.object.0@ == response.object.0@
        },
{
    lemma_last_reply(pending, reply, response);
}

/// When `Access` on a file succeeds, it gives what the last reply holds.
pub proof fn lemma_access_gives_last_reply(
    pending: Pending<OnFile<AccessArgs>>,
    reply: CompoundReply,
    response: nfs4::AccessRes,
)
    requires
        compound_failure(pending.expected(), reply) is None,
        pending.answered(reply, response),
    ensures
        reply matches Ok(res) && res.res_array@.last() matches ResOp::Access(Ok(got)) && got
            == response,
{
    lemma_last_reply(pending, reply, response);
}

/// When `Commit` on a file succeeds, it gives what the last reply holds.
pub proof fn lemma_commit_gives_last_reply(
    pending: Pending<OnFile<CommitArgs>>,
    reply: CompoundReply,
    response: nfs4::CommitRes,
)
    requires
        compound_failure(pending.expected(), reply) is None,
        pending.answered(reply, response),
    ensures
        reply matches Ok(res) && res.res_array@.last() matches ResOp::Commit(Ok(got)) && got
            == response,
{
    lemma_last_reply(pending, reply, response);
}

/// When `GetAttr` on a file succeeds, it gives what the last reply holds.
pub proof fn lemma_get_attr_gives_last_reply(
    pending: Pending<OnFile<GetAttrArgs>>,
    reply: CompoundReply,
    response: GetAttrRes,
)
    requires
        compound_failure(pending.expected(), reply) is None,
        pending.answered(reply, response),
    ensures
        reply matches Ok(res) && res.res_array@.last() matches ResOp::GetAttr(Ok(got)) && got
            == response,
{
    lemma_last_reply(pending, reply, response);
}

/// When `Read` on a file succeeds, it gives what the last reply holds.
pub proof fn lemma_read_gives_last_reply(
    pending: Pending<OnFile<ReadArgs>>,
    reply: CompoundReply,
    response: ReadRes,
)
    requires
        compound_failure(pending.expected(), reply) is None,
        pending.answered(reply, response),
    ensures
        reply matches Ok(res) && res.res_array@.last() matches ResOp::Read(Ok(got)) && got
            == response,
{
    lemma_last_reply(pending, reply, response);
}

/// When `ReadDir` on a file succeeds, it gives what the last reply holds.
pub proof fn lemma_read_dir_gives_last_reply(
    pending: Pending<OnFile<ReadDirArgs>>,
    reply: CompoundReply,
    response: ReadDirRes,
)
    requires
        compound_failure(pending.expected(), reply) is None,
        pending.answered(reply, response),
    ensures
        reply matches Ok(res) && res.res_array@.last() matches ResOp::ReadDir(Ok(got)) && got
            == response,
{
    lemma_last_reply(pending, reply, response);
}

/// When `ReadLink` on a file succeeds, it gives what the last reply holds.
pub proof fn lemma_read_link_gives_last_reply(
    pending: Pending<OnFile<ReadLink>>,
    reply: CompoundReply,
    response: nfs4::ReadLinkRes,
)
    requires
        compound_failure(pending.expected(), reply) is None,
        pending.answered(reply, response),
    ensures
        reply matches Ok(res) && res.res_array@.last() matches ResOp::ReadLink(Ok(got)) && got
            == response,
{
    lemma_last_reply(pending, reply, response);
}

/// When `Remove` on a file succeeds, it gives what the last reply holds.
pub proof fn lemma_remove_gives_last_reply(
    pending: Pending<OnFile<RemoveArgs>>,
    reply: CompoundReply,
    response: RemoveRes,
)
    requires
        compound_failure(pending.expected(), reply) is None,
        pending.answered(reply, response),
    ensures
        reply matches Ok(res) && res.res_array@.last() matches ResOp::Remove(Ok(got)) && got
            == response,
{
    lemma_last_reply(pending, reply, response);
}

/// When `Write` on a file succeeds, it gives what the last reply holds.
pub proof fn lemma_write_gives_last_reply(
    pending: Pending<OnFile<WriteArgs>>,
    reply: CompoundReply,
    response: WriteRes,
)
    requires
        compound_failure(pending.expected(), reply) is None,
        pending.answered(reply, response),
    ensures
        reply matches Ok(res) && res.res_array@.last() matches ResOp::Write(Ok(got)) && got
            == response,
{
    lemma_last_reply(pending, reply, response);
}

/// When a request of a session that ends with `Rename` succeeds, it gives what the last reply
/// holds.
pub proof fn lemma_rename_gives_last_reply<A: CompoundRequest>(
    pending: Pending<Sequenced<ReturnSecond<A, RenameArgs>>>,
    reply: CompoundReply,
    response: nfs4::RenameRes,
)
    requires
        compound_failure(pending.expected(), reply) is None,
        pending.answered(reply, response),
    ensures
        reply matches Ok(res) && res.res_array@.last() matches ResOp::Rename(Ok(got)) && got
            == response,
{
    lemma_last_reply(pending, reply, response);
}

/// An error keeps what went wrong.
pub proof fn lemma_errors_keep_their_cause(
    broken: RpcError,
    refused: nfs4::StatusError,
    locked: nfs4::LockStatusError,
    failed: IoError,
)
    ensures
        <Error as FromSpec<RpcError>>::from_spec(broken) == Error::SunRpc(broken),
        <Error as FromSpec<nfs4::StatusError>>::from_spec(refused) == Error::Protocol(refused),
        <Error as FromSpec<nfs4::LockStatusError>>::from_spec(locked) == Error::Lock(locked),
        <Error as FromSpec<IoError>>::from_spec(failed) == Error::Io(failed),
{
}

/// The outcome of an operation keeps what the operation gives, and the error that it reports.
pub proof fn lemma_outcomes_keep_their_value<T>(
    status: StatusResult<T>,
    locked: LockStatusResult<T>,
    set: SetAttrStatusResult,
)
    ensures
        <TempResult<T> as FromSpec<StatusResult<T>>>::from_spec(status).0 == match status {
            Ok(value) => Ok::<T, Error>(value),
            Err(e) => Err::<T, Error>(Error::Protocol(e)),
        },
        <TempResult<T> as FromSpec<LockStatusResult<T>>>::from_spec(locked).0 == match locked {
            Ok(value) => Ok::<T, Error>(value),
            Err(e) => Err::<T, Error>(Error::Lock(e)),
        },
        <TempResult<nfs4::SetAttrRes> as FromSpec<SetAttrStatusResult>>::from_spec(set).0
            == match set.status {
            Ok(_) => Ok::<nfs4::SetAttrRes, Error>(set.res),
            Err(e) => Err::<nfs4::SetAttrRes, Error>(Error::Protocol(e)),
        },
{
}

/// An operation without arguments is sent as that operation.
pub proof fn lemma_operations_without_arguments()
    ensures
        <ArgOp as FromSpec<GetFh>>::from_spec(GetFh) is GetFh,
        <ArgOp as FromSpec<LookUpP>>::from_spec(LookUpP) is LookUpP,
        <ArgOp as FromSpec<PutPubFh>>::from_spec(PutPubFh) is PutPubFh,
        <ArgOp as FromSpec<PutRootFh>>::from_spec(PutRootFh) is PutRootFh,
        <ArgOp as FromSpec<ReadLink>>::from_spec(ReadLink) is ReadLink,
        <ArgOp as FromSpec<RestoreFh>>::from_spec(RestoreFh) is RestoreFh,
        <ArgOp as FromSpec<SaveFh>>::from_spec(SaveFh) is SaveFh,
{
}

} // verus!
